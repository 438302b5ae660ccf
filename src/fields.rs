//! Wrapper types that state, for a register field, which accesses are sound.
//!
//! | Marker             | Read | Write | Read from a shared pointer |
//! |--------------------|------|-------|----------------------------|
//! | [`ReadOnly`]       | yes  | no    | no (the read has effects)  |
//! | [`WriteOnly`]      | no   | yes   | n/a                        |
//! | [`ReadWrite`]      | yes  | yes   | no                         |
//! | [`ReadPure`]       | yes  | no    | yes                        |
//! | [`ReadPureWrite`]  | yes  | yes   | yes; writes stay exclusive |
//!
//! A field with none of these can only be reached through `read_unsafe` and `write_unsafe`.
use vstd::prelude::*;

verus! {

/// A register that may be read, where the read may have side effects: it needs a unique pointer.
#[derive(Clone, Copy, Debug, Default, Eq, PartialEq)]
pub struct ReadOnly<T>(pub T);

/// A register that may be written, but not read.
#[derive(Clone, Copy, Debug, Default, Eq, PartialEq)]
pub struct WriteOnly<T>(pub T);

/// A register that may be read and written, where the read may have side effects.
#[derive(Clone, Copy, Debug, Default, Eq, PartialEq)]
pub struct ReadWrite<T>(pub T);

/// A register that may be read without side effects, so also through a shared pointer.
#[derive(Clone, Copy, Debug, Default, Eq, PartialEq)]
pub struct ReadPure<T>(pub T);

/// A register that may be read without side effects, and written through a unique pointer.
#[derive(Clone, Copy, Debug, Default, Eq, PartialEq)]
pub struct ReadPureWrite<T>(pub T);

} // verus!
