//! Properties that relate several operations on MMIO pointers.
use crate::fields::{ReadPure, ReadPureWrite, ReadWrite, WriteOnly};
use crate::{SharedMmioPointer, UniqueMmioPointer};
use vstd::prelude::*;
use vstd::std_specs::convert::FromSpec;

verus! {

/// Projecting a unique pointer onto a field gives a child whose registers hold what the
/// parent's hold in that field, so reading the child reads that part of the parent; and once the
/// child is done, the parent holds the child's final contents in that field and the rest as it
/// was, so a later projection of the same field reads what was written through this one.
///
/// `field` and `put` describe the selector handed to [`UniqueMmioPointer::child`]: it returns the
/// part `field` reads, and a change of that part changes the whole as `put` says. `before` and
/// `after` are the parent's contents when `child` is called and once the child is done.
pub proof fn lemma_projection<'b, T: 'b, U: 'b, F>(
    before: T,
    after: T,
    select: F,
    field: spec_fn(T) -> U,
    put: spec_fn(T, U) -> T,
    child: UniqueMmioPointer<'b, U>,
)
    where
        F: FnOnce(&'b mut T) -> &'b mut U,
    requires
        forall|r: &'b mut T, o: &'b mut U|
            select.ensures((r,), o) ==> *o == field(*r) && *final(r) == put(*r, *final(o)),
        exists|r: &'b mut T, o: &'b mut U|
            {
                &&& *r == before
                &&& *final(r) == after
                &&& select.ensures((r,), o)
                &&& child.regs == o
            },
    ensures
        child.value() == field(before),
        after == put(before, *final(child.regs)),
{
}

/// A side-effect-free register reads the same through the shared pointer that a downgrade
/// makes as through the unique pointer before it.
pub proof fn lemma_downgrade_keeps_pure_read<'a, T>(unique: UniqueMmioPointer<'a, ReadPure<T>>)
    ensures
        <SharedMmioPointer<'a, ReadPure<T>> as FromSpec<_>>::from_spec(unique).value().0
            == unique.value().0,
{
    SharedMmioPointer::<'a, ReadPure<T>>::lemma_from_unique(unique);
}

/// The same for a register that is also writable.
pub proof fn lemma_downgrade_keeps_pure_write_read<'a, T>(
    unique: UniqueMmioPointer<'a, ReadPureWrite<T>>,
)
    ensures
        <SharedMmioPointer<'a, ReadPureWrite<T>> as FromSpec<_>>::from_spec(unique).value().0
            == unique.value().0,
{
    SharedMmioPointer::<'a, ReadPureWrite<T>>::lemma_from_unique(unique);
}

/// After a write of `value` to a read-write register, reading it returns `value`.
///
/// `after` is the pointer as [`UniqueMmioPointer::write`] leaves it.
pub proof fn lemma_read_write_round_trip<'a, T>(
    after: UniqueMmioPointer<'a, ReadWrite<T>>,
    value: T,
)
    requires
        after.value() == ReadWrite(value),
    ensures
        after.value().0 == value,
{
}

/// After a write of `value` to a register that reads without side effects, reading it through
/// the unique pointer, or through the shared pointer that a downgrade makes, returns `value`.
pub proof fn lemma_pure_write_round_trip<'a, T>(
    after: UniqueMmioPointer<'a, ReadPureWrite<T>>,
    value: T,
)
    requires
        after.value() == ReadPureWrite(value),
    ensures
        after.value().0 == value,
        <SharedMmioPointer<'a, ReadPureWrite<T>> as FromSpec<_>>::from_spec(after).value().0
            == value,
{
    SharedMmioPointer::<'a, ReadPureWrite<T>>::lemma_from_unique(after);
}

/// After a write of `value` to a write-only register, the register holds `value`: the
/// unmarked read returns `WriteOnly(value)`.
pub proof fn lemma_write_only_round_trip<'a, T>(
    after: UniqueMmioPointer<'a, WriteOnly<T>>,
    value: T,
)
    requires
        after.value() == WriteOnly(value),
    ensures
        after.value().0 == value,
{
}

} // verus!
