//! The ownership and capability rules of MMIO register access, modelled over ordinary memory.
//!
//! A [`UniqueMmioPointer`] is the only handle on its registers for its lifetime; any number of
//! [`SharedMmioPointer`]s may coexist, but never beside a unique one. Projection narrows a pointer
//! to a field or an element and keeps its ownership class and lifetime. The marker types of
//! [`fields`] decide which of `read` and `write` a register offers, and through which pointer.
//!
//! Each pointer holds a Rust borrow of the memory it reaches, so the borrow checker is what keeps
//! a unique pointer unique, and downgrading one to a shared pointer consumes it. Reads and writes
//! are plain accesses through that borrow, which the compiler may merge, split, drop or reorder.
//! So these pointers must not be built over device memory: a reference must never be formed to
//! it. The volatile access layer that real registers need lies outside this library; what the
//! library states is which accesses each pointer and marker allow, and what they do to the
//! memory that stands in for the registers. Pointers can be sent to other threads whenever that
//! memory can.
pub mod fields;
pub mod laws;
mod physical;

pub use physical::PhysicalInstance;

use crate::fields::{ReadOnly, ReadPure, ReadPureWrite, ReadWrite, WriteOnly};
use vstd::prelude::*;

verus! {

/// Relies on `core::ptr::from_ref` and the pointer's `addr`: the address of the referenced
/// registers, which is never null since it comes from a reference.
#[verifier::external_body]
fn address_of<T: ?Sized>(r: &T) -> (a: usize)
    ensures
        a != 0,
{
    core::ptr::from_ref(r).addr()
}

/// Relies on `core::ptr::eq`: whether two references reach the same registers, by address and,
/// for slices, length. Nothing is stated of it, as no spec function can name an address.
#[verifier::external_body]
fn same_registers<T: ?Sized>(a: &T, b: &T) -> (r: bool) {
    core::ptr::eq(a, b)
}

/// A unique owned pointer to memory that stands in for a block of MMIO registers.
///
/// It is valid and unique: nothing else may access the memory that it covers for the lifetime
/// `'a`. Narrower pointers made from it borrow it, so they cannot outlive it or be
/// used beside it.
pub struct UniqueMmioPointer<'a, T: ?Sized> {
    /// The borrow of the registers. It is public so that contracts can follow what the
    /// registers hold once the pointer is done; going through it bypasses the markers, as
    /// `read_unsafe` and `write_unsafe` do.
    pub regs: &'a mut T,
}

impl<'a, T: ?Sized> UniqueMmioPointer<'a, T> {
    /// The registers that this pointer reaches, as they are now.
    pub open spec fn storage(&self) -> &T {
        &*self.regs
    }
}

impl<'a, T> UniqueMmioPointer<'a, T> {
    /// The current contents of the registers.
    pub open spec fn value(&self) -> T {
        *self.storage()
    }
}

impl<'a, T> UniqueMmioPointer<'a, [T]> {
    /// The current contents of the registers, element by element.
    pub open spec fn elements(&self) -> Seq<T> {
        self.storage()@
    }
}

impl<'a, T: ?Sized> UniqueMmioPointer<'a, T> {
    /// Returns the address of the registers.
    pub fn ptr(&self) -> (r: usize)
        ensures
            r != 0,
    {
        address_of(&*self.regs)
    }

    /// Returns the address of the registers, for access that needs exclusivity.
    pub fn ptr_mut(&mut self) -> (r: usize)
        ensures
            &*final(final(self).regs) == &*final(old(self).regs),
            r != 0,
            final(self).storage() == old(self).storage(),
    {
        address_of(&*self.regs)
    }

    /// Returns the address of the registers, which is never zero.
    pub fn ptr_nonnull(&mut self) -> (r: usize)
        ensures
            &*final(final(self).regs) == &*final(old(self).regs),
            r != 0,
            final(self).storage() == old(self).storage(),
    {
        address_of(&*self.regs)
    }

    /// Borrows this pointer as a shared one, which reads through the same registers.
    pub fn as_shared(&self) -> (s: SharedMmioPointer<'_, T>)
        ensures
            s.storage() == self.storage(),
    {
        SharedMmioPointer { regs: &*self.regs }
    }
}

impl<'a, T> UniqueMmioPointer<'a, T> {
    /// Creates a unique pointer to ordinary memory that stands in for registers; nothing else
    /// may access it for `'a`. It must not be device memory (see the crate's documentation).
    pub fn new(regs: &'a mut T) -> (p: Self)
        ensures
            p.value() == *old(regs),
            *final(p.regs) == *final(regs),
    {
        UniqueMmioPointer { regs }
    }

    /// Narrows this pointer to a part of the registers, such as a field, that `select` picks.
    ///
    /// The child borrows this pointer, so it stays unique, and has the same ownership class.
    pub fn child<'b, U, F>(&'b mut self, select: F) -> (c: UniqueMmioPointer<'b, U>)
        where
            F: FnOnce(&'b mut T) -> &'b mut U,
        requires
            forall|r: &'b mut T| select.requires((r,)),
        ensures
            &*final(final(self).regs) == &*final(old(self).regs),
            exists|r: &'b mut T, o: &'b mut U|
                {
                    &&& *r == old(self).value()
                    &&& *final(r) == *final(self).regs
                    &&& select.ensures((r,), o)
                    &&& c.regs == o
                },
    {
        UniqueMmioPointer { regs: select(&mut *self.regs) }
    }
}

impl<'a, T: Copy> UniqueMmioPointer<'a, T> {
    /// Reads the whole `T`, whatever marker it carries.
    ///
    /// This bypasses the markers of [`fields`]: the caller answers for the read being sound,
    /// including any side effects it has.
    pub fn read_unsafe(&mut self) -> (r: T)
        ensures
            &*final(final(self).regs) == &*final(old(self).regs),
            r == old(self).value(),
            final(self).value() == old(self).value(),
    {
        *self.regs
    }

    /// Writes the whole `T`, whatever marker it carries.
    ///
    /// This bypasses the markers of [`fields`]: the caller answers for the write being sound.
    pub fn write_unsafe(&mut self, value: T)
        ensures
            &*final(final(self).regs) == &*final(old(self).regs),
            final(self).value() == value,
    {
        *self.regs = value;
    }
}

impl<'a, T: Copy> UniqueMmioPointer<'a, ReadWrite<T>> {
    /// Reads the whole `T`.
    pub fn read(&mut self) -> (r: T)
        ensures
            &*final(final(self).regs) == &*final(old(self).regs),
            r == old(self).value().0,
            final(self).value() == old(self).value(),
    {
        self.regs.0
    }

    /// Writes the whole `T`.
    pub fn write(&mut self, value: T)
        ensures
            &*final(final(self).regs) == &*final(old(self).regs),
            final(self).value() == ReadWrite(value),
    {
        self.regs.0 = value;
    }
}

impl<'a, T: Copy> UniqueMmioPointer<'a, ReadPureWrite<T>> {
    /// Reads the whole `T`; the read has no side effects.
    pub fn read(&self) -> (r: T)
        ensures
            r == self.value().0,
    {
        self.regs.0
    }

    /// Writes the whole `T`.
    pub fn write(&mut self, value: T)
        ensures
            &*final(final(self).regs) == &*final(old(self).regs),
            final(self).value() == ReadPureWrite(value),
    {
        self.regs.0 = value;
    }
}

impl<'a, T: Copy> UniqueMmioPointer<'a, ReadOnly<T>> {
    /// Reads the whole `T`.
    pub fn read(&mut self) -> (r: T)
        ensures
            &*final(final(self).regs) == &*final(old(self).regs),
            r == old(self).value().0,
            final(self).value() == old(self).value(),
    {
        self.regs.0
    }
}

impl<'a, T: Copy> UniqueMmioPointer<'a, ReadPure<T>> {
    /// Reads the whole `T`; the read has no side effects.
    pub fn read(&self) -> (r: T)
        ensures
            r == self.value().0,
    {
        self.regs.0
    }
}

impl<'a, T: Copy> UniqueMmioPointer<'a, WriteOnly<T>> {
    /// Writes the whole `T`.
    pub fn write(&mut self, value: T)
        ensures
            &*final(final(self).regs) == &*final(old(self).regs),
            final(self).value() == WriteOnly(value),
    {
        self.regs.0 = value;
    }
}

impl<'a, T> UniqueMmioPointer<'a, [T]> {
    /// Returns a pointer to the element at `index`, or `None` if `index` is out of bounds.
    pub fn get(&mut self, index: usize) -> (r: Option<UniqueMmioPointer<'_, T>>)
        ensures
            &*final(final(self).regs) == &*final(old(self).regs),
            r is Some <==> index < old(self).elements().len(),
            r is Some ==> r->0.value() == old(self).elements()[index as int],
            r is Some ==> (*final(self).regs)@ == old(self).elements().update(
                index as int,
                *final(r->0.regs),
            ),
            r is None ==> final(self).storage() == old(self).storage(),
    {
        if index >= self.regs.len() {
            return None;
        }
        let (_, tail) = self.regs.split_at_mut(index);
        match tail.first_mut() {
            Some(element) => Some(UniqueMmioPointer { regs: element }),
            None => None,
        }
    }

    /// Returns the number of elements.
    pub fn len(&self) -> (r: usize)
        ensures
            r == self.elements().len(),
    {
        self.regs.len()
    }

    /// Returns whether there are no elements.
    pub fn is_empty(&self) -> (r: bool)
        ensures
            r <==> self.elements().len() == 0,
    {
        self.regs.len() == 0
    }
}

impl<'a, T, const LEN: usize> UniqueMmioPointer<'a, [T; LEN]> {
    /// Splits this pointer into one unique pointer per element, in order.
    ///
    /// The parts borrow this pointer and cover disjoint elements, so each stays unique.
    pub fn split(&mut self) -> (parts: Vec<UniqueMmioPointer<'_, T>>)
        ensures
            &*final(final(self).regs) == &*final(old(self).regs),
            parts@.len() == LEN,
            forall|i: int| 0 <= i < LEN ==> #[trigger] parts@[i].value() == old(self).value()[i],
            forall|i: int|
                0 <= i < LEN ==> (*final(self).regs)@[i] == *final(#[trigger] parts@[i].regs),
    {
        let ghost all: Seq<T> = (*final(self).regs)@;
        let mut rest: &mut [T] = &mut *self.regs;
        let mut parts: Vec<UniqueMmioPointer<'_, T>> = Vec::new();
        let mut i: usize = 0;
        while i < LEN
            invariant
                i <= LEN,
                rest@ == old(self).value()@.subrange(i as int, LEN as int),
                parts@.len() == i,
                forall|j: int|
                    0 <= j < i ==> #[trigger] parts@[j].value() == old(self).value()[j],
                all.len() == LEN,
                final(rest)@ == all.subrange(i as int, LEN as int),
                forall|j: int| 0 <= j < i ==> all[j] == *final(#[trigger] parts@[j].regs),
            decreases LEN - i,
        {
            let ghost fr = final(rest)@;
            let (head, tail) = rest.split_at_mut(1);
            let ghost fh = final(head)@;
            match head.first_mut() {
                Some(element) => {
                    assert(fh == seq![*final(element)]);
                    parts.push(UniqueMmioPointer { regs: element });
                    assert(all[i as int] == fr[0]);
                    assert(fr.subrange(1, fr.len() as int) =~= final(tail)@);
                    assert(all.subrange(i + 1, LEN as int) =~= fr.subrange(1, fr.len() as int));
                },
                None => {},
            }
            rest = tail;
            i = i + 1;
        }
        parts
    }

    /// Returns a pointer to the element at `index`, or `None` if `index` is out of bounds.
    pub fn get(&mut self, index: usize) -> (r: Option<UniqueMmioPointer<'_, T>>)
        ensures
            &*final(final(self).regs) == &*final(old(self).regs),
            r is Some <==> index < LEN,
            r is Some ==> r->0.value() == old(self).value()[index as int],
            r is Some ==> (*final(self).regs)@ == old(self).value()@.update(
                index as int,
                *final(r->0.regs),
            ),
            r is None ==> final(self).storage() == old(self).storage(),
    {
        if index >= LEN {
            return None;
        }
        let elements: &mut [T] = &mut *self.regs;
        let (_, tail) = elements.split_at_mut(index);
        match tail.first_mut() {
            Some(element) => Some(UniqueMmioPointer { regs: element }),
            None => None,
        }
    }
}

impl<'a, T: ?Sized> PartialEq for UniqueMmioPointer<'a, T> {
    /// Two pointers are equal when they reach the same registers, whatever those hold.
    fn eq(&self, other: &Self) -> (r: bool) {
        same_registers(&*self.regs, &*other.regs)
    }
}

impl<'a, T: ?Sized> vstd::std_specs::cmp::PartialEqSpecImpl for UniqueMmioPointer<'a, T> {
    /// Equality goes by address, which no spec function names, so `==` promises nothing here.
    open spec fn obeys_eq_spec() -> bool {
        false
    }

    /// Only a necessary condition: pointers to the same registers see the same contents.
    closed spec fn eq_spec(&self, other: &Self) -> bool {
        self.storage() == other.storage()
    }
}

impl<'a, T: ?Sized> Eq for UniqueMmioPointer<'a, T> {

}

impl<'a, T: ?Sized> From<&'a mut T> for UniqueMmioPointer<'a, T> {
    fn from(regs: &'a mut T) -> (p: Self)
        ensures
            p.storage() == &*old(regs),
            &*final(p.regs) == &*final(regs),
    {
        UniqueMmioPointer { regs }
    }
}

impl<'a, T: ?Sized> vstd::std_specs::convert::FromSpecImpl<&'a mut T> for UniqueMmioPointer<'a, T> {
    open spec fn obeys_from_spec() -> bool {
        false
    }

    closed spec fn from_spec(regs: &'a mut T) -> Self {
        UniqueMmioPointer { regs }
    }
}

/// A shared pointer to memory that stands in for a block of MMIO registers.
///
/// It is valid for `'a`, but unlike [`UniqueMmioPointer`] it may not be the only one.
pub struct SharedMmioPointer<'a, T: ?Sized> {
    regs: &'a T,
}

impl<'a, T: ?Sized> SharedMmioPointer<'a, T> {
    /// The registers that this pointer reaches.
    pub closed spec fn storage(&self) -> &'a T {
        self.regs
    }
}

impl<'a, T> SharedMmioPointer<'a, T> {
    /// The current contents of the registers.
    pub open spec fn value(&self) -> T {
        *self.storage()
    }
}

impl<'a, T> SharedMmioPointer<'a, [T]> {
    /// The current contents of the registers, element by element.
    pub open spec fn elements(&self) -> Seq<T> {
        self.storage()@
    }
}

impl<'a, T: ?Sized> SharedMmioPointer<'a, T> {
    /// Returns the address of the registers.
    pub fn ptr(&self) -> (r: usize)
        ensures
            r != 0,
    {
        address_of(self.regs)
    }
}

impl<'a, T> SharedMmioPointer<'a, T> {
    /// Creates a shared pointer to ordinary memory, which stands in for device registers.
    pub fn new(regs: &'a T) -> (p: Self)
        ensures
            p.value() == *regs,
    {
        SharedMmioPointer { regs }
    }

    /// Narrows this pointer to a part of the registers, such as a field, that `select` picks.
    ///
    /// The child has the same lifetime and ownership class as this pointer.
    pub fn child<U, F>(&self, select: F) -> (c: SharedMmioPointer<'a, U>)
        where
            F: FnOnce(&'a T) -> &'a U,
        requires
            select.requires((self.storage(),)),
        ensures
            exists|o: &'a U| select.ensures((self.storage(),), o) && c.value() == *o,
    {
        SharedMmioPointer { regs: select(self.regs) }
    }
}

impl<'a, T: Copy> SharedMmioPointer<'a, T> {
    /// Reads the whole `T`, whatever marker it carries.
    ///
    /// This bypasses the markers of [`fields`]: the caller answers for the read being sound,
    /// including any side effects it has.
    pub fn read_unsafe(&self) -> (r: T)
        ensures
            r == self.value(),
    {
        *self.regs
    }
}

impl<'a, T: Copy> SharedMmioPointer<'a, ReadPure<T>> {
    /// Reads the whole `T`; the read has no side effects, so a shared pointer may perform it.
    pub fn read(&self) -> (r: T)
        ensures
            r == self.value().0,
    {
        self.regs.0
    }
}

impl<'a, T: Copy> SharedMmioPointer<'a, ReadPureWrite<T>> {
    /// Reads the whole `T`; the read has no side effects, so a shared pointer may perform it.
    pub fn read(&self) -> (r: T)
        ensures
            r == self.value().0,
    {
        self.regs.0
    }
}

impl<'a, T> SharedMmioPointer<'a, [T]> {
    /// Returns a pointer to the element at `index`, or `None` if `index` is out of bounds.
    pub fn get(&self, index: usize) -> (r: Option<SharedMmioPointer<'a, T>>)
        ensures
            r is Some <==> index < self.elements().len(),
            r is Some ==> r->0.value() == self.elements()[index as int],
    {
        if index >= self.regs.len() {
            return None;
        }
        Some(SharedMmioPointer { regs: &self.regs[index] })
    }

    /// Returns the number of elements.
    pub fn len(&self) -> (r: usize)
        ensures
            r == self.elements().len(),
    {
        self.regs.len()
    }

    /// Returns whether there are no elements.
    pub fn is_empty(&self) -> (r: bool)
        ensures
            r <==> self.elements().len() == 0,
    {
        self.regs.len() == 0
    }
}

impl<'a, T, const LEN: usize> SharedMmioPointer<'a, [T; LEN]> {
    /// Splits this pointer into one pointer per element, in order.
    pub fn split(&self) -> (parts: Vec<SharedMmioPointer<'a, T>>)
        ensures
            parts@.len() == LEN,
            forall|i: int| 0 <= i < LEN ==> #[trigger] parts@[i].value() == self.value()[i],
    {
        let mut parts: Vec<SharedMmioPointer<'a, T>> = Vec::new();
        let mut i: usize = 0;
        while i < LEN
            invariant
                i <= LEN,
                parts@.len() == i,
                forall|j: int| 0 <= j < i ==> #[trigger] parts@[j].value() == self.value()[j],
            decreases LEN - i,
        {
            parts.push(SharedMmioPointer { regs: &self.regs[i] });
            i = i + 1;
        }
        parts
    }

    /// Returns a pointer to the element at `index`, or `None` if `index` is out of bounds.
    pub fn get(&self, index: usize) -> (r: Option<SharedMmioPointer<'a, T>>)
        ensures
            r is Some <==> index < LEN,
            r is Some ==> r->0.value() == self.value()[index as int],
    {
        if index >= LEN {
            return None;
        }
        Some(SharedMmioPointer { regs: &self.regs[index] })
    }
}

impl<'a, T: ?Sized> Clone for SharedMmioPointer<'a, T> {
    fn clone(&self) -> (r: Self)
        ensures
            r.storage() == self.storage(),
    {
        SharedMmioPointer { regs: self.regs }
    }
}

impl<'a, T: ?Sized> PartialEq for SharedMmioPointer<'a, T> {
    /// Two pointers are equal when they reach the same registers, whatever those hold.
    fn eq(&self, other: &Self) -> (r: bool) {
        same_registers(self.regs, other.regs)
    }
}

impl<'a, T: ?Sized> vstd::std_specs::cmp::PartialEqSpecImpl for SharedMmioPointer<'a, T> {
    /// Equality goes by address, which no spec function names, so `==` promises nothing here.
    open spec fn obeys_eq_spec() -> bool {
        false
    }

    /// Only a necessary condition: pointers to the same registers see the same contents.
    closed spec fn eq_spec(&self, other: &Self) -> bool {
        self.storage() == other.storage()
    }
}

impl<'a, T: ?Sized> Eq for SharedMmioPointer<'a, T> {

}

impl<'a, T: ?Sized> From<&'a T> for SharedMmioPointer<'a, T> {
    fn from(regs: &'a T) -> (p: Self) {
        SharedMmioPointer { regs }
    }
}

impl<'a, T: ?Sized> vstd::std_specs::convert::FromSpecImpl<&'a T> for SharedMmioPointer<'a, T> {
    open spec fn obeys_from_spec() -> bool {
        true
    }

    closed spec fn from_spec(regs: &'a T) -> Self {
        SharedMmioPointer { regs }
    }
}

impl<'a, T: ?Sized> From<UniqueMmioPointer<'a, T>> for SharedMmioPointer<'a, T> {
    /// Downgrades a unique pointer; it is consumed, so it can no longer be used.
    fn from(unique: UniqueMmioPointer<'a, T>) -> (p: Self) {
        SharedMmioPointer { regs: unique.regs }
    }
}

impl<'a, T: ?Sized> vstd::std_specs::convert::FromSpecImpl<UniqueMmioPointer<'a, T>> for SharedMmioPointer<'a, T> {
    open spec fn obeys_from_spec() -> bool {
        true
    }

    closed spec fn from_spec(unique: UniqueMmioPointer<'a, T>) -> Self {
        SharedMmioPointer { regs: &*unique.regs }
    }
}

impl<'a, T: ?Sized> SharedMmioPointer<'a, T> {
    /// A pointer made by downgrading a unique one reaches the same registers, as they were.
    pub proof fn lemma_from_unique(unique: UniqueMmioPointer<'a, T>)
        ensures
            <Self as vstd::std_specs::convert::FromSpec<UniqueMmioPointer<'a, T>>>::from_spec(
                unique,
            ).storage() == unique.storage(),
    {
    }

    /// A pointer made from a reference reaches exactly the referenced registers.
    pub proof fn lemma_from_ref(regs: &'a T)
        ensures
            <Self as vstd::std_specs::convert::FromSpec<&'a T>>::from_spec(regs).storage() == regs,
    {
    }
}

} // verus!
