//! The three iterators over an [`Array`]: borrowing, mutably borrowing and
//! owning.

use vstd::prelude::*;

use crate::array::Array;

verus! {

/// Immutable array iterator, created by [`Array::iter`].
///
/// It walks the slots from the front and yields a reference to each written
/// value; it reports exhaustion at the end of the array, or at the first
/// slot that was never written. Exhaustion is permanent: the cursor never
/// moves back.
pub struct Iter<'a, T> {
    arr: &'a Array<T>,
    cur: usize,
}

impl<'a, T> Iter<'a, T> {
    /// The slots of the array being walked.
    pub closed spec fn elems(&self) -> Seq<Option<T>> {
        (*self.arr)@
    }

    /// The position of the cursor: the index of the slot that the next call
    /// yields.
    pub closed spec fn pos(&self) -> int {
        self.cur as int
    }

    pub(crate) fn new(array: &'a Array<T>) -> (it: Self)
        ensures
            it.elems() == array@,
            it.pos() == 0,
    {
        Iter { arr: array, cur: 0 }
    }

    /// Yields a reference to the value in the slot under the cursor and
    /// advances, or reports exhaustion when the cursor stands at the end of
    /// the array or on an unwritten slot.
    pub fn next(&mut self) -> (r: Option<&'a T>)
        ensures
            final(self).elems() == old(self).elems(),
            r is Some <==> old(self).pos() < old(self).elems().len()
                && old(self).elems()[old(self).pos()] is Some,
            r matches Some(v) ==> old(self).elems()[old(self).pos()] == Some(*v)
                && final(self).pos() == old(self).pos() + 1,
            r is None ==> *final(self) == *old(self),
    {
        if self.cur < self.arr.size() {
            let r = self.arr.try_get(self.cur);
            if r.is_some() {
                self.cur = self.cur + 1;
            }
            r
        } else {
            None
        }
    }
}

/// Mutable array iterator, created by [`Array::iter_mut`].
///
/// It borrows the array mutably for its own lifetime and lends out a
/// mutable reference to one written value per step, from the front; each
/// lent reference must be dropped before the next step. It reports
/// exhaustion at the end of the array, or at the first slot that was never
/// written.
///
/// Both fields are exposed so that contracts can speak of the borrowed
/// array, in particular of the value it will hold once the borrow ends.
pub struct IterMut<'a, T> {
    /// The mutably borrowed array being walked.
    pub arr: &'a mut Array<T>,
    /// The cursor: index of the slot that the next call yields.
    pub cur: usize,
}

impl<'a, T> IterMut<'a, T> {
    pub(crate) fn new(array: &'a mut Array<T>) -> (it: Self)
        ensures
            it.cur == 0,
            (*it.arr)@ == (*old(array))@,
            (*final(it.arr))@ == (*final(array))@,
    {
        IterMut { arr: array, cur: 0 }
    }

    /// Lends a mutable reference to the value in the slot under the cursor
    /// and advances, or reports exhaustion when the cursor stands at the
    /// end of the array or on an unwritten slot.
    ///
    /// The first clause keeps the tie to the borrowed array across the
    /// step: the value the array holds once the borrow ends is the same
    /// whether asked of the iterator before or after the call, so writes
    /// made through the lent references stay visible in the array
    /// afterwards.
    pub fn next(&mut self) -> (r: Option<&mut T>)
        ensures
            (*final(final(self).arr))@ == (*final(old(self).arr))@,
            r is Some <==> old(self).cur < (*old(self).arr)@.len()
                && (*old(self).arr)@[old(self).cur as int] is Some,
            r is Some ==> *r.unwrap() == (*old(self).arr)@[old(self).cur as int].unwrap()
                && final(self).cur == old(self).cur + 1
                && (*final(self).arr)@ == (*old(self).arr)@.update(
                old(self).cur as int,
                Some(*final(r.unwrap())),
            ),
            r is None ==> final(self).cur == old(self).cur
                && (*final(self).arr)@ == (*old(self).arr)@,
    {
        if self.cur < self.arr.size() {
            let i = self.cur;
            let r = self.arr.try_get_mut(i);
            if r.is_some() {
                self.cur = i + 1;
            }
            r
        } else {
            None
        }
    }
}

/// Owning array iterator, created by [`Array::into_iter`].
///
/// It owns the array outright and moves one value out of it per step, from
/// the front; what it yields is removed from the array. It reports
/// exhaustion at the end, or at the first slot that was never written.
/// Values still inside when the iterator is dropped are dropped with it.
pub struct IntoIter<T> {
    arr: Array<T>,
}

impl<T> IntoIter<T> {
    /// The slots whose values are still to be yielded, in order.
    pub closed spec fn remaining(&self) -> Seq<Option<T>> {
        self.arr@
    }

    pub(crate) fn new(array: Array<T>) -> (it: Self)
        ensures
            it.remaining() == array@,
    {
        IntoIter { arr: array }
    }

    /// Moves the front value out of the array and yields it, or reports
    /// exhaustion when no slot is left or the front slot was never written.
    pub fn next(&mut self) -> (r: Option<T>)
        ensures
            r is Some <==> old(self).remaining().len() > 0 && old(self).remaining()[0] is Some,
            r matches Some(v) ==> old(self).remaining()[0] == Some(v)
                && final(self).remaining() == old(self).remaining().skip(1),
            r is None ==> *final(self) == *old(self),
    {
        if self.arr.size() > 0 {
            if self.arr.try_get(0).is_some() {
                let v = self.arr.pop_front();
                Some(v)
            } else {
                None
            }
        } else {
            None
        }
    }
}

} // verus!
