use vstd::arithmetic::div_mod::lemma_fundamental_div_mod;
use vstd::arithmetic::div_mod::lemma_mod_division_less_than_divisor;
use vstd::prelude::*;

use crate::array_iters::IntoIter;
use crate::array_iters::Iter;
use crate::array_iters::IterMut;
use crate::error::ArrayError;

verus! {

/// A contiguous, fixed-length block of `T` values whose element count is
/// chosen at run time and never changes afterwards.
///
/// Every slot is either written (it holds a value) or still unwritten. The
/// array records which, so that a slot that was never written reads as
/// absent through the checked accessors and is ruled out by precondition at
/// the unchecked ones, instead of handing out indeterminate memory.
///
/// The view of an array is the sequence of its slots: `self@[i]` is
/// `Some(v)` when slot `i` holds `v`, and `None` when slot `i` was never
/// written.
pub struct Array<T> {
    pub(crate) data: Vec<Option<T>>,
}

impl<T> View for Array<T> {
    type V = Seq<Option<T>>;

    closed spec fn view(&self) -> Seq<Option<T>> {
        self.data@
    }
}

/// True when a block of `size` elements of `T` can be laid out in memory:
/// its total byte count must not exceed `isize::MAX`, the largest span a
/// single allocation may cover.
pub open spec fn fits_layout<T>(size: nat) -> bool {
    size * vstd::layout::size_of::<T>() <= isize::MAX as nat
}

impl<T> Array<T> {
    /// True when every slot of the array has been written.
    pub open spec fn is_init(&self) -> bool {
        forall|i: int| 0 <= i < self@.len() ==> self@[i] is Some
    }

    /// Creates an array with the given number of slots, all unwritten, or
    /// returns an [`ArrayError`] when no layout of `size` contiguous `T`
    /// elements exists (its byte count would overflow `isize::MAX`).
    pub fn new(size: usize) -> (r: Result<Array<T>, ArrayError>)
        ensures
            r is Ok <==> fits_layout::<T>(size as nat),
            r matches Ok(arr) ==> arr@ == Seq::new(size as nat, |i: int| None::<T>),
    {
        let elem: usize = core::mem::size_of::<T>();
        if elem > 0 && size > isize::MAX as usize / elem {
            proof {
                let m = isize::MAX as int;
                let e = elem as int;
                let q = m / e;
                let r = m % e;
                lemma_fundamental_div_mod(m, e);
                lemma_mod_division_less_than_divisor(m, e);
                assert(size as int * e > m) by (nonlinear_arith)
                    requires
                        e > 0,
                        m == e * q + r,
                        0 <= r < e,
                        size as int >= q + 1,
                {}
            }
            return Err(ArrayError("size overflows the maximum array layout".to_string()));
        }
        proof {
            if elem > 0 {
                let m = isize::MAX as int;
                let e = elem as int;
                let q = m / e;
                let r = m % e;
                lemma_fundamental_div_mod(m, e);
                lemma_mod_division_less_than_divisor(m, e);
                assert(size as int * e <= m) by (nonlinear_arith)
                    requires
                        e > 0,
                        m == e * q + r,
                        0 <= r,
                        size as int <= q,
                {}
            } else {
                assert(size as int * elem as int == 0) by (nonlinear_arith)
                    requires
                        elem as int == 0,
                {}
            }
            assert(size as nat * vstd::layout::size_of::<T>() <= isize::MAX as nat);
        }
        let mut data: Vec<Option<T>> = Vec::new();
        let mut i: usize = 0;
        while i < size
            invariant
                i <= size,
                data@.len() == i as int,
                forall|j: int| 0 <= j < i as int ==> data@[j] is None,
            decreases size - i,
        {
            data.push(None);
            i = i + 1;
        }
        proof {
            assert(data@ =~= Seq::new(size as nat, |i: int| None::<T>));
        }
        Ok(Array { data })
    }

    /// The fixed number of slots of the array.
    pub fn size(&self) -> (n: usize)
        ensures
            n == self@.len(),
    {
        self.data.len()
    }

    /// Checked read: a reference to the value in slot `index`, or `None`
    /// when `index` is out of bounds or the slot was never written.
    pub fn try_get(&self, index: usize) -> (r: Option<&T>)
        ensures
            r is Some <==> index < self@.len() && self@[index as int] is Some,
            r matches Some(v) ==> self@[index as int] == Some(*v),
    {
        if index < self.data.len() {
            self.data[index].as_ref()
        } else {
            None
        }
    }

    /// Unchecked read: a reference to the value in slot `index`. The caller
    /// discharges the bounds and initialization obligations up front.
    pub fn get(&self, index: usize) -> (r: &T)
        requires
            index < self@.len(),
            self@[index as int] is Some,
        ensures
            self@[index as int] == Some(*r),
    {
        self.data[index].as_ref().unwrap()
    }

    /// Unchecked write: stores `value` in slot `index`, which may or may not
    /// have been written before; a previously held value is dropped. The
    /// caller discharges the bounds obligation up front.
    pub fn set(&mut self, index: usize, value: T)
        requires
            index < old(self)@.len(),
        ensures
            final(self)@ == old(self)@.update(index as int, Some(value)),
    {
        self.data.set(index, Some(value));
    }

    /// Checked mutable access: a mutable reference to the value in slot
    /// `index`, or `None` when `index` is out of bounds or the slot was
    /// never written (the array is then left unchanged).
    pub fn try_get_mut(&mut self, index: usize) -> (r: Option<&mut T>)
        ensures
            r is Some <==> index < old(self)@.len() && old(self)@[index as int] is Some,
            r is Some ==> *r.unwrap() == old(self)@[index as int].unwrap()
                && final(self)@ == old(self)@.update(index as int, Some(*final(r.unwrap()))),
            r is None ==> final(self)@ == old(self)@,
    {
        if index < self.data.len() {
            if self.data[index].is_some() {
                self.data[index].as_mut()
            } else {
                None
            }
        } else {
            None
        }
    }

    /// Unchecked mutable access: a mutable reference to the value in slot
    /// `index`. The caller discharges the bounds and initialization
    /// obligations up front.
    pub fn get_mut(&mut self, index: usize) -> (r: &mut T)
        requires
            index < old(self)@.len(),
            old(self)@[index as int] is Some,
        ensures
            *r == old(self)@[index as int].unwrap(),
            final(self)@ == old(self)@.update(index as int, Some(*final(r))),
    {
        self.data[index].as_mut().unwrap()
    }

    /// Checked write: stores `value` in slot `index` and returns `Some(())`,
    /// or returns `None` and leaves the array unchanged when `index` is out
    /// of bounds.
    pub fn try_set(&mut self, index: usize, value: T) -> (r: Option<()>)
        ensures
            r is Some <==> index < old(self)@.len(),
            index < old(self)@.len() ==> final(self)@ == old(self)@.update(
                index as int,
                Some(value),
            ),
            index >= old(self)@.len() ==> final(self)@ == old(self)@,
    {
        if index < self.data.len() {
            self.data.set(index, Some(value));
            Some(())
        } else {
            None
        }
    }

    /// Indexing: a reference to the value in slot `index`. In-bounds access
    /// to a written slot is demanded as a precondition, so that the fatal
    /// out-of-bounds stop of an unchecked run-time indexing never happens in
    /// verified code.
    pub fn index(&self, index: usize) -> (r: &T)
        requires
            index < self@.len(),
            self@[index as int] is Some,
        ensures
            self@[index as int] == Some(*r),
    {
        self.try_get(index).unwrap()
    }

    /// Mutable indexing: a mutable reference to the value in slot `index`,
    /// under the same preconditions as [`Array::index`].
    pub fn index_mut(&mut self, index: usize) -> (r: &mut T)
        requires
            index < old(self)@.len(),
            old(self)@[index as int] is Some,
        ensures
            *r == old(self)@[index as int].unwrap(),
            final(self)@ == old(self)@.update(index as int, Some(*final(r))),
    {
        self.try_get_mut(index).unwrap()
    }

    /// Borrowed view of the whole block: a slice holding every slot in
    /// order. It stands in for the raw base address of a manual allocation;
    /// reads go through the slots exactly as [`Array::try_get`] does.
    pub fn as_ptr(&self) -> (r: &[Option<T>])
        ensures
            r@ == self@,
    {
        self.data.as_slice()
    }

    /// Mutable borrowed view of the whole block: a slice through which every
    /// slot can be rewritten in place.
    pub fn as_mut_ptr(&mut self) -> (r: &mut [Option<T>])
        ensures
            r@ == old(self)@,
            final(r)@ == final(self)@,
    {
        self.data.as_mut_slice()
    }

    /// Removes the front slot and returns its value; the remaining slots
    /// move up by one. Used by the owning iterator to yield values.
    pub(crate) fn pop_front(&mut self) -> (v: T)
        requires
            old(self)@.len() > 0,
            old(self)@[0] is Some,
        ensures
            old(self)@[0] == Some(v),
            final(self)@ == old(self)@.skip(1),
    {
        let opt = self.data.remove(0);
        proof {
            assert(self@ =~= old(self)@.skip(1));
        }
        opt.unwrap()
    }

    /// Owning iterator: consumes the array and yields its values one by
    /// one, from the front.
    pub fn into_iter(self) -> (it: IntoIter<T>)
        ensures
            it.remaining() == self@,
    {
        IntoIter::new(self)
    }

    /// Borrowing iterator over all slots, from the front.
    pub fn iter<'a>(&'a self) -> (it: Iter<'a, T>)
        ensures
            it.elems() == self@,
            it.pos() == 0,
    {
        Iter::new(self)
    }

    /// Mutably borrowing iterator over all slots, from the front. Until the
    /// iterator is dropped the array is reachable only through it; the last
    /// two clauses relate the array after the borrow to the walk's writes.
    pub fn iter_mut<'a>(&'a mut self) -> (it: IterMut<'a, T>)
        ensures
            it.cur == 0,
            (*it.arr)@ == old(self)@,
            (*final(it.arr))@ == final(self)@,
    {
        IterMut::new(self)
    }

    /// Converts a vector into an array of the same length: every element
    /// moves into its slot, in order, and every slot ends up written.
    pub fn from(vec: Vec<T>) -> (r: Array<T>)
        ensures
            r@.len() == vec@.len(),
            forall|i: int| 0 <= i < vec@.len() ==> r@[i] == Some(vec@[i]),
    {
        let mut vec = vec;
        let ghost orig = vec@;
        let mut data: Vec<Option<T>> = Vec::new();
        while vec.len() > 0
            invariant
                data@.len() + vec@.len() == orig.len(),
                forall|j: int| 0 <= j < data@.len() ==> data@[j] == Some(orig[j]),
                vec@ == orig.subrange(data@.len() as int, orig.len() as int),
            decreases vec@.len(),
        {
            let v = vec.remove(0);
            data.push(Some(v));
            proof {
                assert(vec@ =~= orig.subrange(data@.len() as int, orig.len() as int));
            }
        }
        Array { data }
    }

    /// Consumes the array and moves its values into a vector of the same
    /// length, in order. Every slot must have been written.
    pub fn into_vec(self) -> (r: Vec<T>)
        requires
            self.is_init(),
        ensures
            r@.len() == self@.len(),
            forall|i: int| 0 <= i < self@.len() ==> self@[i] == Some(r@[i]),
    {
        let Array { mut data } = self;
        let ghost orig = data@;
        let mut out: Vec<T> = Vec::new();
        while data.len() > 0
            invariant
                out@.len() + data@.len() == orig.len(),
                forall|j: int| 0 <= j < orig.len() ==> orig[j] is Some,
                forall|j: int| 0 <= j < out@.len() ==> orig[j] == Some(out@[j]),
                data@ == orig.subrange(out@.len() as int, orig.len() as int),
            decreases data@.len(),
        {
            let v = data.remove(0);
            out.push(v.unwrap());
            proof {
                assert(data@ =~= orig.subrange(out@.len() as int, orig.len() as int));
            }
        }
        out
    }

    /// Allocates an array of exactly `n` slots and fills them, in order,
    /// with up to `n` values pulled from the front of `items`. When `items`
    /// runs out early the trailing slots stay unwritten; they read as absent
    /// through the checked accessors.
    ///
    /// The source is a vector standing for any sequence of items: a caller
    /// holding a general iterator collects it (converting its items to `T`
    /// on the way) and hands the vector over; what the call leaves in
    /// `items` is the unconsumed rest of that sequence.
    pub fn take_from_iter(items: &mut Vec<T>, n: usize) -> (r: Array<T>)
        ensures
            r@.len() == n as int,
            forall|i: int| 0 <= i < n && i < old(items)@.len() ==> r@[i] == Some(old(items)@[i]),
            forall|i: int| old(items)@.len() <= i < n ==> r@[i] is None,
            final(items)@ == if n <= old(items)@.len() {
                old(items)@.subrange(n as int, old(items)@.len() as int)
            } else {
                Seq::<T>::empty()
            },
    {
        let mut data: Vec<Option<T>> = Vec::new();
        let mut i: usize = 0;
        while i < n
            invariant
                i <= n,
                data@.len() == i as int,
                forall|j: int| 0 <= j < i && j < old(items)@.len() ==> data@[j] == Some(
                    old(items)@[j],
                ),
                forall|j: int| old(items)@.len() <= j < i ==> data@[j] is None,
                items@ == if i <= old(items)@.len() {
                    old(items)@.subrange(i as int, old(items)@.len() as int)
                } else {
                    Seq::<T>::empty()
                },
            decreases n - i,
        {
            if items.len() > 0 {
                let v = items.remove(0);
                data.push(Some(v));
                proof {
                    assert(items@ =~= old(items)@.subrange(
                        i as int + 1,
                        old(items)@.len() as int,
                    ));
                }
            } else {
                data.push(None);
                proof {
                    assert(items@ =~= Seq::<T>::empty());
                }
            }
            i = i + 1;
        }
        Array { data }
    }
}

/// A freshly created array reports the size it was asked for: the slot
/// sequence that [`Array::new`] establishes for count `n` has length
/// exactly `n`, which is what [`Array::size`] returns.
pub proof fn lemma_new_size<T>(n: nat)
    ensures
        Seq::new(n, |i: int| None::<T>).len() == n,
{
}

/// Writing a slot and reading it back gives the written value: in the slot
/// sequence that [`Array::set`] (or a successful [`Array::try_set`])
/// establishes, slot `i` holds `Some(v)` — which is what [`Array::get`],
/// [`Array::index`] and [`Array::try_get`] then return for `i`. The length
/// is unchanged by the write.
pub proof fn lemma_set_then_get<T>(s: Seq<Option<T>>, i: int, v: T)
    requires
        0 <= i < s.len(),
    ensures
        s.update(i, Some(v))[i] == Some(v),
        s.update(i, Some(v)).len() == s.len(),
{
}

/// A write touches only its own slot: after [`Array::set`] on slot `i`,
/// every other slot holds exactly what it held before. Together with
/// ownership — a deep copy is a separate value, so a write reaches only the
/// array it was applied to — this keeps an array and its copy independent.
pub proof fn lemma_set_is_local<T>(s: Seq<Option<T>>, i: int, v: T, j: int)
    requires
        0 <= i < s.len(),
        0 <= j < s.len(),
        j != i,
    ensures
        s.update(i, Some(v))[j] == s[j],
{
}

/// Round trip: converting a vector into an array and the array back into a
/// vector yields the original contents, element for element and in order.
/// Here `a` is the slot sequence [`Array::from`] establishes for input
/// contents `v`, and `w` is what [`Array::into_vec`] returns for `a`; the
/// two contracts force `w` and `v` to coincide.
pub proof fn lemma_round_trip<T>(v: Seq<T>, a: Seq<Option<T>>, w: Seq<T>)
    requires
        a.len() == v.len(),
        forall|i: int| 0 <= i < v.len() ==> a[i] == Some(v[i]),
        w.len() == a.len(),
        forall|i: int| 0 <= i < a.len() ==> a[i] == Some(w[i]),
    ensures
        w == v,
{
    assert forall|i: int| 0 <= i < v.len() implies w[i] == v[i] by {
        assert(a[i] == Some(v[i]));
        assert(a[i] == Some(w[i]));
    }
    assert(w =~= v);
}

/// True when slot `b` holds a clone of slot `a`: both are unwritten, or
/// both are written and `b`'s value could be the result of cloning `a`'s.
pub open spec fn slot_cloned<T: Clone>(a: Option<T>, b: Option<T>) -> bool {
    match (a, b) {
        (Option::None, Option::None) => true,
        (Option::Some(x), Option::Some(y)) => cloned(x, y),
        _ => false,
    }
}

impl<T: Clone> Clone for Array<T> {
    /// Deep copy: allocates a new block of the same size and duplicates
    /// every written value by invoking `T`'s own clone; unwritten slots stay
    /// unwritten. The copy owns its block, so writing to one array never
    /// changes the other.
    fn clone(&self) -> (r: Self)
        ensures
            r@.len() == self@.len(),
            forall|i: int| 0 <= i < self@.len() ==> slot_cloned(self@[i], r@[i]),
    {
        let data = self.data.clone();
        proof {
            assert forall|i: int| 0 <= i < self@.len() implies slot_cloned(self@[i], data@[i]) by {
                assert(cloned::<Option<T>>(self.data@[i], data@[i]));
            }
        }
        Array { data }
    }
}

} // verus!
