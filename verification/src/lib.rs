//! A fixed-length, heap-allocated array whose element count is chosen at run
//! time rather than at compile time.
//!
//! The central type is [`Array`], a block of `size` slots that never grows or
//! shrinks after construction. Each slot is either written or still unwritten;
//! the array tracks which, so that the unchecked accessors can demand a
//! written slot as a precondition instead of leaving the read undefined.
//!
//! Access comes in two tiers:
//! * a checked tier ([`Array::try_get`], [`Array::try_get_mut`],
//!   [`Array::try_set`]) that reports absence instead of failing, and
//! * an unchecked tier ([`Array::get`], [`Array::get_mut`], [`Array::set`],
//!   [`Array::index`], [`Array::index_mut`]) whose bounds obligations are
//!   stated as preconditions and discharged by the verifier.
//!
//! Iteration comes in three flavours: borrowing ([`Iter`]), mutably borrowing
//! ([`IterMut`]) and owning ([`IntoIter`]). Conversions to and from a growable
//! vector are provided by [`Array::from`] and [`Array::into_vec`].

mod array;
mod array_iters;
mod error;

pub use array::Array;
pub use array_iters::IntoIter;
pub use array_iters::Iter;
pub use array_iters::IterMut;
pub use error::ArrayError;
