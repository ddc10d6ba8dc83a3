//! Fixed-capacity sequence containers.
//!
//! Every variable-length field of the ledger representation (signatures,
//! events, event keys and data) is bounded by [`MAX_ARRAY_SIZE`].  A bounded
//! vector can only be built from a source that fits the bound; a longer
//! source is rejected at construction, never truncated.

use vstd::prelude::*;

verus! {

/// The largest number of elements a bounded sequence may hold.
pub const MAX_ARRAY_SIZE: usize = 10000;

/// The error of a bounded-sequence construction whose source is too long.
#[derive(Clone, Copy, PartialEq, Eq, Structural, Debug)]
pub enum BoundError {
    /// The source holds more than [`MAX_ARRAY_SIZE`] elements.
    CapacityExceeded,
}

/// A sequence of at most [`MAX_ARRAY_SIZE`] elements.
pub struct BoundedVec<T> {
    elems: Vec<T>,
}

impl<T> View for BoundedVec<T> {
    type V = Seq<T>;

    closed spec fn view(&self) -> Seq<T> {
        self.elems@
    }
}

impl<T> BoundedVec<T> {
    /// The container is well formed: it respects the capacity bound.  Every
    /// constructor establishes this.
    pub open spec fn wf(self) -> bool {
        self@.len() <= MAX_ARRAY_SIZE
    }

    /// The empty bounded sequence.
    pub fn empty() -> (r: BoundedVec<T>)
        ensures
            r@ == Seq::<T>::empty(),
            r.wf(),
    {
        BoundedVec { elems: Vec::new() }
    }

    /// Takes ownership of a source that fits the bound; fails with
    /// `CapacityExceeded` exactly when the source is too long.  No element
    /// is dropped or reordered on success.
    pub fn try_from_vec(v: Vec<T>) -> (r: Result<BoundedVec<T>, BoundError>)
        ensures
            r is Ok <==> v@.len() <= MAX_ARRAY_SIZE,
            r is Ok ==> r->Ok_0@ == v@ && r->Ok_0.wf(),
            r is Err ==> r->Err_0 == BoundError::CapacityExceeded,
    {
        if v.len() <= MAX_ARRAY_SIZE {
            Ok(BoundedVec { elems: v })
        } else {
            Err(BoundError::CapacityExceeded)
        }
    }

    /// Takes ownership of a source already known to fit the bound.
    pub fn from_vec(v: Vec<T>) -> (r: BoundedVec<T>)
        requires
            v@.len() <= MAX_ARRAY_SIZE,
        ensures
            r@ == v@,
            r.wf(),
    {
        BoundedVec { elems: v }
    }

    /// The number of elements held.
    pub fn len(&self) -> (n: usize)
        ensures
            n == self@.len(),
    {
        self.elems.len()
    }

    /// Read access to the elements.
    pub fn as_vec(&self) -> (r: &Vec<T>)
        ensures
            r@ == self@,
    {
        &self.elems
    }

    /// The element at `i`.
    pub fn get(&self, i: usize) -> (r: &T)
        requires
            i < self@.len(),
        ensures
            *r == self@[i as int],
    {
        &self.elems[i]
    }
}

} // verus!
