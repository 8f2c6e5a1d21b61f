//! Collection encoding.
//!
//! Variable-length homogeneous sequences cross the boundary as a length and
//! a run of elements. Engine-produced collections are handed to the caller
//! with ownership of the backing allocation; the caller returns both pieces
//! unmodified to a paired release function, which reconstructs exactly that
//! allocation. The recorded length always equals the number of elements
//! actually allocated, and element order is preserved exactly: order is
//! semantically meaningful for every sequence that crosses the boundary.

use vstd::prelude::*;

verus! {

/// An engine-produced, caller-freed collection: a recorded length and the
/// owned run of elements it describes.
pub struct OwnedArray<T> {
    length: usize,
    values: Vec<T>,
}

impl<T> View for OwnedArray<T> {
    type V = Seq<T>;

    closed spec fn view(&self) -> Seq<T> {
        self.values@
    }
}

impl<T> OwnedArray<T> {
    /// The recorded length never disagrees with the allocation it describes.
    #[verifier::type_invariant]
    spec fn length_matches_allocation(&self) -> bool {
        self.length == self.values@.len()
    }

    /// Encodes an owned sequence for the boundary, transferring ownership of
    /// the allocation into the collection record.
    pub fn from_vec(values: Vec<T>) -> (a: Self)
        ensures
            a@ == values@,
    {
        let length = values.len();
        OwnedArray { length, values }
    }

    /// The recorded length, which always equals the number of elements.
    pub fn length(&self) -> (n: usize)
        ensures
            n == self@.len(),
    {
        proof {
            use_type_invariant(self);
        }
        self.length
    }

    /// Borrows the element at `i`.
    pub fn get(&self, i: usize) -> (r: &T)
        requires
            i < self@.len(),
        ensures
            *r == self@[i as int],
    {
        &self.values[i]
    }

    /// Reconstructs the exact allocation the record describes, returning
    /// ownership of the elements in their original order. This is the
    /// decoding half of the paired release function; dropping its result
    /// frees the collection.
    pub fn into_vec(self) -> (values: Vec<T>)
        ensures
            values@ == self@,
    {
        self.values
    }

    /// The paired release function: reconstructs the allocation and frees
    /// it. Called exactly once per engine-produced collection.
    pub fn free(self) {
        let _values = self.into_vec();
    }
}

} // verus!
