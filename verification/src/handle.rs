//! Opaque handle management.
//!
//! Every owned value that crosses the boundary is registered in a store that
//! converts between exclusively owned values and stable numeric handles. A
//! handle of `0` plays the role of a null address; every other handle was
//! produced by an insertion and stays valid until it is released exactly once.
//! Releasing reconstructs ownership of the value and permanently invalidates
//! the handle: a released handle is never reissued, so a stale handle can
//! never alias a fresh value.

use vstd::prelude::*;

verus! {

/// A store of exclusively owned values, one per live handle.
pub struct HandleStore<T> {
    slots: Vec<Option<T>>,
}

impl<T> HandleStore<T> {
    /// True when `h` currently stands for an owned value.
    pub closed spec fn live(&self, h: usize) -> bool {
        1 <= h <= self.slots@.len() && self.slots@[h - 1] is Some
    }

    /// The value that `h` stands for.
    pub closed spec fn value_of(&self, h: usize) -> T
        recommends
            self.live(h),
    {
        self.slots@[h - 1]->Some_0
    }

    /// The live bindings, as a map from handle to owned value.
    pub open spec fn contents(&self) -> Map<usize, T> {
        Map::new(|h: usize| self.live(h), |h: usize| self.value_of(h))
    }

    /// The contents map and the `live`/`value_of` views agree: a handle is
    /// in the map exactly when it is live, and then maps to its value.
    pub proof fn lemma_contents_at(&self, h: usize)
        ensures
            self.contents().dom().contains(h) == self.live(h),
            self.live(h) ==> self.contents()[h] == self.value_of(h),
    {
        assert(self.contents().dom() =~= Set::new(|h2: usize| self.live(h2)));
    }

    /// An empty store: no handle is live.
    pub fn new() -> (store: Self)
        ensures
            store.contents() == Map::<usize, T>::empty(),
    {
        let store = HandleStore { slots: Vec::new() };
        proof {
            assert(store.contents() =~= Map::<usize, T>::empty());
        }
        store
    }

    /// Takes exclusive ownership of `value` and returns a fresh non-null
    /// handle for it. No other binding is disturbed.
    pub fn to_handle(&mut self, value: T) -> (h: usize)
        ensures
            h != 0,
            !old(self).live(h),
            final(self).live(h),
            final(self).contents() == old(self).contents().insert(h, value),
    {
        self.slots.push(Some(value));
        let h = self.slots.len();
        proof {
            assert forall|h2: usize| h2 != h implies final(self).live(h2) == old(self).live(h2)
                && (old(self).live(h2) ==> final(self).value_of(h2) == old(
                self,
            ).value_of(h2)) by {
                if 1 <= h2 <= old(self).slots@.len() {
                    assert(final(self).slots@[h2 - 1] == old(self).slots@[h2 - 1]);
                }
            }
            assert(final(self).contents() =~= old(self).contents().insert(h, value));
        }
        h
    }

    /// Encodes an optional value as a nullable handle: absence becomes the
    /// null handle, presence a fresh handle owning the value.
    pub fn to_nullable_handle(&mut self, value: Option<T>) -> (h: usize)
        ensures
            value is None ==> h == 0 && *final(self) == *old(self),
            value is Some ==> h != 0 && !old(self).live(h) && final(self).contents() == old(
                self,
            ).contents().insert(h, value->Some_0),
    {
        match value {
            None => 0,
            Some(v) => self.to_handle(v),
        }
    }

    /// Whether `h` is currently live. The boundary's contracts make a
    /// stale handle the caller's fault, but a cautious caller can test
    /// before dereferencing.
    pub fn contains(&self, h: usize) -> (r: bool)
        ensures
            r == self.live(h),
    {
        if h >= 1 && h <= self.slots.len() {
            self.slots[h - 1].is_some()
        } else {
            false
        }
    }

    /// Reinterprets a live handle as a borrowed reference, without
    /// transferring ownership.
    pub fn from_handle(&self, h: usize) -> (r: &T)
        requires
            self.live(h),
        ensures
            *r == self.value_of(h),
    {
        self.slots[h - 1].as_ref().unwrap()
    }

    /// Replaces the value a live handle stands for, returning the previous
    /// value. The handle itself stays live.
    pub fn replace(&mut self, h: usize, value: T) -> (prev: T)
        requires
            old(self).live(h),
        ensures
            prev == old(self).value_of(h),
            final(self).contents() == old(self).contents().insert(h, value),
    {
        let slot = &mut self.slots[h - 1];
        let prev = slot.take().unwrap();
        *slot = Some(value);
        proof {
            assert(final(self).contents() =~= old(self).contents().insert(h, value));
        }
        prev
    }

    /// Reconstructs ownership of the value and drops the binding. The handle
    /// is permanently invalid afterwards: it is never reissued, and releasing
    /// it a second time is a contract violation ruled out by `requires`.
    pub fn release(&mut self, h: usize) -> (value: T)
        requires
            old(self).live(h),
        ensures
            value == old(self).value_of(h),
            !final(self).live(h),
            final(self).contents() == old(self).contents().remove(h),
    {
        let slot = &mut self.slots[h - 1];
        let value = slot.take().unwrap();
        proof {
            assert(final(self).contents() =~= old(self).contents().remove(h));
        }
        value
    }

    /// Releases a nullable handle: the null handle stands for absence and
    /// owns nothing, any other handle must be live.
    pub fn release_nullable(&mut self, h: usize) -> (value: Option<T>)
        requires
            h != 0 ==> old(self).live(h),
        ensures
            h == 0 ==> value is None && *final(self) == *old(self),
            h != 0 ==> value == Some(old(self).value_of(h)) && !final(self).live(h)
                && final(self).contents() == old(self).contents().remove(h),
    {
        if h == 0 {
            None
        } else {
            Some(self.release(h))
        }
    }
}

/// A released handle leaves no trace: inserting a fresh binding and then
/// removing it restores the original contents exactly, so the
/// insert-release round trip neither leaks nor disturbs any other binding.
pub proof fn lemma_handle_round_trip<T>(m: Map<usize, T>, h: usize, v: T)
    requires
        !m.dom().contains(h),
    ensures
        m.insert(h, v)[h] == v,
        m.insert(h, v).remove(h) == m,
{
    assert(m.insert(h, v).remove(h) =~= m);
}

} // verus!
