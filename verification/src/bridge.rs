//! Callback bridging for the three handler roles.
//!
//! The foreign side supplies each handler as a raw callback with an opaque
//! context word. The bridge stores the pair and converts between the
//! boundary's nullable-handle results and owned values. What cannot be
//! checked by any type system is stated as contracts instead: a missing
//! callback is a construction-time contract violation, the foreign side
//! guarantees the context stays valid and safely accessible on whichever
//! thread invokes the callback for as long as the owning adapter exists,
//! and a handle returned by a callback is either null or live.

use vstd::prelude::*;
use crate::handle::HandleStore;
use crate::tree::TreeUpdate;

verus! {

/// An activation handler: invoked when the engine needs an initial or
/// on-demand tree snapshot. Its callback may legitimately return the null
/// handle, meaning no update is available.
pub struct ActivationBridge {
    pub callback: usize,
    pub context: usize,
}

impl ActivationBridge {
    /// Wraps a foreign activation callback. Supplying no callback is a
    /// programming-contract violation, not a recoverable error, and is
    /// ruled out by `requires`.
    pub fn new(callback: Option<usize>, context: usize) -> (b: Self)
        requires
            callback is Some,
        ensures
            b.callback == callback.unwrap(),
            b.context == context,
    {
        ActivationBridge { callback: callback.unwrap(), context }
    }
}

/// An action handler: invoked exactly once per action the assistive
/// technology requests. The bridge transfers ownership of the encoded
/// request to the callback; the foreign side must release it.
pub struct ActionBridge {
    pub callback: usize,
    pub context: usize,
}

impl ActionBridge {
    /// Wraps a foreign action callback. Supplying no callback is a
    /// contract violation ruled out by `requires`.
    pub fn new(callback: Option<usize>, context: usize) -> (b: Self)
        requires
            callback is Some,
        ensures
            b.callback == callback.unwrap(),
            b.context == context,
    {
        ActionBridge { callback: callback.unwrap(), context }
    }
}

/// A deactivation handler: invoked with nothing but its context when the
/// engine no longer needs updates.
pub struct DeactivationBridge {
    pub callback: usize,
    pub context: usize,
}

impl DeactivationBridge {
    /// Wraps a foreign deactivation callback. Supplying no callback is a
    /// contract violation ruled out by `requires`.
    pub fn new(callback: Option<usize>, context: usize) -> (b: Self)
        requires
            callback is Some,
        ensures
            b.callback == callback.unwrap(),
            b.context == context,
    {
        DeactivationBridge { callback: callback.unwrap(), context }
    }
}

/// Decodes what an activation callback returned: the null handle means "no
/// update available" and leaves the store untouched; any other handle must
/// be a live update handle, whose pointee the engine now owns. The two
/// outcomes are distinguishable from each other and from an empty update.
pub fn decode_activation_result(updates: &mut HandleStore<TreeUpdate>, h: usize) -> (r: Option<
    TreeUpdate>)
    requires
        h != 0 ==> old(updates).live(h),
    ensures
        h == 0 ==> r is None && *final(updates) == *old(updates),
        h != 0 ==> r == Some(old(updates).value_of(h)) && !final(updates).live(h)
            && final(updates).contents() == old(updates).contents().remove(h),
{
    updates.release_nullable(h)
}

/// Takes the update a factory callback produced. The update factory is the
/// single-shot, pull-based variant of the activation handler: for this
/// callback shape the null handle is a contract violation, ruled out by
/// `requires`, and ownership of the pointee transfers to the engine exactly
/// once — the handle is dead afterwards.
pub fn take_factory_update(updates: &mut HandleStore<TreeUpdate>, h: usize) -> (u: TreeUpdate)
    requires
        h != 0,
        old(updates).live(h),
    ensures
        u == old(updates).value_of(h),
        !final(updates).live(h),
        final(updates).contents() == old(updates).contents().remove(h),
{
    updates.release(h)
}

/// The update factory protocol, decided in one place: the factory is
/// consulted exactly in the active state — `produced` carries its result
/// and must be present if and only if an update is needed — and the
/// produced update's ownership transfers out of the store exactly once.
/// The result is absent if and only if the factory was not consulted; a
/// factory that was consulted and returned the null handle violated its
/// contract, which `requires` rules out.
pub fn update_if_active(
    gate: &AdapterGate,
    produced: Option<usize>,
    updates: &mut HandleStore<TreeUpdate>,
) -> (r: Option<TreeUpdate>)
    requires
        produced is Some <==> gate.active,
        produced matches Some(h) ==> h != 0 && old(updates).live(h),
    ensures
        !gate.active ==> r is None && *final(updates) == *old(updates),
        gate.active ==> r == Some(old(updates).value_of(produced.unwrap()))
            && !final(updates).live(produced.unwrap()) && final(updates).contents() == old(
            updates,
        ).contents().remove(produced.unwrap()),
{
    match produced {
        None => None,
        Some(h) => Some(take_factory_update(updates, h)),
    }
}

/// The adapter-side gate for the update factory protocol: the factory is
/// consulted only while a platform consumer is active, so no tree snapshot
/// is built when nothing would observe it.
pub struct AdapterGate {
    pub active: bool,
}

impl AdapterGate {
    /// A fresh gate: inactive until the platform shows interest.
    pub fn new() -> (gate: Self)
        ensures
            !gate.active,
    {
        AdapterGate { active: false }
    }

    /// Records that a platform consumer is observing the tree.
    pub fn activate(&mut self)
        ensures
            final(self).active,
    {
        self.active = true;
    }

    /// Records a deactivation: the engine no longer needs updates. This is
    /// what the deactivation handler reports.
    pub fn deactivate(&mut self)
        ensures
            !final(self).active,
    {
        self.active = false;
    }

    /// Whether an update is needed now: the foreign factory callback is
    /// consulted only in the active state, so no tree snapshot is built
    /// for an absent audience.
    pub fn needs_update(&self) -> (b: bool)
        ensures
            b == self.active,
    {
        self.active
    }
}

} // verus!
