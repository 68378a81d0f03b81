//! Capability handlers: the small objects that the engine asks a client for,
//! one per optional behaviour.

use crate::ref_count::{RefCount, RefCounted};
use vstd::prelude::*;

verus! {

/// The optional behaviours that the engine may ask a client for.
#[derive(Clone, Copy, Debug, PartialEq, Eq, Structural)]
pub enum Capability {
    ContextMenu,
    Dialog,
    Display,
    Download,
    Drag,
    Find,
    Focus,
    JsDialog,
    Keyboard,
    LifeSpan,
    Load,
    Render,
    Request,
}

/// The handler of one capability.
#[derive(Debug)]
pub struct CapabilityHandler {
    capability: Capability,
    ref_count: RefCount,
}

/// A capability handler as a mathematical value.
pub struct HandlerState {
    /// The capability that the handler serves.
    pub capability: Capability,
    /// The number of owners.
    pub owners: nat,
}

impl View for CapabilityHandler {
    type V = HandlerState;

    closed spec fn view(&self) -> HandlerState {
        HandlerState { capability: self.capability, owners: self.ref_count.count() }
    }
}

impl CapabilityHandler {
    /// The capability that the handler serves.
    pub fn capability(&self) -> (capability: Capability)
        ensures
            capability == self@.capability,
    {
        self.capability
    }

    /// Adds an owner.
    pub fn inc_ref(&mut self)
        requires
            1 <= old(self)@.owners < usize::MAX,
        ensures
            final(self)@ == (HandlerState { owners: old(self)@.owners + 1, ..old(self)@ }),
    {
        self.ref_count.add_ref();
    }
}

/// A new handler of `capability` with one owner.
pub fn allocate(capability: Capability) -> (handler: CapabilityHandler)
    ensures
        handler@ == (HandlerState { capability, owners: 1 }),
{
    CapabilityHandler { capability, ref_count: RefCount::new() }
}

impl RefCounted for CapabilityHandler {
    open spec fn ref_count(&self) -> nat {
        self@.owners
    }

    fn owners(&self) -> (owners: usize) {
        self.ref_count.get()
    }

    fn add_ref(&mut self)
        ensures
            final(self)@ == (HandlerState { owners: old(self)@.owners + 1, ..old(self)@ }),
    {
        self.ref_count.add_ref();
    }

    fn release(&mut self) -> (freed: bool)
        ensures
            final(self)@ == (HandlerState {
                owners: (old(self)@.owners - 1) as nat,
                ..old(self)@
            }),
    {
        self.ref_count.release()
    }

    fn has_one_ref(&self) -> (one: bool) {
        self.ref_count.has_one_ref()
    }

    fn has_at_least_one_ref(&self) -> (owned: bool) {
        self.ref_count.has_at_least_one_ref()
    }
}

} // verus!
