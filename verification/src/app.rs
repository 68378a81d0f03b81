//! The application aggregate of one process: the hub that the engine asks for
//! the handlers of the privileged and of the rendering process.

use crate::browser_process_handler::{self, BrowserProcessHandler, BrowserProcessState};
use crate::ref_count::{RefCount, RefCounted};
use crate::render_process_handler::{self, RenderProcessHandler, RenderProcessState};
use crate::schedule::Schedule;
use crate::v8_pdf_print_handler::BridgeState;
use vstd::prelude::*;

verus! {

/// The application aggregate of one process.
#[derive(Debug)]
pub struct App {
    ref_count: RefCount,
    browser_process_handler: BrowserProcessHandler,
    render_process_handler: RenderProcessHandler,
}

/// An application aggregate as a mathematical value.
pub struct AppState {
    /// The number of owners of the aggregate itself.
    pub owners: nat,
    pub browser_process_handler: BrowserProcessState,
    pub render_process_handler: RenderProcessState,
}

impl View for App {
    type V = AppState;

    closed spec fn view(&self) -> AppState {
        AppState {
            owners: self.ref_count.count(),
            browser_process_handler: self.browser_process_handler@,
            render_process_handler: self.render_process_handler@,
        }
    }
}

impl App {
    /// Adds an owner.
    pub fn inc_ref(&mut self)
        requires
            1 <= old(self)@.owners < usize::MAX,
        ensures
            final(self)@ == (AppState { owners: old(self)@.owners + 1, ..old(self)@ }),
    {
        self.ref_count.add_ref();
    }

    /// Hands out the handler of the privileged process, with the new owner
    /// counted.
    pub fn get_browser_process_handler(&mut self) -> (handler: &BrowserProcessHandler)
        requires
            1 <= old(self)@.browser_process_handler.owners < usize::MAX,
        ensures
            final(self)@ == (AppState {
                browser_process_handler: BrowserProcessState {
                    owners: old(self)@.browser_process_handler.owners + 1,
                    ..old(self)@.browser_process_handler
                },
                ..old(self)@
            }),
            handler@ == final(self)@.browser_process_handler,
    {
        self.browser_process_handler.inc_ref();
        &self.browser_process_handler
    }

    /// Hands out the handler of the rendering process, with the new owner
    /// counted.
    pub fn get_render_process_handler(&mut self) -> (handler: &RenderProcessHandler)
        requires
            1 <= old(self)@.render_process_handler.owners < usize::MAX,
        ensures
            final(self)@ == (AppState {
                render_process_handler: RenderProcessState {
                    owners: old(self)@.render_process_handler.owners + 1,
                    ..old(self)@.render_process_handler
                },
                ..old(self)@
            }),
            handler@ == final(self)@.render_process_handler,
    {
        self.render_process_handler.inc_ref();
        &self.render_process_handler
    }

    /// The handler of the privileged process.
    pub fn browser_process_handler(&self) -> (handler: &BrowserProcessHandler)
        ensures
            handler@ == self@.browser_process_handler,
    {
        &self.browser_process_handler
    }

    /// The handler of the privileged process, to be changed in place.
    pub fn browser_process_handler_mut(&mut self) -> (handler: &mut BrowserProcessHandler)
        ensures
            handler@ == old(self)@.browser_process_handler,
            final(self)@ == (AppState { browser_process_handler: final(handler)@, ..old(self)@ }),
    {
        &mut self.browser_process_handler
    }

    /// The handler of the rendering process.
    pub fn render_process_handler(&self) -> (handler: &RenderProcessHandler)
        ensures
            handler@ == self@.render_process_handler,
    {
        &self.render_process_handler
    }

    /// The handler of the rendering process, to be changed in place.
    pub fn render_process_handler_mut(&mut self) -> (handler: &mut RenderProcessHandler)
        ensures
            handler@ == old(self)@.render_process_handler,
            final(self)@ == (AppState { render_process_handler: final(handler)@, ..old(self)@ }),
    {
        &mut self.render_process_handler
    }
}

/// A new aggregate with one owner, whose handlers have one owner each and
/// whose privileged-process handler writes `schedule`.
pub fn allocate(schedule: Schedule) -> (app: App)
    ensures
        app@ == (AppState {
            owners: 1,
            browser_process_handler: BrowserProcessState { owners: 1, schedule: schedule@ },
            render_process_handler: RenderProcessState {
                owners: 1,
                pdf_print_extension: BridgeState { owners: 1, frame: None, done_callback: None },
            },
        }),
{
    App {
        ref_count: RefCount::new(),
        browser_process_handler: browser_process_handler::allocate(schedule),
        render_process_handler: render_process_handler::allocate(),
    }
}

impl RefCounted for App {
    open spec fn ref_count(&self) -> nat {
        self@.owners
    }

    fn owners(&self) -> (owners: usize) {
        self.ref_count.get()
    }

    fn add_ref(&mut self)
        ensures
            final(self)@ == (AppState { owners: old(self)@.owners + 1, ..old(self)@ }),
    {
        self.ref_count.add_ref();
    }

    fn release(&mut self) -> (freed: bool)
        ensures
            final(self)@ == (AppState { owners: (old(self)@.owners - 1) as nat, ..old(self)@ }),
    {
        self.ref_count.release()
    }

    fn has_one_ref(&self) -> (one: bool) {
        self.ref_count.has_one_ref()
    }

    fn has_at_least_one_ref(&self) -> (owned: bool) {
        self.ref_count.has_at_least_one_ref()
    }
}

} // verus!
