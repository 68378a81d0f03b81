//! The client of one browser session: the hub that the engine asks for
//! capability handlers, and the receiver of the rendering process's requests.

use crate::browser::{print_to_pdf, PrintJob};
use crate::capability::{self, Capability, CapabilityHandler, HandlerState};
use crate::handle::Frame;
use crate::message::{MessageKind, ProcessMessage};
use crate::print_pdf_callback::{CallbackState, Continuation};
use crate::ref_count::{RefCount, RefCounted};
use crate::utf16::encode;
use vstd::prelude::*;

verus! {

/// The client of one browser session.
#[derive(Debug)]
pub struct Client {
    ref_count: RefCount,
    life_span_handler: CapabilityHandler,
    context_menu_handler: CapabilityHandler,
    request_handler: CapabilityHandler,
    display_handler: CapabilityHandler,
}

/// A client as a mathematical value.
pub struct ClientState {
    /// The number of owners of the client itself.
    pub owners: nat,
    pub life_span_handler: HandlerState,
    pub context_menu_handler: HandlerState,
    pub request_handler: HandlerState,
    pub display_handler: HandlerState,
}

impl View for Client {
    type V = ClientState;

    closed spec fn view(&self) -> ClientState {
        ClientState {
            owners: self.ref_count.count(),
            life_span_handler: self.life_span_handler@,
            context_menu_handler: self.context_menu_handler@,
            request_handler: self.request_handler@,
            display_handler: self.display_handler@,
        }
    }
}

/// What a message from the rendering process came to.
#[derive(Debug)]
pub struct Reception {
    /// Whether the message was one that the client answers.
    pub handled: bool,
    /// The export to start for it, if any.
    pub job: Option<PrintJob>,
}

/// A handler with one owner more.
pub open spec fn retained(handler: HandlerState) -> HandlerState {
    HandlerState { owners: handler.owners + 1, ..handler }
}

/// Whether a handler can take one owner more.
pub open spec fn can_retain(handler: HandlerState) -> bool {
    1 <= handler.owners < usize::MAX
}

impl ClientState {
    /// The handler of `capability`, if the client serves it.
    pub open spec fn handler(self, capability: Capability) -> Option<HandlerState> {
        match capability {
            Capability::LifeSpan => Some(self.life_span_handler),
            Capability::ContextMenu => Some(self.context_menu_handler),
            Capability::Request => Some(self.request_handler),
            Capability::Display => Some(self.display_handler),
            _ => None,
        }
    }

    /// The client with `handler` in the place of the handler of `capability`.
    pub open spec fn with_handler(self, capability: Capability, handler: HandlerState) -> ClientState {
        match capability {
            Capability::LifeSpan => ClientState { life_span_handler: handler, ..self },
            Capability::ContextMenu => ClientState { context_menu_handler: handler, ..self },
            Capability::Request => ClientState { request_handler: handler, ..self },
            Capability::Display => ClientState { display_handler: handler, ..self },
            _ => self,
        }
    }
}

impl Client {
    /// The handler of `capability`; none where the client leaves the
    /// capability to the engine.
    pub fn handler(&self, capability: Capability) -> (handler: Option<&CapabilityHandler>)
        ensures
            match handler {
                Some(h) => self@.handler(capability) == Some(h@),
                None => self@.handler(capability) is None,
            },
    {
        match capability {
            Capability::LifeSpan => Some(&self.life_span_handler),
            Capability::ContextMenu => Some(&self.context_menu_handler),
            Capability::Request => Some(&self.request_handler),
            Capability::Display => Some(&self.display_handler),
            _ => None,
        }
    }

    /// The handler of `capability`, to be changed in place.
    pub fn handler_mut(&mut self, capability: Capability) -> (handler: Option<
        &mut CapabilityHandler,
    >)
        ensures
            match handler {
                Some(h) => {
                    &&& old(self)@.handler(capability) == Some(h@)
                    &&& final(self)@ == old(self)@.with_handler(capability, final(h)@)
                },
                None => {
                    &&& old(self)@.handler(capability) is None
                    &&& final(self)@ == old(self)@
                },
            },
    {
        match capability {
            Capability::LifeSpan => Some(&mut self.life_span_handler),
            Capability::ContextMenu => Some(&mut self.context_menu_handler),
            Capability::Request => Some(&mut self.request_handler),
            Capability::Display => Some(&mut self.display_handler),
            _ => None,
        }
    }

    /// Answers the engine's question for the handler of `capability`. Where
    /// the client serves the capability the handler is handed out with the
    /// new owner counted; where it does not, the answer is none and nothing
    /// changes, and the engine falls back on its own behaviour.
    pub fn get_handler(&mut self, capability: Capability) -> (handler: Option<&CapabilityHandler>)
        requires
            old(self)@.handler(capability) matches Some(h) ==> can_retain(h),
        ensures
            match old(self)@.handler(capability) {
                Some(h) => {
                    &&& final(self)@ == old(self)@.with_handler(capability, retained(h))
                    &&& handler matches Some(handed)
                    &&& handed@ == retained(h)
                },
                None => {
                    &&& final(self)@ == old(self)@
                    &&& handler is None
                },
            },
    {
        match capability {
            Capability::LifeSpan => Some(self.get_life_span_handler()),
            Capability::ContextMenu => Some(self.get_context_menu_handler()),
            Capability::Request => Some(self.get_request_handler()),
            Capability::Display => Some(self.get_display_handler()),
            _ => None,
        }
    }

    /// Hands out the life-span handler, with the new owner counted.
    pub fn get_life_span_handler(&mut self) -> (handler: &CapabilityHandler)
        requires
            can_retain(old(self)@.life_span_handler),
        ensures
            final(self)@ == (ClientState {
                life_span_handler: retained(old(self)@.life_span_handler),
                ..old(self)@
            }),
            handler@ == final(self)@.life_span_handler,
    {
        self.life_span_handler.inc_ref();
        &self.life_span_handler
    }

    /// Hands out the context-menu handler, with the new owner counted.
    pub fn get_context_menu_handler(&mut self) -> (handler: &CapabilityHandler)
        requires
            can_retain(old(self)@.context_menu_handler),
        ensures
            final(self)@ == (ClientState {
                context_menu_handler: retained(old(self)@.context_menu_handler),
                ..old(self)@
            }),
            handler@ == final(self)@.context_menu_handler,
    {
        self.context_menu_handler.inc_ref();
        &self.context_menu_handler
    }

    /// Hands out the request handler, with the new owner counted.
    pub fn get_request_handler(&mut self) -> (handler: &CapabilityHandler)
        requires
            can_retain(old(self)@.request_handler),
        ensures
            final(self)@ == (ClientState {
                request_handler: retained(old(self)@.request_handler),
                ..old(self)@
            }),
            handler@ == final(self)@.request_handler,
    {
        self.request_handler.inc_ref();
        &self.request_handler
    }

    /// Hands out the display handler, with the new owner counted.
    pub fn get_display_handler(&mut self) -> (handler: &CapabilityHandler)
        requires
            can_retain(old(self)@.display_handler),
        ensures
            final(self)@ == (ClientState {
                display_handler: retained(old(self)@.display_handler),
                ..old(self)@
            }),
            handler@ == final(self)@.display_handler,
    {
        self.display_handler.inc_ref();
        &self.display_handler
    }

    /// Takes a message that the rendering process sent through `frame`.
    ///
    /// A `print_to_pdf` request is handled: it starts an export to the path in
    /// its first argument, whose outcome goes back through `frame`. A request
    /// without a string there is handled and dropped. Any other message is
    /// not handled.
    pub fn on_process_message_received(&self, frame: Frame, message: &ProcessMessage) -> (reception:
        Reception)
        ensures
            reception.handled == (message@.kind() == MessageKind::PrintToPdf),
            reception.handled && message@.string_at(0) is Some ==> {
                &&& reception.job is Some
                &&& reception.job->0.path@ == encode(message@.string_at(0)->0)
                &&& reception.job->0.settings.is_standard()
                &&& reception.job->0.callback@ == (CallbackState {
                    owners: 1,
                    continuation: Some(Continuation::Remote(frame)),
                })
            },
            !(reception.handled && message@.string_at(0) is Some) ==> reception.job is None,
    {
        match message.kind() {
            MessageKind::PrintToPdf => {
                match message.get_string(0) {
                    Some(path) => {
                        let job = print_to_pdf(path.as_str(), Some(Continuation::Remote(frame)));
                        Reception { handled: true, job: Some(job) }
                    },
                    None => Reception { handled: true, job: None },
                }
            },
            _ => Reception { handled: false, job: None },
        }
    }
}

/// A new client with one owner, and with one handler, itself with one owner,
/// for each capability that the client serves.
pub fn allocate() -> (client: Client)
    ensures
        client@ == (ClientState {
            owners: 1,
            life_span_handler: HandlerState { capability: Capability::LifeSpan, owners: 1 },
            context_menu_handler: HandlerState { capability: Capability::ContextMenu, owners: 1 },
            request_handler: HandlerState { capability: Capability::Request, owners: 1 },
            display_handler: HandlerState { capability: Capability::Display, owners: 1 },
        }),
{
    Client {
        ref_count: RefCount::new(),
        life_span_handler: capability::allocate(Capability::LifeSpan),
        context_menu_handler: capability::allocate(Capability::ContextMenu),
        request_handler: capability::allocate(Capability::Request),
        display_handler: capability::allocate(Capability::Display),
    }
}

impl RefCounted for Client {
    open spec fn ref_count(&self) -> nat {
        self@.owners
    }

    fn owners(&self) -> (owners: usize) {
        self.ref_count.get()
    }

    fn add_ref(&mut self)
        ensures
            final(self)@ == (ClientState { owners: old(self)@.owners + 1, ..old(self)@ }),
    {
        self.ref_count.add_ref();
    }

    fn release(&mut self) -> (freed: bool)
        ensures
            final(self)@ == (ClientState { owners: (old(self)@.owners - 1) as nat, ..old(self)@ }),
    {
        self.ref_count.release()
    }

    fn has_one_ref(&self) -> (one: bool) {
        self.ref_count.has_one_ref()
    }

    fn has_at_least_one_ref(&self) -> (owned: bool) {
        self.ref_count.has_at_least_one_ref()
    }
}

} // verus!
