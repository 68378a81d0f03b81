//! The handler of the rendering process's callbacks: it registers the script
//! bridge, tells it the frame to send through, and passes it the outcome when
//! the privileged process reports one.

use crate::handle::Frame;
use crate::message::{
    lemma_print_to_pdf_done_round_trip, MessageKind, MessageView, ProcessMessage,
};
use crate::ref_count::{RefCount, RefCounted};
use crate::utf16::{encode, encode_utf16};
use crate::v8_pdf_print_handler::{
    self, invocation_for, on_pdf_print_done, BridgeState, Invocation, PendingCall,
    V8PDFPrintHandler, CODE,
};
use vstd::prelude::*;

verus! {

/// The name under which the script bridge is registered.
pub const EXTENSION_NAME: &'static str = "CEF PDF Printer";

/// An extension to register with the script engine, in UTF-16.
#[derive(Debug)]
pub struct Extension {
    pub name: Vec<u16>,
    pub code: Vec<u16>,
}

/// What a message from the privileged process came to.
#[derive(Debug)]
pub struct Delivery {
    /// Whether the message was one that the handler answers.
    pub handled: bool,
    /// The call to make into script for it, if any.
    pub invocation: Option<Invocation>,
}

/// The handler of the rendering process's callbacks.
#[derive(Debug)]
pub struct RenderProcessHandler {
    ref_count: RefCount,
    pdf_print_extension: V8PDFPrintHandler,
}

/// The handler as a mathematical value.
pub struct RenderProcessState {
    /// The number of owners.
    pub owners: nat,
    /// The script bridge.
    pub pdf_print_extension: BridgeState,
}

impl View for RenderProcessHandler {
    type V = RenderProcessState;

    closed spec fn view(&self) -> RenderProcessState {
        RenderProcessState {
            owners: self.ref_count.count(),
            pdf_print_extension: self.pdf_print_extension@,
        }
    }
}

impl RenderProcessHandler {
    /// Adds an owner.
    pub fn inc_ref(&mut self)
        requires
            1 <= old(self)@.owners < usize::MAX,
        ensures
            final(self)@ == (RenderProcessState { owners: old(self)@.owners + 1, ..old(self)@ }),
    {
        self.ref_count.add_ref();
    }

    /// The script bridge.
    pub fn pdf_print_extension(&self) -> (extension: &V8PDFPrintHandler)
        ensures
            extension@ == self@.pdf_print_extension,
    {
        &self.pdf_print_extension
    }

    /// The script bridge, to be changed in place.
    pub fn pdf_print_extension_mut(&mut self) -> (extension: &mut V8PDFPrintHandler)
        ensures
            extension@ == old(self)@.pdf_print_extension,
            final(self)@ == (RenderProcessState {
                pdf_print_extension: final(extension)@,
                ..old(self)@
            }),
    {
        &mut self.pdf_print_extension
    }

    /// The extension to register once the script engine is up: the script
    /// bridge's code under the bridge's name.
    pub fn on_web_kit_initialized(&self) -> (extension: Extension)
        ensures
            extension.name@ == encode(EXTENSION_NAME@),
            extension.code@ == encode(CODE@),
    {
        Extension { name: encode_utf16(EXTENSION_NAME), code: encode_utf16(CODE) }
    }

    /// Tells the script bridge the frame of a context that was created.
    pub fn on_context_created(&mut self, frame: Frame)
        ensures
            final(self)@ == (RenderProcessState {
                pdf_print_extension: BridgeState {
                    frame: Some(frame),
                    ..old(self)@.pdf_print_extension
                },
                ..old(self)@
            }),
    {
        self.pdf_print_extension.set_frame(frame);
    }

    /// Takes a message that the privileged process sent.
    ///
    /// A `print_to_pdf_done` response is handled: its outcome goes to the
    /// call under way, whose slot is empty afterwards. Any other message is
    /// not handled and changes nothing.
    pub fn on_process_message_received(&mut self, message: &ProcessMessage) -> (delivery: Delivery)
        ensures
            delivery.handled == (message@.kind() == MessageKind::PrintToPdfDone),
            delivery.handled ==> {
                &&& final(self)@ == (RenderProcessState {
                    pdf_print_extension: BridgeState {
                        done_callback: None,
                        ..old(self)@.pdf_print_extension
                    },
                    ..old(self)@
                })
                &&& delivery.invocation == invocation_for(
                    old(self)@.pdf_print_extension.done_callback,
                    message@.bool_at(0),
                )
            },
            !delivery.handled ==> {
                &&& final(self)@ == old(self)@
                &&& delivery.invocation is None
            },
    {
        match message.kind() {
            MessageKind::PrintToPdfDone => {
                let ok = message.get_bool(0);
                let invocation = on_pdf_print_done(&mut self.pdf_print_extension, ok);
                Delivery { handled: true, invocation }
            },
            _ => Delivery { handled: false, invocation: None },
        }
    }
}

/// The response that the privileged process builds for an outcome makes the
/// rendering process call one continuation of the call under way: the success
/// continuation if the export succeeded, the failure continuation if it
/// failed.
pub proof fn lemma_response_reaches_continuation(pending: PendingCall, ok: bool)
    ensures
        MessageView::print_to_pdf_done(ok).kind() == MessageKind::PrintToPdfDone,
        invocation_for(Some(pending), MessageView::print_to_pdf_done(ok).bool_at(0)) == Some(
            Invocation {
                context: pending.context,
                function: if ok {
                    pending.on_success
                } else {
                    pending.on_error
                },
            },
        ),
{
    lemma_print_to_pdf_done_round_trip(ok);
}

/// A new handler with one owner and a new script bridge.
pub fn allocate() -> (handler: RenderProcessHandler)
    ensures
        handler@ == (RenderProcessState {
            owners: 1,
            pdf_print_extension: BridgeState { owners: 1, frame: None, done_callback: None },
        }),
{
    RenderProcessHandler {
        ref_count: RefCount::new(),
        pdf_print_extension: v8_pdf_print_handler::allocate(),
    }
}

impl RefCounted for RenderProcessHandler {
    open spec fn ref_count(&self) -> nat {
        self@.owners
    }

    fn owners(&self) -> (owners: usize) {
        self.ref_count.get()
    }

    fn add_ref(&mut self)
        ensures
            final(self)@ == (RenderProcessState { owners: old(self)@.owners + 1, ..old(self)@ }),
    {
        self.ref_count.add_ref();
    }

    fn release(&mut self) -> (freed: bool)
        ensures
            final(self)@ == (RenderProcessState {
                owners: (old(self)@.owners - 1) as nat,
                ..old(self)@
            }),
    {
        self.ref_count.release()
    }

    fn has_one_ref(&self) -> (one: bool) {
        self.ref_count.has_one_ref()
    }

    fn has_at_least_one_ref(&self) -> (owned: bool) {
        self.ref_count.has_at_least_one_ref()
    }
}

} // verus!
