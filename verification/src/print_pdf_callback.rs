//! The completion object of one export: it is handed to the engine with the
//! export and called once when the export has ended.

use crate::handle::{Frame, ProcessId};
use crate::message::{Dispatch, MessageView, ProcessMessage};
use crate::ref_count::{RefCount, RefCounted};
use vstd::prelude::*;

verus! {

/// Who is to learn how an export ended.
#[derive(Clone, Copy, Debug, PartialEq, Eq, Structural)]
pub enum Continuation {
    /// A caller in this process, which keeps its own closure.
    Local,
    /// The rendering process behind this frame, which asked by message.
    Remote(Frame),
}

/// What is to be done when an export has ended.
#[derive(Debug)]
pub enum Completion {
    /// Nobody waits for the outcome.
    Nothing,
    /// The caller in this process is to be told the outcome.
    Local(bool),
    /// The response is to be sent to the rendering process.
    Remote(Dispatch),
}

/// The completion object of one export.
#[derive(Debug)]
pub struct PDFPrintCallback {
    ref_count: RefCount,
    continuation: Option<Continuation>,
}

/// A completion object as a mathematical value.
pub struct CallbackState {
    /// The number of owners.
    pub owners: nat,
    /// Who is still to learn the outcome.
    pub continuation: Option<Continuation>,
}

impl View for PDFPrintCallback {
    type V = CallbackState;

    closed spec fn view(&self) -> CallbackState {
        CallbackState { owners: self.ref_count.count(), continuation: self.continuation }
    }
}

/// Whether `completion` is what `continuation` asks for on the outcome `ok`.
pub open spec fn completes(
    continuation: Option<Continuation>,
    ok: bool,
    completion: Completion,
) -> bool {
    match continuation {
        None => completion is Nothing,
        Some(Continuation::Local) => completion == Completion::Local(ok),
        Some(Continuation::Remote(frame)) => {
            &&& completion is Remote
            &&& completion->Remote_0.frame == frame
            &&& completion->Remote_0.target == ProcessId::Renderer
            &&& completion->Remote_0.message@ == MessageView::print_to_pdf_done(ok)
        },
    }
}

impl PDFPrintCallback {
    /// Who is still to learn the outcome.
    pub fn continuation(&self) -> (continuation: Option<Continuation>)
        ensures
            continuation == self@.continuation,
    {
        self.continuation
    }

    /// Takes the outcome of the export and says what is to be done with it.
    /// The continuation is used up: a second call finds nobody waiting.
    pub fn on_pdf_print_finished(&mut self, ok: bool) -> (completion: Completion)
        ensures
            final(self)@ == (CallbackState { continuation: None, ..old(self)@ }),
            completes(old(self)@.continuation, ok, completion),
    {
        let continuation = self.continuation;
        self.continuation = None;
        match continuation {
            None => Completion::Nothing,
            Some(Continuation::Local) => Completion::Local(ok),
            Some(Continuation::Remote(frame)) => Completion::Remote(
                Dispatch {
                    frame,
                    target: ProcessId::Renderer,
                    message: ProcessMessage::print_to_pdf_done(ok),
                },
            ),
        }
    }
}

/// A new completion object with one owner and nobody waiting.
pub fn allocate() -> (callback: PDFPrintCallback)
    ensures
        callback@ == (CallbackState { owners: 1, continuation: None }),
{
    PDFPrintCallback { ref_count: RefCount::new(), continuation: None }
}

/// A new completion object with one owner, for the given continuation.
pub fn allocate_for(continuation: Option<Continuation>) -> (callback: PDFPrintCallback)
    ensures
        callback@ == (CallbackState { owners: 1, continuation }),
{
    PDFPrintCallback { ref_count: RefCount::new(), continuation }
}

impl RefCounted for PDFPrintCallback {
    open spec fn ref_count(&self) -> nat {
        self@.owners
    }

    fn owners(&self) -> (owners: usize) {
        self.ref_count.get()
    }

    fn add_ref(&mut self)
        ensures
            final(self)@ == (CallbackState { owners: old(self)@.owners + 1, ..old(self)@ }),
    {
        self.ref_count.add_ref();
    }

    fn release(&mut self) -> (freed: bool)
        ensures
            final(self)@ == (CallbackState {
                owners: (old(self)@.owners - 1) as nat,
                ..old(self)@
            }),
    {
        self.ref_count.release()
    }

    fn has_one_ref(&self) -> (one: bool) {
        self.ref_count.has_one_ref()
    }

    fn has_at_least_one_ref(&self) -> (owned: bool) {
        self.ref_count.has_at_least_one_ref()
    }
}

} // verus!
