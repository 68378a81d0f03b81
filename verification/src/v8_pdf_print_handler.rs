//! The script bridge: the handler behind the script-visible export function.
//!
//! A script call that names the export function with a path and two callbacks
//! becomes a `print_to_pdf` message to the privileged process. The callbacks
//! wait in the handler's one slot until `print_to_pdf_done` comes back, and a
//! later call overwrites an earlier one that is still waiting.

use crate::handle::{Frame, ProcessId, V8Context, V8Function};
use crate::message::{Dispatch, MessageView, ProcessMessage};
use crate::ref_count::{RefCount, RefCounted};
use crate::utf16::{decode_lossy, decode_utf16_lossy};
use vstd::prelude::*;

verus! {

/// The script that the engine runs in every page to expose the export
/// function as `cef.printToPDF(path)`, which returns a promise.
pub const CODE: &'static str = r#"
    var cef;
    if(!cef) cef = {};
    (function() {
        cef.printToPDF = function(path) {
            native function printToPDF(path, onDone, onError);
            return new Promise((resolve, reject) => {
                printToPDF(path, resolve, reject);
            });
        };
    })();
"#;

/// The name under which the native export function is called.
pub const EXPORT_FUNCTION: &'static str = "printToPDF";

/// A script value as the bridge sees it.
#[derive(Debug)]
pub enum V8Value {
    /// A string, in UTF-16.
    String(Vec<u16>),
    /// A callable value.
    Function(V8Function),
    /// A value of any other type.
    Other,
}

/// The continuations of one export call that is under way.
#[derive(Clone, Copy, Debug, PartialEq, Eq, Structural)]
pub struct PendingCall {
    /// The context in which the script made the call.
    pub context: V8Context,
    /// The function to call when the export succeeded.
    pub on_success: V8Function,
    /// The function to call when the export failed.
    pub on_error: V8Function,
}

/// What a script call came to.
#[derive(Debug)]
pub struct Execution {
    /// Whether the call was the export function's, with arguments of the
    /// right types.
    pub handled: bool,
    /// The message to send for it, if any.
    pub dispatch: Option<Dispatch>,
}

/// A call to make into script: enter `context`, call `function` without
/// arguments, leave `context`.
#[derive(Clone, Copy, Debug, PartialEq, Eq, Structural)]
pub struct Invocation {
    pub context: V8Context,
    pub function: V8Function,
}

/// The handler behind the script-visible export function.
#[derive(Debug)]
pub struct V8PDFPrintHandler {
    ref_count: RefCount,
    frame: Option<Frame>,
    done_callback: Option<PendingCall>,
}

/// The script bridge as a mathematical value.
pub struct BridgeState {
    /// The number of owners.
    pub owners: nat,
    /// The frame through which requests are sent, once a context exists.
    pub frame: Option<Frame>,
    /// The continuations of the call under way, if there is one.
    pub done_callback: Option<PendingCall>,
}

impl View for V8PDFPrintHandler {
    type V = BridgeState;

    closed spec fn view(&self) -> BridgeState {
        BridgeState {
            owners: self.ref_count.count(),
            frame: self.frame,
            done_callback: self.done_callback,
        }
    }
}

/// Whether a script call names the export function with three arguments.
pub open spec fn is_export_call(name: Seq<u16>, arguments: Seq<V8Value>) -> bool {
    decode_lossy(name) == EXPORT_FUNCTION@ && arguments.len() == 3
}

/// Whether the three arguments are a path and two callbacks.
pub open spec fn is_well_typed(arguments: Seq<V8Value>) -> bool {
    &&& arguments[0] is String
    &&& arguments[1] is Function
    &&& arguments[2] is Function
}

/// The continuations that a well-typed call made in `context` leaves behind.
pub open spec fn pending_call(context: V8Context, arguments: Seq<V8Value>) -> PendingCall {
    PendingCall {
        context,
        on_success: arguments[1]->Function_0,
        on_error: arguments[2]->Function_0,
    }
}

/// The call into script that delivers the outcome `ok` to the call under way:
/// its success continuation if `ok`, its failure continuation if not, and
/// none where no call is under way.
pub open spec fn invocation_for(pending: Option<PendingCall>, ok: bool) -> Option<Invocation> {
    match pending {
        Some(pending) => Some(
            Invocation {
                context: pending.context,
                function: if ok {
                    pending.on_success
                } else {
                    pending.on_error
                },
            },
        ),
        None => None,
    }
}

impl V8PDFPrintHandler {
    /// The frame through which requests are sent.
    pub fn frame(&self) -> (frame: Option<Frame>)
        ensures
            frame == self@.frame,
    {
        self.frame
    }

    /// The continuations of the call under way.
    pub fn done_callback(&self) -> (pending: Option<PendingCall>)
        ensures
            pending == self@.done_callback,
    {
        self.done_callback
    }

    /// Records the frame through which requests are to be sent.
    pub fn set_frame(&mut self, frame: Frame)
        ensures
            final(self)@ == (BridgeState { frame: Some(frame), ..old(self)@ }),
    {
        self.frame = Some(frame);
    }

    /// Handles a script call of `name` with `arguments`, made in `context`.
    ///
    /// A call that is not the export function's with three arguments, or whose
    /// arguments are not a string and two functions, is not handled and
    /// changes nothing. A handled call stores its continuations, in place of
    /// any that were waiting, and asks for the request to be sent, provided a
    /// frame is known; without a frame it is dropped.
    pub fn execute(
        &mut self,
        name: &[u16],
        arguments: &[V8Value],
        context: V8Context,
    ) -> (execution: Execution)
        ensures
            execution.handled == (is_export_call(name@, arguments@) && is_well_typed(arguments@)),
            execution.handled && old(self)@.frame is Some ==> {
                &&& final(self)@ == (BridgeState {
                    done_callback: Some(pending_call(context, arguments@)),
                    ..old(self)@
                })
                &&& execution.dispatch is Some
                &&& execution.dispatch->0.frame == old(self)@.frame->0
                &&& execution.dispatch->0.target == ProcessId::Browser
                &&& execution.dispatch->0.message@ == MessageView::print_to_pdf(
                    arguments@[0]->String_0@,
                )
            },
            !(execution.handled && old(self)@.frame is Some) ==> {
                &&& final(self)@ == old(self)@
                &&& execution.dispatch is None
            },
    {
        let name = decode_utf16_lossy(name);
        if !(name == EXPORT_FUNCTION.to_owned() && arguments.len() == 3) {
            return Execution { handled: false, dispatch: None };
        }
        let path = match &arguments[0] {
            V8Value::String(units) => units,
            _ => {
                return Execution { handled: false, dispatch: None };
            },
        };
        let on_success = match &arguments[1] {
            V8Value::Function(function) => *function,
            _ => {
                return Execution { handled: false, dispatch: None };
            },
        };
        let on_error = match &arguments[2] {
            V8Value::Function(function) => *function,
            _ => {
                return Execution { handled: false, dispatch: None };
            },
        };
        match self.frame {
            Some(frame) => {
                self.done_callback = Some(PendingCall { context, on_success, on_error });
                let message = ProcessMessage::print_to_pdf_utf16(path.clone());
                Execution {
                    handled: true,
                    dispatch: Some(Dispatch { frame, target: ProcessId::Browser, message }),
                }
            },
            None => Execution { handled: true, dispatch: None },
        }
    }
}

/// Delivers the outcome of the export to the call under way: the success
/// continuation if `ok`, the failure continuation if not. The slot is empty
/// afterwards. Without a call under way nothing is to be called.
pub fn on_pdf_print_done(slf: &mut V8PDFPrintHandler, ok: bool) -> (invocation: Option<Invocation>)
    ensures
        final(slf)@ == (BridgeState { done_callback: None, ..old(slf)@ }),
        invocation == invocation_for(old(slf)@.done_callback, ok),
{
    match slf.done_callback {
        Some(pending) => {
            slf.done_callback = None;
            Some(
                Invocation {
                    context: pending.context,
                    function: if ok {
                        pending.on_success
                    } else {
                        pending.on_error
                    },
                },
            )
        },
        None => None,
    }
}

/// A new script bridge with one owner, no frame and no call under way.
pub fn allocate() -> (handler: V8PDFPrintHandler)
    ensures
        handler@ == (BridgeState { owners: 1, frame: None, done_callback: None }),
{
    V8PDFPrintHandler { ref_count: RefCount::new(), frame: None, done_callback: None }
}

impl RefCounted for V8PDFPrintHandler {
    open spec fn ref_count(&self) -> nat {
        self@.owners
    }

    fn owners(&self) -> (owners: usize) {
        self.ref_count.get()
    }

    fn add_ref(&mut self)
        ensures
            final(self)@ == (BridgeState { owners: old(self)@.owners + 1, ..old(self)@ }),
    {
        self.ref_count.add_ref();
    }

    fn release(&mut self) -> (freed: bool)
        ensures
            final(self)@ == (BridgeState {
                owners: (old(self)@.owners - 1) as nat,
                ..old(self)@
            }),
    {
        self.ref_count.release()
    }

    fn has_one_ref(&self) -> (one: bool) {
        self.ref_count.has_one_ref()
    }

    fn has_at_least_one_ref(&self) -> (owned: bool) {
        self.ref_count.has_at_least_one_ref()
    }
}

} // verus!
