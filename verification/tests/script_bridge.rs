use cef_client::handle::{Frame, ProcessId, V8Context, V8Function};
use cef_client::message::{MessageKind, MessageValue, ProcessMessage};
use cef_client::ref_count::RefCounted;
use cef_client::render_process_handler::{self, EXTENSION_NAME};
use cef_client::v8_pdf_print_handler::{
    self, on_pdf_print_done, Invocation, PendingCall, V8Value, CODE, EXPORT_FUNCTION,
};

fn units(s: &str) -> Vec<u16> {
    s.encode_utf16().collect()
}

fn call(path: &str, on_success: usize, on_error: usize) -> Vec<V8Value> {
    vec![
        V8Value::String(units(path)),
        V8Value::Function(V8Function(on_success)),
        V8Value::Function(V8Function(on_error)),
    ]
}

#[test]
fn a_new_bridge_is_idle() {
    let bridge = v8_pdf_print_handler::allocate();
    assert_eq!(bridge.owners(), 1);
    assert_eq!(bridge.frame(), None);
    assert_eq!(bridge.done_callback(), None);
}

#[test]
fn export_call_stores_continuations_and_sends_request() {
    let mut bridge = v8_pdf_print_handler::allocate();
    bridge.set_frame(Frame(7));
    let execution = bridge.execute(&units("printToPDF"), &call("C:\\out.pdf", 11, 12), V8Context(3));
    assert!(execution.handled);
    let dispatch = execution.dispatch.expect("a request is sent");
    assert_eq!(dispatch.frame, Frame(7));
    assert_eq!(dispatch.target, ProcessId::Browser);
    assert_eq!(dispatch.message.kind(), MessageKind::PrintToPdf);
    assert_eq!(dispatch.message.name, units("print_to_pdf"));
    assert_eq!(dispatch.message.arguments.len(), 1);
    assert!(matches!(&dispatch.message.arguments[0], MessageValue::String(p) if *p == units("C:\\out.pdf")));
    assert_eq!(
        bridge.done_callback(),
        Some(PendingCall { context: V8Context(3), on_success: V8Function(11), on_error: V8Function(12) })
    );
    assert_eq!(bridge.frame(), Some(Frame(7)));
    assert_eq!(bridge.owners(), 1);
}

#[test]
fn success_response_calls_success_continuation_once() {
    let mut bridge = v8_pdf_print_handler::allocate();
    bridge.set_frame(Frame(1));
    let execution = bridge.execute(&units(EXPORT_FUNCTION), &call("C:\\out.pdf", 11, 12), V8Context(3));
    assert!(execution.handled);
    assert_eq!(
        on_pdf_print_done(&mut bridge, true),
        Some(Invocation { context: V8Context(3), function: V8Function(11) })
    );
    assert_eq!(bridge.done_callback(), None);
    assert_eq!(on_pdf_print_done(&mut bridge, true), None);
    assert_eq!(on_pdf_print_done(&mut bridge, false), None);
}

#[test]
fn failure_response_calls_failure_continuation_once() {
    let mut bridge = v8_pdf_print_handler::allocate();
    bridge.set_frame(Frame(1));
    bridge.execute(&units(EXPORT_FUNCTION), &call("C:\\out.pdf", 11, 12), V8Context(3));
    assert_eq!(
        on_pdf_print_done(&mut bridge, false),
        Some(Invocation { context: V8Context(3), function: V8Function(12) })
    );
    assert_eq!(bridge.done_callback(), None);
    assert_eq!(on_pdf_print_done(&mut bridge, false), None);
}

#[test]
fn non_string_path_has_no_effect() {
    let mut bridge = v8_pdf_print_handler::allocate();
    bridge.set_frame(Frame(1));
    for first in [V8Value::Other, V8Value::Function(V8Function(5))] {
        let arguments = vec![first, V8Value::Function(V8Function(11)), V8Value::Function(V8Function(12))];
        let execution = bridge.execute(&units("printToPDF"), &arguments, V8Context(3));
        assert!(!execution.handled);
        assert!(execution.dispatch.is_none());
        assert_eq!(bridge.done_callback(), None);
        assert_eq!(bridge.frame(), Some(Frame(1)));
    }
}

#[test]
fn non_function_callbacks_have_no_effect() {
    let mut bridge = v8_pdf_print_handler::allocate();
    bridge.set_frame(Frame(1));
    let no_success = vec![V8Value::String(units("a.pdf")), V8Value::Other, V8Value::Function(V8Function(12))];
    let no_error = vec![
        V8Value::String(units("a.pdf")),
        V8Value::Function(V8Function(11)),
        V8Value::String(units("b")),
    ];
    for arguments in [no_success, no_error] {
        let execution = bridge.execute(&units("printToPDF"), &arguments, V8Context(3));
        assert!(!execution.handled);
        assert!(execution.dispatch.is_none());
        assert_eq!(bridge.done_callback(), None);
    }
}

#[test]
fn other_names_and_arities_are_not_handled() {
    let mut bridge = v8_pdf_print_handler::allocate();
    bridge.set_frame(Frame(1));
    let execution = bridge.execute(&units("printToPdf"), &call("a.pdf", 1, 2), V8Context(3));
    assert!(!execution.handled);
    assert!(execution.dispatch.is_none());
    let mut four = call("a.pdf", 1, 2);
    four.push(V8Value::Other);
    let execution = bridge.execute(&units("printToPDF"), &four, V8Context(3));
    assert!(!execution.handled);
    let execution = bridge.execute(&units("printToPDF"), &[V8Value::String(units("a.pdf"))], V8Context(3));
    assert!(!execution.handled);
    let execution = bridge.execute(&units("printToPDF"), &[], V8Context(3));
    assert!(!execution.handled);
    assert_eq!(bridge.done_callback(), None);
}

#[test]
fn a_call_without_a_frame_is_handled_and_dropped() {
    let mut bridge = v8_pdf_print_handler::allocate();
    let execution = bridge.execute(&units("printToPDF"), &call("a.pdf", 1, 2), V8Context(3));
    assert!(execution.handled);
    assert!(execution.dispatch.is_none());
    assert_eq!(bridge.done_callback(), None);
    assert_eq!(on_pdf_print_done(&mut bridge, true), None);
}

#[test]
fn second_call_replaces_the_continuations_of_the_first() {
    let mut bridge = v8_pdf_print_handler::allocate();
    bridge.set_frame(Frame(1));
    let first = bridge.execute(&units("printToPDF"), &call("first.pdf", 11, 12), V8Context(3));
    let second = bridge.execute(&units("printToPDF"), &call("second.pdf", 21, 22), V8Context(4));
    assert!(first.dispatch.is_some());
    assert!(second.dispatch.is_some());
    assert_eq!(
        bridge.done_callback(),
        Some(PendingCall { context: V8Context(4), on_success: V8Function(21), on_error: V8Function(22) })
    );
    assert_eq!(
        on_pdf_print_done(&mut bridge, true),
        Some(Invocation { context: V8Context(4), function: V8Function(21) })
    );
    assert_eq!(on_pdf_print_done(&mut bridge, true), None);
}

#[test]
fn render_handler_registers_the_bridge() {
    let handler = render_process_handler::allocate();
    let extension = handler.on_web_kit_initialized();
    assert_eq!(EXTENSION_NAME, "CEF PDF Printer");
    assert_eq!(extension.name, units("CEF PDF Printer"));
    assert_eq!(extension.code, units(CODE));
    assert!(CODE.contains("native function printToPDF(path, onDone, onError);"));
    assert!(CODE.contains("cef.printToPDF = function(path)"));
    assert_eq!(handler.owners(), 1);
    assert_eq!(handler.pdf_print_extension().owners(), 1);
}

#[test]
fn render_handler_carries_a_call_from_script_to_continuation() {
    let mut handler = render_process_handler::allocate();
    handler.on_context_created(Frame(9));
    assert_eq!(handler.pdf_print_extension().frame(), Some(Frame(9)));
    let execution = handler.pdf_print_extension_mut().execute(
        &units("printToPDF"),
        &call("C:\\out.pdf", 11, 12),
        V8Context(3),
    );
    assert_eq!(execution.dispatch.expect("a request is sent").frame, Frame(9));
    let delivery = handler.on_process_message_received(&ProcessMessage::print_to_pdf_done(true));
    assert!(delivery.handled);
    assert_eq!(delivery.invocation, Some(Invocation { context: V8Context(3), function: V8Function(11) }));
    let again = handler.on_process_message_received(&ProcessMessage::print_to_pdf_done(true));
    assert!(again.handled);
    assert_eq!(again.invocation, None);
}

#[test]
fn render_handler_takes_a_missing_outcome_for_failure() {
    let mut handler = render_process_handler::allocate();
    handler.on_context_created(Frame(9));
    handler.pdf_print_extension_mut().execute(&units("printToPDF"), &call("a.pdf", 11, 12), V8Context(3));
    let message = ProcessMessage { name: units("print_to_pdf_done"), arguments: vec![] };
    let delivery = handler.on_process_message_received(&message);
    assert!(delivery.handled);
    assert_eq!(delivery.invocation, Some(Invocation { context: V8Context(3), function: V8Function(12) }));
}

#[test]
fn render_handler_leaves_other_messages_alone() {
    let mut handler = render_process_handler::allocate();
    handler.on_context_created(Frame(9));
    handler.pdf_print_extension_mut().execute(&units("printToPDF"), &call("a.pdf", 11, 12), V8Context(3));
    let delivery = handler.on_process_message_received(&ProcessMessage::print_to_pdf("a.pdf"));
    assert!(!delivery.handled);
    assert_eq!(delivery.invocation, None);
    assert!(handler.pdf_print_extension().done_callback().is_some());
}
