use cef_client::message::{
    MessageKind, MessageValue, ProcessMessage, PRINT_TO_PDF, PRINT_TO_PDF_DONE,
};

fn utf16(s: &str) -> Vec<u16> {
    s.encode_utf16().collect()
}

#[test]
fn request_carries_its_name_and_the_path() {
    let message = ProcessMessage::print_to_pdf("C:\\out.pdf");
    assert_eq!(message.name, utf16("print_to_pdf"));
    assert_eq!(message.arguments.len(), 1);
    assert!(matches!(&message.arguments[0], MessageValue::String(units) if *units == utf16("C:\\out.pdf")));
    assert_eq!(message.get_name(), PRINT_TO_PDF);
    assert_eq!(message.kind(), MessageKind::PrintToPdf);
}

#[test]
fn response_carries_its_name_and_the_outcome() {
    for ok in [true, false] {
        let message = ProcessMessage::print_to_pdf_done(ok);
        assert_eq!(message.name, utf16("print_to_pdf_done"));
        assert_eq!(message.arguments.len(), 1);
        assert!(matches!(&message.arguments[0], MessageValue::Bool(b) if *b == ok));
        assert_eq!(message.get_name(), PRINT_TO_PDF_DONE);
        assert_eq!(message.kind(), MessageKind::PrintToPdfDone);
        assert_eq!(message.get_bool(0), ok);
    }
}

#[test]
fn path_round_trip_for_ascii_and_accented_paths() {
    for path in ["C:\\out.pdf", "C:\\Users\\Ren\u{e9}e\\\u{fc}bersicht.pdf", "/home/\u{1F600}/x.pdf", ""] {
        let message = ProcessMessage::print_to_pdf(path);
        assert_eq!(message.kind(), MessageKind::PrintToPdf);
        assert_eq!(message.get_string(0), Some(path.to_string()));
    }
}

#[test]
fn request_from_code_units_keeps_them_as_they_are() {
    let message = ProcessMessage::print_to_pdf_utf16(vec![0x61, 0xD800, 0x62]);
    assert!(matches!(&message.arguments[0], MessageValue::String(units) if *units == vec![0x61, 0xD800, 0x62]));
    assert_eq!(message.get_string(0), Some("a\u{FFFD}b".to_string()));
}

#[test]
fn other_names_are_of_no_known_kind() {
    for name in ["", "print_to_pdf ", "print_to_pdf_don", "PRINT_TO_PDF", "print_to_pdf_done!"] {
        let message = ProcessMessage { name: utf16(name), arguments: vec![] };
        assert_eq!(message.kind(), MessageKind::Other);
        assert_eq!(message.get_name(), name);
    }
}

#[test]
fn arguments_of_another_type_or_place_are_absent() {
    let message = ProcessMessage {
        name: utf16("print_to_pdf"),
        arguments: vec![
            MessageValue::Null,
            MessageValue::Bool(true),
            MessageValue::Int(1),
            MessageValue::String(utf16("x")),
            MessageValue::Bool(false),
        ],
    };
    assert_eq!(message.get_string(0), None);
    assert_eq!(message.get_string(1), None);
    assert_eq!(message.get_string(2), None);
    assert_eq!(message.get_string(3), Some("x".to_string()));
    assert_eq!(message.get_string(5), None);
    assert!(!message.get_bool(0));
    assert!(message.get_bool(1));
    assert!(!message.get_bool(2));
    assert!(!message.get_bool(3));
    assert!(!message.get_bool(4));
    assert!(!message.get_bool(5));
}
