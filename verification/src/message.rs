//! Process messages: a name and positional, typed arguments, exchanged between
//! the rendering process and the privileged process.
//!
//! Two messages make up the export protocol. `print_to_pdf` travels from the
//! rendering process to the privileged process and carries the destination
//! path as its one string argument. `print_to_pdf_done` travels back and
//! carries the outcome as its one boolean argument.

use crate::handle::{Frame, ProcessId};
use crate::utf16::{decode_lossy, decode_utf16_lossy, encode, encode_utf16, lemma_decode_encode};
use vstd::prelude::*;

verus! {

/// The name of the request to export the page.
pub const PRINT_TO_PDF: &'static str = "print_to_pdf";

/// The name of the response that reports how the export ended.
pub const PRINT_TO_PDF_DONE: &'static str = "print_to_pdf_done";

/// One positional argument of a message. Strings are held in UTF-16.
#[derive(Debug)]
pub enum MessageValue {
    Null,
    Bool(bool),
    Int(i32),
    String(Vec<u16>),
}

/// A message argument as a mathematical value.
pub enum ValueView {
    Null,
    Bool(bool),
    Int(i32),
    String(Seq<u16>),
}

impl View for MessageValue {
    type V = ValueView;

    open spec fn view(&self) -> ValueView {
        match self {
            MessageValue::Null => ValueView::Null,
            MessageValue::Bool(b) => ValueView::Bool(*b),
            MessageValue::Int(i) => ValueView::Int(*i),
            MessageValue::String(units) => ValueView::String(units@),
        }
    }
}

/// A message as it travels: its name in UTF-16 and its arguments in order.
#[derive(Debug)]
pub struct ProcessMessage {
    pub name: Vec<u16>,
    pub arguments: Vec<MessageValue>,
}

/// A message as a mathematical value.
pub struct MessageView {
    pub name: Seq<u16>,
    pub arguments: Seq<ValueView>,
}

impl View for ProcessMessage {
    type V = MessageView;

    open spec fn view(&self) -> MessageView {
        MessageView {
            name: self.name@,
            arguments: Seq::new(self.arguments@.len(), |i: int| self.arguments@[i]@),
        }
    }
}

/// A message to send through a frame to another process.
#[derive(Debug)]
pub struct Dispatch {
    pub frame: Frame,
    pub target: ProcessId,
    pub message: ProcessMessage,
}

/// What a message asks for, going by its name.
#[derive(Clone, Copy, Debug, PartialEq, Eq, Structural)]
pub enum MessageKind {
    PrintToPdf,
    PrintToPdfDone,
    Other,
}

impl MessageView {
    /// The name as a string.
    pub open spec fn name_string(self) -> Seq<char> {
        decode_lossy(self.name)
    }

    /// The kind that the name stands for.
    pub open spec fn kind(self) -> MessageKind {
        if self.name_string() == PRINT_TO_PDF@ {
            MessageKind::PrintToPdf
        } else if self.name_string() == PRINT_TO_PDF_DONE@ {
            MessageKind::PrintToPdfDone
        } else {
            MessageKind::Other
        }
    }

    /// The string at `index`, if there is an argument there and it is a
    /// string.
    pub open spec fn string_at(self, index: int) -> Option<Seq<char>> {
        if 0 <= index < self.arguments.len() && self.arguments[index] is String {
            Some(decode_lossy(self.arguments[index]->String_0))
        } else {
            None
        }
    }

    /// The boolean at `index`; `false` where there is no argument or it is
    /// no boolean.
    pub open spec fn bool_at(self, index: int) -> bool {
        0 <= index < self.arguments.len() && self.arguments[index] == ValueView::Bool(true)
    }

    /// The request to export the page to the path that `path` holds in UTF-16.
    pub open spec fn print_to_pdf(path: Seq<u16>) -> MessageView {
        MessageView { name: encode(PRINT_TO_PDF@), arguments: seq![ValueView::String(path)] }
    }

    /// The response that reports whether the export succeeded.
    pub open spec fn print_to_pdf_done(ok: bool) -> MessageView {
        MessageView { name: encode(PRINT_TO_PDF_DONE@), arguments: seq![ValueView::Bool(ok)] }
    }
}

impl ProcessMessage {
    /// The name of the message, decoded.
    pub fn get_name(&self) -> (name: String)
        ensures
            name@ == self@.name_string(),
    {
        decode_utf16_lossy(self.name.as_slice())
    }

    /// The kind of the message.
    pub fn kind(&self) -> (kind: MessageKind)
        ensures
            kind == self@.kind(),
    {
        let name = self.get_name();
        if name == PRINT_TO_PDF.to_owned() {
            MessageKind::PrintToPdf
        } else if name == PRINT_TO_PDF_DONE.to_owned() {
            MessageKind::PrintToPdfDone
        } else {
            MessageKind::Other
        }
    }

    /// The string argument at `index`, decoded.
    pub fn get_string(&self, index: usize) -> (value: Option<String>)
        ensures
            match value {
                Some(s) => self@.string_at(index as int) == Some(s@),
                None => self@.string_at(index as int) is None,
            },
    {
        if index < self.arguments.len() {
            match &self.arguments[index] {
                MessageValue::String(units) => Some(decode_utf16_lossy(units.as_slice())),
                _ => None,
            }
        } else {
            None
        }
    }

    /// The boolean argument at `index`.
    pub fn get_bool(&self, index: usize) -> (value: bool)
        ensures
            value == self@.bool_at(index as int),
    {
        if index < self.arguments.len() {
            match &self.arguments[index] {
                MessageValue::Bool(b) => *b,
                _ => false,
            }
        } else {
            false
        }
    }

    /// Builds the request to export the page to a path given in UTF-16.
    pub fn print_to_pdf_utf16(path: Vec<u16>) -> (message: ProcessMessage)
        ensures
            message@ == MessageView::print_to_pdf(path@),
    {
        let mut arguments: Vec<MessageValue> = Vec::new();
        arguments.push(MessageValue::String(path));
        let message = ProcessMessage { name: encode_utf16(PRINT_TO_PDF), arguments };
        assert(message@.arguments =~= seq![ValueView::String(path@)]);
        message
    }

    /// Builds the request to export the page to `path`.
    pub fn print_to_pdf(path: &str) -> (message: ProcessMessage)
        ensures
            message@ == MessageView::print_to_pdf(encode(path@)),
    {
        ProcessMessage::print_to_pdf_utf16(encode_utf16(path))
    }

    /// Builds the response that reports whether the export succeeded.
    pub fn print_to_pdf_done(ok: bool) -> (message: ProcessMessage)
        ensures
            message@ == MessageView::print_to_pdf_done(ok),
    {
        let mut arguments: Vec<MessageValue> = Vec::new();
        arguments.push(MessageValue::Bool(ok));
        let message = ProcessMessage { name: encode_utf16(PRINT_TO_PDF_DONE), arguments };
        assert(message@.arguments =~= seq![ValueView::Bool(ok)]);
        message
    }
}

/// The two protocol names differ.
pub proof fn lemma_names_differ()
    ensures
        PRINT_TO_PDF@ != PRINT_TO_PDF_DONE@,
{
    reveal_strlit("print_to_pdf");
    reveal_strlit("print_to_pdf_done");
    assert(PRINT_TO_PDF@.len() == 12);
    assert(PRINT_TO_PDF_DONE@.len() == 17);
}

/// A path survives the trip through a request unchanged, whatever characters
/// it holds: the receiver recognises the request and reads the path that the
/// sender wrote.
pub proof fn lemma_print_to_pdf_round_trip(path: Seq<char>)
    ensures
        MessageView::print_to_pdf(encode(path)).kind() == MessageKind::PrintToPdf,
        MessageView::print_to_pdf(encode(path)).string_at(0) == Some(path),
{
    lemma_decode_encode(PRINT_TO_PDF@);
    lemma_decode_encode(path);
}

/// An outcome survives the trip through a response unchanged: the receiver
/// recognises the response and reads the outcome that the sender wrote.
pub proof fn lemma_print_to_pdf_done_round_trip(ok: bool)
    ensures
        MessageView::print_to_pdf_done(ok).kind() == MessageKind::PrintToPdfDone,
        MessageView::print_to_pdf_done(ok).bool_at(0) == ok,
{
    lemma_decode_encode(PRINT_TO_PDF_DONE@);
    lemma_names_differ();
}

} // verus!
