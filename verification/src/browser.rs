//! The export pipeline of a browser session: the settings of an export and the
//! job that is handed to the engine.

use crate::print_pdf_callback::{self, CallbackState, Continuation, PDFPrintCallback};
use crate::utf16::{encode, encode_utf16};
use vstd::prelude::*;

verus! {

/// The width of letter paper, 8.5 inches, in hundredths of a millimetre.
pub const LETTER_WIDTH: i32 = 21590;

/// The height of letter paper, 11 inches, in hundredths of a millimetre.
pub const LETTER_HEIGHT: i32 = 27940;

/// One inch in hundredths of a millimetre.
pub const ONE_INCH: i32 = 2540;

/// How the margins of the page are chosen.
#[derive(Clone, Copy, Debug, PartialEq, Eq, Structural)]
pub enum MarginType {
    /// The engine's own margins.
    Default,
    /// No margins.
    NoMargins,
    /// The four margins of the settings.
    Custom,
}

/// The settings of one export. Lengths are in hundredths of a millimetre.
#[derive(Debug)]
pub struct PdfPrintSettings {
    /// The title in the header and footer.
    pub header_footer_title: String,
    /// The address in the header and footer.
    pub header_footer_url: String,
    /// The width of the page.
    pub page_width: i32,
    /// The height of the page.
    pub page_height: i32,
    /// The scale of the page, in percent.
    pub scale_factor: i32,
    pub margin_top: i32,
    pub margin_right: i32,
    pub margin_bottom: i32,
    pub margin_left: i32,
    /// How the margins are chosen; the four above count only with `Custom`.
    pub margin_type: MarginType,
    /// Whether a header and a footer are printed.
    pub header_footer_enabled: bool,
    /// Whether only the selection is printed.
    pub selection_only: bool,
    /// Whether the page lies on its side.
    pub landscape: bool,
    /// Whether background colours and images are printed.
    pub backgrounds_enabled: bool,
}

impl PdfPrintSettings {
    /// The settings that every export starts from: letter paper upright at
    /// full scale, margins of one inch with the engine's margin type, the
    /// whole page with its backgrounds, no header and no footer.
    pub open spec fn is_standard(&self) -> bool {
        &&& self.header_footer_title@ == Seq::<char>::empty()
        &&& self.header_footer_url@ == Seq::<char>::empty()
        &&& self.page_width == LETTER_WIDTH
        &&& self.page_height == LETTER_HEIGHT
        &&& self.scale_factor == 100
        &&& self.margin_top == ONE_INCH
        &&& self.margin_right == ONE_INCH
        &&& self.margin_bottom == ONE_INCH
        &&& self.margin_left == ONE_INCH
        &&& self.margin_type == MarginType::Default
        &&& !self.header_footer_enabled
        &&& !self.selection_only
        &&& !self.landscape
        &&& self.backgrounds_enabled
    }
}

impl Default for PdfPrintSettings {
    fn default() -> (settings: PdfPrintSettings)
        ensures
            settings.is_standard(),
    {
        PdfPrintSettings {
            header_footer_title: String::new(),
            header_footer_url: String::new(),
            page_width: LETTER_WIDTH,
            page_height: LETTER_HEIGHT,
            scale_factor: 100,
            margin_top: ONE_INCH,
            margin_right: ONE_INCH,
            margin_bottom: ONE_INCH,
            margin_left: ONE_INCH,
            margin_type: MarginType::Default,
            header_footer_enabled: false,
            selection_only: false,
            landscape: false,
            backgrounds_enabled: true,
        }
    }
}

/// One export, ready for the engine: where to write, how to print, and the
/// object to call when it has ended.
#[derive(Debug)]
pub struct PrintJob {
    /// The destination path in UTF-16.
    pub path: Vec<u16>,
    pub settings: PdfPrintSettings,
    pub callback: PDFPrintCallback,
}

/// Prepares the export of the page to `path` with the given settings.
pub fn print_to_pdf_with(
    path: &str,
    settings: PdfPrintSettings,
    continuation: Option<Continuation>,
) -> (job: PrintJob)
    ensures
        job.path@ == encode(path@),
        job.settings == settings,
        job.callback@ == (CallbackState { owners: 1, continuation }),
{
    PrintJob {
        path: encode_utf16(path),
        settings,
        callback: print_pdf_callback::allocate_for(continuation),
    }
}

/// Prepares the export of the page to `path` with the standard settings.
pub fn print_to_pdf(path: &str, continuation: Option<Continuation>) -> (job: PrintJob)
    ensures
        job.path@ == encode(path@),
        job.settings.is_standard(),
        job.callback@ == (CallbackState { owners: 1, continuation }),
{
    print_to_pdf_with(path, PdfPrintSettings::default(), continuation)
}

} // verus!
