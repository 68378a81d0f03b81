use cef_client::utf16::{decode_utf16_lossy, encode_utf16};

#[test]
fn encodes_ascii_one_unit_per_character() {
    assert_eq!(encode_utf16("C:\\out.pdf"), "C:\\out.pdf".encode_utf16().collect::<Vec<u16>>());
    assert_eq!(encode_utf16("abc"), vec![0x61, 0x62, 0x63]);
}

#[test]
fn encodes_supplementary_characters_as_pairs() {
    assert_eq!(encode_utf16("\u{1F600}"), vec![0xD83D, 0xDE00]);
    assert_eq!(encode_utf16("\u{10000}"), vec![0xD800, 0xDC00]);
    assert_eq!(encode_utf16("\u{10FFFF}"), vec![0xDBFF, 0xDFFF]);
    assert_eq!(encode_utf16("\u{FFFF}"), vec![0xFFFF]);
}

#[test]
fn decodes_unpaired_surrogates_as_replacement() {
    assert_eq!(decode_utf16_lossy(&[0xD800]), "\u{FFFD}");
    assert_eq!(decode_utf16_lossy(&[0xDC00, 0x61]), "\u{FFFD}a");
    assert_eq!(decode_utf16_lossy(&[0xD800, 0x61]), "\u{FFFD}a");
    assert_eq!(decode_utf16_lossy(&[0xD800, 0xD800, 0xDC00]), "\u{FFFD}\u{10000}");
    assert_eq!(decode_utf16_lossy(&[]), "");
}

#[test]
fn decoding_agrees_with_the_standard_library() {
    let samples: Vec<Vec<u16>> = vec![
        vec![0x48, 0x69],
        vec![0xD83D, 0xDE00, 0x21],
        vec![0xDBFF, 0xDFFF],
        vec![0xDFFF, 0xDBFF],
        vec![0xD7FF, 0xE000, 0xFFFD],
        vec![0xD83D, 0xD83D, 0xDE00, 0xDE00],
    ];
    for units in samples {
        assert_eq!(decode_utf16_lossy(&units), String::from_utf16_lossy(&units));
    }
}

#[test]
fn round_trip_keeps_ascii_and_accented_paths() {
    for path in ["C:\\out.pdf", "C:\\Users\\Jos\u{e9}\\caf\u{e9}.pdf", "/tmp/\u{65e5}\u{672c}\u{8a9e}/\u{1F4C4}.pdf", ""] {
        assert_eq!(decode_utf16_lossy(&encode_utf16(path)), path);
    }
}
