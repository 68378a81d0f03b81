//! UTF-16, the form in which strings cross the boundary to the engine and
//! travel inside process messages.
//!
//! Encoding is exact. Decoding is lossy: a code unit that is not part of a
//! well-formed surrogate pair decodes to U+FFFD.

use vstd::prelude::*;
use vstd::std_specs::iter::IteratorSpec;

verus! {

/// The character that stands for an ill-formed code unit.
pub const REPLACEMENT_CHARACTER: char = '\u{FFFD}';

/// A code unit in the surrogate range.
pub open spec fn is_surrogate(unit: u16) -> bool {
    0xD800 <= unit <= 0xDFFF
}

/// A code unit that opens a surrogate pair.
pub open spec fn is_high_surrogate(unit: u16) -> bool {
    0xD800 <= unit <= 0xDBFF
}

/// A code unit that closes a surrogate pair.
pub open spec fn is_low_surrogate(unit: u16) -> bool {
    0xDC00 <= unit <= 0xDFFF
}

/// A number that is a Unicode scalar value, that is, the number of a `char`.
pub open spec fn is_scalar_value(v: u32) -> bool {
    v <= 0xD7FF || 0xE000 <= v <= 0x10FFFF
}

/// The code units of one character: itself below U+10000, a surrogate pair
/// from there on.
pub open spec fn encode_char(c: char) -> Seq<u16> {
    let v = c as u32 as int;
    if v < 0x10000 {
        seq![v as u16]
    } else {
        seq![(0xD800 + (v - 0x10000) / 0x400) as u16, (0xDC00 + (v - 0x10000) % 0x400) as u16]
    }
}

/// The code units of a string: those of its characters, in order.
pub open spec fn encode(s: Seq<char>) -> Seq<u16>
    decreases s.len(),
{
    if s.len() == 0 {
        Seq::empty()
    } else {
        encode_char(s[0]) + encode(s.drop_first())
    }
}

/// The character that a surrogate pair stands for.
pub open spec fn combine(high: u16, low: u16) -> char {
    (0x10000 + (high - 0xD800) * 0x400 + (low - 0xDC00)) as char
}

/// Whether the code units start with a well-formed surrogate pair.
pub open spec fn starts_with_pair(units: Seq<u16>) -> bool {
    units.len() >= 2 && is_high_surrogate(units[0]) && is_low_surrogate(units[1])
}

/// The number of code units that the first decoded character takes up.
pub open spec fn first_width(units: Seq<u16>) -> int {
    if starts_with_pair(units) {
        2
    } else {
        1
    }
}

/// The first decoded character of a non-empty sequence of code units.
pub open spec fn first_char(units: Seq<u16>) -> char {
    if !is_surrogate(units[0]) {
        units[0] as char
    } else if starts_with_pair(units) {
        combine(units[0], units[1])
    } else {
        REPLACEMENT_CHARACTER
    }
}

/// The string that code units decode to, with U+FFFD for each unpaired
/// surrogate.
pub open spec fn decode_lossy(units: Seq<u16>) -> Seq<char>
    decreases units.len(),
{
    if units.len() == 0 {
        Seq::empty()
    } else {
        seq![first_char(units)] + decode_lossy(units.skip(first_width(units)))
    }
}

/// `char::from_u32`: the character with the given number, and `None` exactly
/// for the numbers that are no Unicode scalar value.
pub assume_specification[ char::from_u32 ](i: u32) -> (r: Option<char>)
    ensures
        r == if is_scalar_value(i) {
            Some(i as char)
        } else {
            None
        },
;

/// `String::push`: appends one character.
pub assume_specification[ std::string::String::push ](s: &mut std::string::String, ch: char)
    ensures
        final(s)@ == old(s)@.push(ch),
;

/// Encodes a string as UTF-16.
pub fn encode_utf16(s: &str) -> (units: Vec<u16>)
    ensures
        units@ == encode(s@),
{
    broadcast use vstd::string::group_string_axioms;

    let mut units: Vec<u16> = Vec::new();
    let mut chars = s.chars();
    let ghost mut done: Seq<char> = Seq::empty();
    assert(done + chars.remaining() =~= s@);
    loop
        invariant
            done + chars.remaining() == s@,
            units@ == encode(done),
            chars.decrease() is Some,
        decreases chars.decrease()->0,
    {
        let ghost before = chars.remaining();
        match chars.next() {
            Some(c) => {
                let v: u32 = c as u32;
                proof {
                    lemma_encode_push(done, c);
                    assert(done.push(c) + before.drop_first() =~= done + before);
                }
                if v < 0x10000 {
                    units.push(v as u16);
                } else {
                    let w: u32 = v - 0x10000;
                    units.push((0xD800 + w / 0x400) as u16);
                    units.push((0xDC00 + w % 0x400) as u16);
                }
                assert(units@ =~= encode(done) + encode_char(c));
                proof {
                    done = done.push(c);
                }
            },
            None => {
                assert(done =~= s@);
                return units;
            },
        }
    }
}

/// Decodes UTF-16 into a string, with U+FFFD in place of each code unit that
/// is not part of a well-formed surrogate pair.
pub fn decode_utf16_lossy(units: &[u16]) -> (s: String)
    ensures
        s@ == decode_lossy(units@),
{
    let n: usize = units.len();
    let mut s: String = String::new();
    let mut i: usize = 0;
    assert(units@.skip(0) =~= units@);
    assert(s@ + decode_lossy(units@) =~= decode_lossy(units@));
    while i < n
        invariant
            n == units@.len(),
            i <= n,
            decode_lossy(units@) == s@ + decode_lossy(units@.skip(i as int)),
        decreases n - i,
    {
        let ghost rest = units@.skip(i as int);
        let unit: u16 = units[i];
        assert(rest[0] == unit);
        let mut width: usize = 1;
        let mut c: char = REPLACEMENT_CHARACTER;
        if unit < 0xD800 || unit > 0xDFFF {
            let v: u32 = unit as u32;
            match char::from_u32(v) {
                Some(decoded) => {
                    c = decoded;
                },
                None => {},
            }
        } else if unit <= 0xDBFF && i + 1 < n {
            let low: u16 = units[i + 1];
            assert(rest[1] == low);
            if 0xDC00 <= low && low <= 0xDFFF {
                let v: u32 = 0x10000 + (unit as u32 - 0xD800) * 0x400 + (low as u32 - 0xDC00);
                match char::from_u32(v) {
                    Some(decoded) => {
                        c = decoded;
                    },
                    None => {},
                }
                width = 2;
            }
        }
        assert(c == first_char(rest));
        assert(width == first_width(rest));
        proof {
            assert(rest.skip(width as int) =~= units@.skip(i as int + width as int));
            assert(s@.push(c) + decode_lossy(rest.skip(width as int)) =~= s@ + (seq![c]
                + decode_lossy(rest.skip(width as int))));
        }
        s.push(c);
        i = i + width;
    }
    assert(units@.skip(n as int) =~= Seq::<u16>::empty());
    assert(s@ + Seq::<char>::empty() =~= s@);
    s
}

/// Encoding a string that ends in `c` appends the code units of `c`.
pub proof fn lemma_encode_push(s: Seq<char>, c: char)
    ensures
        encode(s.push(c)) == encode(s) + encode_char(c),
    decreases s.len(),
{
    if s.len() == 0 {
        assert(s.push(c).drop_first() =~= s);
        assert(encode(s.push(c)) =~= encode_char(c) + encode(s));
        assert(encode(s) + encode_char(c) =~= encode_char(c) + encode(s));
    } else {
        lemma_encode_push(s.drop_first(), c);
        assert(s.push(c).drop_first() =~= s.drop_first().push(c));
        assert(s.push(c)[0] == s[0]);
        assert(encode(s.push(c)) =~= encode(s) + encode_char(c));
    }
}

/// Decoding the code units of `c` followed by `rest` gives `c` followed by
/// what `rest` decodes to.
pub proof fn lemma_decode_char(c: char, rest: Seq<u16>)
    ensures
        decode_lossy(encode_char(c) + rest) == seq![c] + decode_lossy(rest),
{
    let units = encode_char(c) + rest;
    let v = c as u32 as int;
    if v < 0x10000 {
        assert(units[0] == v as u16);
        assert(!is_surrogate(units[0]));
        assert(first_char(units) == c);
        assert(units.skip(1) =~= rest);
    } else {
        let high = (0xD800 + (v - 0x10000) / 0x400) as u16;
        let low = (0xDC00 + (v - 0x10000) % 0x400) as u16;
        assert(units[0] == high);
        assert(units[1] == low);
        assert(0x10000 + (high - 0xD800) * 0x400 + (low - 0xDC00) == v);
        assert(combine(high, low) == c);
        assert(units.skip(2) =~= rest);
    }
}

/// Decoding what a string encodes to gives the string back, whatever
/// characters it holds.
pub proof fn lemma_decode_encode(s: Seq<char>)
    ensures
        decode_lossy(encode(s)) == s,
    decreases s.len(),
{
    if s.len() == 0 {
        assert(decode_lossy(encode(s)) =~= s);
    } else {
        lemma_decode_encode(s.drop_first());
        lemma_decode_char(s[0], encode(s.drop_first()));
        assert(seq![s[0]] + s.drop_first() =~= s);
    }
}

} // verus!
