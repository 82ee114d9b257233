//! The textual program format: a sequence of `0xHH` hexadecimal byte
//! literals separated by whitespace, commas, semicolons or brackets.
//!
//! The scanner turns such text into the byte sequence it denotes, and
//! rejects malformed text with the position of the offending byte — a
//! parse error is reported to the caller, never silently substituted.

use vstd::prelude::*;

verus! {

/// Which loader a host should use for a program image.
#[derive(Copy, Clone, PartialEq, Eq, Structural, Debug)]
pub enum LoaderType {
    /// Detect the encoding by scanning the bytes.
    Auto,
    /// The textual hex-literal format.
    Hex,
    /// A raw binary image.
    Binary,
}

/// A source of program bytes; the host implements it over its storage.
pub trait Loader {
    fn get_bytes(&mut self) -> Vec<u8>;
}

/// Malformed textual input: the scan failed at byte offset `at`.
#[derive(Copy, Clone, PartialEq, Eq, Structural, Debug)]
pub struct ParseError {
    pub at: usize,
}

/// The separator bytes of the textual format: whitespace, comma,
/// semicolon and brackets.
pub open spec fn is_ws(b: u8) -> bool {
    b == 0x20 || b == 0x0D || b == 0x0A || b == 0x09 || b == 0x5B || b == 0x5D || b == 0x2C || b
        == 0x3B
}

/// A hexadecimal digit in either case.
pub open spec fn is_hex_digit(b: u8) -> bool {
    (0x30 <= b && b <= 0x39) || (0x41 <= b && b <= 0x46) || (0x61 <= b && b <= 0x66)
}

/// The value of a hexadecimal digit byte.
pub open spec fn hex_digit_val(b: u8) -> int {
    if 0x30 <= b && b <= 0x39 {
        b - 0x30
    } else if 0x41 <= b && b <= 0x46 {
        b - 0x41 + 10
    } else {
        b - 0x61 + 10
    }
}

/// Whether position `k` starts a well-formed byte literal: `0x` or `0X`,
/// two hexadecimal digits, and then a separator or the end of the input.
pub open spec fn literal_at(s: Seq<u8>, k: int) -> bool {
    &&& k + 4 <= s.len()
    &&& s[k] == 0x30
    &&& (s[k + 1] == 0x78 || s[k + 1] == 0x58)
    &&& is_hex_digit(s[k + 2])
    &&& is_hex_digit(s[k + 3])
    &&& (k + 4 == s.len() || is_ws(s[k + 4]))
}

/// The byte a literal at position `k` denotes.
pub open spec fn literal_val(s: Seq<u8>, k: int) -> u8 {
    (hex_digit_val(s[k + 2]) * 16 + hex_digit_val(s[k + 3])) as u8
}

/// The bytes the text denotes from position `k` on: separators are
/// skipped, each byte literal contributes its value, and anything else
/// makes the whole text malformed (`None`).
pub open spec fn spec_items(s: Seq<u8>, k: int) -> Option<Seq<u8>>
    decreases s.len() - k,
{
    if k < 0 || k >= s.len() {
        Some(Seq::empty())
    } else if is_ws(s[k]) {
        spec_items(s, k + 1)
    } else if literal_at(s, k) {
        match spec_items(s, k + 4) {
            Some(rest) => Some(seq![literal_val(s, k)] + rest),
            None => None,
        }
    } else {
        None
    }
}

/// What a whole text denotes, or `None` when it is malformed.
pub open spec fn spec_parse(s: Seq<u8>) -> Option<Seq<u8>> {
    spec_items(s, 0)
}

/// The value of one hexadecimal digit character.
pub open spec fn spec_hexval(c: char) -> int {
    hex_digit_val(c as u8)
}

/// The value of a hexadecimal digit character.
pub fn hexval(c: char) -> (r: u8)
    requires
        is_hex_digit(c as u8),
    ensures
        r as int == spec_hexval(c),
{
    let b = c as u8;
    if b <= 0x39 {
        b - 0x30
    } else if b <= 0x46 {
        b - 0x41 + 10
    } else {
        b - 0x61 + 10
    }
}

/// Whether `b` separates tokens of the textual format.
fn ws_exec(b: u8) -> (r: bool)
    ensures
        r == is_ws(b),
{
    b == 0x20 || b == 0x0D || b == 0x0A || b == 0x09 || b == 0x5B || b == 0x5D || b == 0x2C || b
        == 0x3B
}

/// Whether `b` is a hexadecimal digit.
fn hex_digit_exec(b: u8) -> (r: bool)
    ensures
        r == is_hex_digit(b),
{
    (0x30 <= b && b <= 0x39) || (0x41 <= b && b <= 0x46) || (0x61 <= b && b <= 0x66)
}

/// The value of a hexadecimal digit byte.
fn hex_digit_val_exec(b: u8) -> (r: u8)
    requires
        is_hex_digit(b),
    ensures
        r as int == hex_digit_val(b),
{
    if b <= 0x39 {
        b - 0x30
    } else if b <= 0x46 {
        b - 0x41 + 10
    } else {
        b - 0x61 + 10
    }
}

/// Scans a textual program: returns exactly the bytes the text denotes,
/// or the offset at which it is malformed — `Ok` if and only if the text
/// is in the hex-literal format.
pub fn parse(input: &[u8]) -> (r: Result<Vec<u8>, ParseError>)
    ensures
        (r matches Ok(v) ==> spec_parse(input@) == Some(v@)),
        (r is Err <==> spec_parse(input@) is None),
        (r matches Err(e) ==> !is_ws(input@[e.at as int]) && !literal_at(input@, e.at as int)),
{
    let n = input.len();
    let mut out: Vec<u8> = Vec::new();
    let mut k: usize = 0;
    while k < n
        invariant
            n == input@.len(),
            k <= n,
            (spec_items(input@, k as int) matches Some(rest) ==> spec_items(input@, 0) == Some(
                out@ + rest,
            )),
            (spec_items(input@, k as int) is None ==> spec_items(input@, 0) is None),
        decreases n - k,
    {
        let b = input[k];
        if ws_exec(b) {
            k += 1;
        } else if n - k >= 4 && b == 0x30 && (input[k + 1] == 0x78 || input[k + 1] == 0x58)
            && hex_digit_exec(input[k + 2]) && hex_digit_exec(input[k + 3]) && (k + 4 == n
            || ws_exec(input[k + 4])) {
            let hi = hex_digit_val_exec(input[k + 2]);
            let lo = hex_digit_val_exec(input[k + 3]);
            let ghost out0 = out@;
            out.push(hi * 16 + lo);
            proof {
                assert(literal_at(input@, k as int));
                assert(hi * 16 + lo == literal_val(input@, k as int));
                if spec_items(input@, k + 4) is Some {
                    let rest = spec_items(input@, k + 4)->Some_0;
                    assert(out0 + (seq![literal_val(input@, k as int)] + rest) =~= out@ + rest);
                }
            }
            k += 4;
        } else {
            proof {
                assert(spec_items(input@, k as int) is None);
            }
            return Err(ParseError { at: k });
        }
    }
    proof {
        assert(spec_items(input@, n as int) == Some(Seq::<u8>::empty()));
        assert(out@ + Seq::<u8>::empty() =~= out@);
    }
    Ok(out)
}

/// The characters the textual format can contain at all: digits, the two
/// literal prefixes, and separators.
pub open spec fn is_hex_text_byte(b: u8) -> bool {
    is_hex_digit(b) || b == 0x78 || b == 0x58 || is_ws(b)
}

/// Whether a program image looks like the textual format: every byte is
/// drawn from the hex-literal character set.  A host uses this to choose
/// between the text and binary loaders.
pub fn is_hex_text(data: &[u8]) -> (r: bool)
    ensures
        r == (forall|j: int| 0 <= j < data@.len() ==> is_hex_text_byte(#[trigger] data@[j])),
{
    let n = data.len();
    let mut k: usize = 0;
    while k < n
        invariant
            n == data@.len(),
            k <= n,
            forall|j: int| 0 <= j < k ==> is_hex_text_byte(#[trigger] data@[j]),
        decreases n - k,
    {
        let b = data[k];
        if !(hex_digit_exec(b) || b == 0x78 || b == 0x58 || ws_exec(b)) {
            return false;
        }
        k += 1;
    }
    true
}

} // verus!
