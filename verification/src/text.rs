//! Byte-level text encoders: decimal numbers, lowercase hexadecimal and
//! JSON string literals, all producing UTF-8 bytes.

use vstd::prelude::*;
use vstd::utf8::*;
use vstd::string::*;

verus! {

broadcast use {vstd::utf8::is_ascii_chars_encode_utf8, vstd::utf8::encode_utf8_decode_utf8};

/// ASCII code of `"`.
pub const QUOTE: u8 = 34;

/// ASCII code of `\`.
pub const BACKSLASH: u8 = 92;

/// ASCII code of `0`.
pub const DIGIT_ZERO: u8 = 48;

/// ASCII code of `-`.
pub const MINUS: u8 = 45;

// ---------------------------------------------------------------------------
// Appending bytes
// ---------------------------------------------------------------------------

/// Appends the UTF-8 bytes of `s` to `out`.
pub fn push_str_bytes(out: &mut Vec<u8>, s: &str)
    ensures
        final(out)@ == old(out)@ + s.spec_bytes(),
{
    let b = s.as_bytes();
    out.extend_from_slice(b);
    assert(out@ =~= old(out)@ + s.spec_bytes());
}

/// Appends all of `bytes` to `out`.
pub fn push_bytes(out: &mut Vec<u8>, bytes: &[u8])
    ensures
        final(out)@ == old(out)@ + bytes@,
{
    out.extend_from_slice(bytes);
    assert(out@ =~= old(out)@ + bytes@);
}

// ---------------------------------------------------------------------------
// Decimal numbers
// ---------------------------------------------------------------------------

/// The ASCII decimal digits of `n`, most significant first, no leading zeros.
pub open spec fn decimal(n: nat) -> Seq<u8>
    decreases n,
{
    if n < 10 {
        seq![(DIGIT_ZERO + n) as u8]
    } else {
        decimal(n / 10).push((DIGIT_ZERO + n % 10) as u8)
    }
}

/// The ASCII decimal form of a signed integer: a `-` before the digits of
/// its magnitude when it is negative.
pub open spec fn signed_decimal(v: int) -> Seq<u8> {
    if v < 0 {
        seq![MINUS] + decimal((-v) as nat)
    } else {
        decimal(v as nat)
    }
}

/// Every byte of a decimal is an ASCII digit.
pub proof fn lemma_decimal_digits(n: nat)
    ensures
        decimal(n).len() >= 1,
        forall|i: int| 0 <= i < decimal(n).len() ==> DIGIT_ZERO <= #[trigger] decimal(n)[i] < DIGIT_ZERO + 10,
    decreases n,
{
    if n >= 10 {
        lemma_decimal_digits(n / 10);
    }
}

/// Appends the decimal digits of `n`.
pub fn push_decimal(out: &mut Vec<u8>, n: u64)
    ensures
        final(out)@ == old(out)@ + decimal(n as nat),
    decreases n,
{
    if n >= 10 {
        push_decimal(out, n / 10);
    }
    out.push(DIGIT_ZERO + (n % 10) as u8);
    assert(out@ =~= old(out)@ + decimal(n as nat));
}

/// Appends the decimal form of the signed integer `v`.
pub fn push_signed_decimal(out: &mut Vec<u8>, v: i64)
    ensures
        final(out)@ == old(out)@ + signed_decimal(v as int),
{
    if v < 0 {
        out.push(MINUS);
        let magnitude: u64 = (0i128 - v as i128) as u64;
        push_decimal(out, magnitude);
        assert(out@ =~= old(out)@ + signed_decimal(v as int));
    } else {
        push_decimal(out, v as u64);
    }
}

/// The ASCII form of a boolean: `true` or `false`.
pub open spec fn bool_text(b: bool) -> Seq<u8> {
    if b {
        "true".spec_bytes()
    } else {
        "false".spec_bytes()
    }
}

/// Appends `true` or `false`.
pub fn push_bool(out: &mut Vec<u8>, b: bool)
    ensures
        final(out)@ == old(out)@ + bool_text(b),
{
    if b {
        push_str_bytes(out, "true");
    } else {
        push_str_bytes(out, "false");
    }
}

// ---------------------------------------------------------------------------
// Hexadecimal
// ---------------------------------------------------------------------------

/// The lowercase hexadecimal digit of a nibble `n < 16`.
pub open spec fn hex_digit(n: u8) -> u8 {
    if n < 10 {
        (DIGIT_ZERO + n) as u8
    } else {
        (87 + n) as u8
    }
}

/// Two lowercase hexadecimal digits per byte, high nibble first.
pub open spec fn hex_bytes(s: Seq<u8>) -> Seq<u8>
    decreases s.len(),
{
    if s.len() == 0 {
        Seq::empty()
    } else {
        hex_bytes(s.drop_last()) + seq![hex_digit(s.last() / 16), hex_digit(s.last() % 16)]
    }
}

/// The lowercase hexadecimal text of `s`, as characters.
pub open spec fn hex_text(s: Seq<u8>) -> Seq<char> {
    Seq::new(hex_bytes(s).len(), |i: int| hex_bytes(s)[i] as char)
}

proof fn lemma_hex_bytes_shape(s: Seq<u8>)
    ensures
        hex_bytes(s).len() == 2 * s.len(),
        forall|i: int|
            0 <= i < hex_bytes(s).len() ==> (48 <= #[trigger] hex_bytes(s)[i] < 58 || 97
                <= hex_bytes(s)[i] < 103),
    decreases s.len(),
{
    if s.len() > 0 {
        lemma_hex_bytes_shape(s.drop_last());
    }
}

/// The hexadecimal text is ASCII and its UTF-8 bytes are the digit bytes.
pub proof fn lemma_hex_text_bytes(s: Seq<u8>)
    ensures
        is_ascii_chars(hex_text(s)),
        encode_utf8(hex_text(s)) == hex_bytes(s),
        hex_text(s).len() == 2 * s.len(),
{
    lemma_hex_bytes_shape(s);
    let t = hex_text(s);
    assert(is_ascii_chars(t));
    assert(encode_utf8(t) =~= hex_bytes(s));
}

/// `String::from_utf8`: std documents that it succeeds exactly when the
/// bytes are valid UTF-8, and that the string then holds those bytes.
#[verifier::external_body]
pub(crate) fn string_from_utf8(bytes: Vec<u8>) -> (r: Option<String>)
    ensures
        r is Some <==> valid_utf8(bytes@),
        r matches Some(s) ==> encode_utf8(s@) == bytes@,
{
    String::from_utf8(bytes).ok()
}

/// Turns bytes known to be the UTF-8 encoding of `text` into a `String`.
pub(crate) fn string_of_encoded(bytes: Vec<u8>, Ghost(text): Ghost<Seq<char>>) -> (r: String)
    requires
        bytes@ == encode_utf8(text),
    ensures
        r@ == text,
{
    proof {
        vstd::utf8::encode_utf8_valid_utf8(text);
    }
    match string_from_utf8(bytes) {
        Some(s) => {
            proof {
                vstd::utf8::encode_utf8_decode_utf8(s@);
                vstd::utf8::encode_utf8_decode_utf8(text);
            }
            s
        },
        None => {
            proof {
                assert(false);
            }
            String::new()
        },
    }
}

/// Appends the hexadecimal digits of `bytes`.
pub fn push_hex(out: &mut Vec<u8>, bytes: &[u8])
    ensures
        final(out)@ == old(out)@ + hex_bytes(bytes@),
{
    let n = bytes.len();
    let mut i: usize = 0;
    while i < n
        invariant
            n == bytes@.len(),
            i <= n,
            out@ == old(out)@ + hex_bytes(bytes@.subrange(0, i as int)),
        decreases n - i,
    {
        let b = bytes[i];
        let hi = b / 16;
        let lo = b % 16;
        let hd: u8 = if hi < 10 { DIGIT_ZERO + hi } else { 87 + hi };
        let ld: u8 = if lo < 10 { DIGIT_ZERO + lo } else { 87 + lo };
        out.push(hd);
        out.push(ld);
        proof {
            let pre = bytes@.subrange(0, i as int);
            let next = bytes@.subrange(0, i + 1);
            assert(next.drop_last() =~= pre);
            assert(next.last() == b);
        }
        i = i + 1;
        assert(out@ =~= old(out)@ + hex_bytes(bytes@.subrange(0, i as int)));
    }
    assert(bytes@.subrange(0, n as int) =~= bytes@);
}

/// Encodes bytes as a lowercase hexadecimal string.
pub fn encode(bytes: &[u8]) -> (r: String)
    ensures
        r@ == hex_text(bytes@),
{
    let mut out: Vec<u8> = Vec::new();
    push_hex(&mut out, bytes);
    proof {
        lemma_hex_text_bytes(bytes@);
        assert(out@ =~= hex_bytes(bytes@));
    }
    string_of_encoded(out, Ghost(hex_text(bytes@)))
}

// ---------------------------------------------------------------------------
// JSON string literals
// ---------------------------------------------------------------------------

/// The JSON escape of one byte of UTF-8 text: `"` and `\` are
/// backslash-escaped, the control bytes with a short escape use it, the other
/// control bytes become `\u00XX` with lowercase hex, and every other byte
/// (including the bytes of multi-byte characters) is kept.
pub open spec fn json_escape_byte(b: u8) -> Seq<u8> {
    if b == QUOTE {
        seq![BACKSLASH, QUOTE]
    } else if b == BACKSLASH {
        seq![BACKSLASH, BACKSLASH]
    } else if b == 8 {
        seq![BACKSLASH, 98u8]
    } else if b == 9 {
        seq![BACKSLASH, 116u8]
    } else if b == 10 {
        seq![BACKSLASH, 110u8]
    } else if b == 12 {
        seq![BACKSLASH, 102u8]
    } else if b == 13 {
        seq![BACKSLASH, 114u8]
    } else if b < 32 {
        seq![BACKSLASH, 117u8, DIGIT_ZERO, DIGIT_ZERO, hex_digit(b / 16), hex_digit(b % 16)]
    } else {
        seq![b]
    }
}

/// The JSON escape of UTF-8 text, byte by byte.
pub open spec fn json_escape(s: Seq<u8>) -> Seq<u8>
    decreases s.len(),
{
    if s.len() == 0 {
        Seq::empty()
    } else {
        json_escape(s.drop_last()) + json_escape_byte(s.last())
    }
}

/// A JSON string literal holding the UTF-8 text `s`.
pub open spec fn json_string(s: Seq<u8>) -> Seq<u8> {
    seq![QUOTE] + json_escape(s) + seq![QUOTE]
}

fn push_json_escape_byte(out: &mut Vec<u8>, b: u8)
    ensures
        final(out)@ == old(out)@ + json_escape_byte(b),
{
    if b == QUOTE {
        out.push(BACKSLASH);
        out.push(QUOTE);
    } else if b == BACKSLASH {
        out.push(BACKSLASH);
        out.push(BACKSLASH);
    } else if b == 8 {
        out.push(BACKSLASH);
        out.push(98);
    } else if b == 9 {
        out.push(BACKSLASH);
        out.push(116);
    } else if b == 10 {
        out.push(BACKSLASH);
        out.push(110);
    } else if b == 12 {
        out.push(BACKSLASH);
        out.push(102);
    } else if b == 13 {
        out.push(BACKSLASH);
        out.push(114);
    } else if b < 32 {
        let hi = b / 16;
        let lo = b % 16;
        let hd: u8 = if hi < 10 { DIGIT_ZERO + hi } else { 87 + hi };
        let ld: u8 = if lo < 10 { DIGIT_ZERO + lo } else { 87 + lo };
        out.push(BACKSLASH);
        out.push(117);
        out.push(DIGIT_ZERO);
        out.push(DIGIT_ZERO);
        out.push(hd);
        out.push(ld);
    } else {
        out.push(b);
    }
    assert(out@ =~= old(out)@ + json_escape_byte(b));
}

/// Appends the JSON string literal of the text `s`.
pub fn push_json_string(out: &mut Vec<u8>, s: &str)
    ensures
        final(out)@ == old(out)@ + json_string(s.spec_bytes()),
{
    let bytes = s.as_bytes();
    let n = bytes.len();
    out.push(QUOTE);
    let mut i: usize = 0;
    while i < n
        invariant
            n == bytes@.len(),
            bytes@ == s.spec_bytes(),
            i <= n,
            out@ == old(out)@ + seq![QUOTE] + json_escape(bytes@.subrange(0, i as int)),
        decreases n - i,
    {
        let b = bytes[i];
        push_json_escape_byte(out, b);
        proof {
            let next = bytes@.subrange(0, i + 1);
            assert(next.drop_last() =~= bytes@.subrange(0, i as int));
            assert(next.last() == b);
        }
        i = i + 1;
        assert(out@ =~= old(out)@ + seq![QUOTE] + json_escape(bytes@.subrange(0, i as int)));
    }
    out.push(QUOTE);
    assert(bytes@.subrange(0, n as int) =~= bytes@);
    assert(out@ =~= old(out)@ + json_string(s.spec_bytes()));
}

} // verus!
