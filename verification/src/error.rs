//! Migration errors and their messages.

use vstd::prelude::*;
use vstd::utf8::*;
use vstd::string::*;
use crate::text::{decimal, lemma_decimal_digits, push_decimal, push_str_bytes, string_of_encoded};

verus! {

/// Migration/import errors.
#[derive(Debug, Clone, PartialEq, Eq)]
pub enum MigrationError {
    IncompatibleVersion { found: u32, min: u32, max: u32 },
    ChecksumMismatch,
    PayloadTooLarge { size: usize, max: usize },
    SnapshotTooLarge { size: usize, max: usize },
    TooManyRecords { count: usize, max: usize },
    InvalidFormat(String),
    ValidationFailed(String),
    DeserializeError(String),
}

/// The decimal digits of `n`, as characters.
pub open spec fn decimal_text(n: nat) -> Seq<char> {
    decimal(n).map_values(|b: u8| b as char)
}

/// The human-readable message of an error.
pub open spec fn message_text(e: MigrationError) -> Seq<char> {
    match e {
        MigrationError::IncompatibleVersion { found, min, max } => "incompatible version "@
            + decimal_text(found as nat) + " (supported "@ + decimal_text(min as nat) + "-"@
            + decimal_text(max as nat) + ")"@,
        MigrationError::ChecksumMismatch => "checksum mismatch"@,
        MigrationError::PayloadTooLarge { size, max } => "payload too large: "@ + decimal_text(size as nat)
            + " bytes (max "@ + decimal_text(max as nat) + ")"@,
        MigrationError::SnapshotTooLarge { size, max } => "snapshot too large: "@ + decimal_text(
            size as nat,
        ) + " bytes (max "@ + decimal_text(max as nat) + ")"@,
        MigrationError::TooManyRecords { count, max } => "too many records: "@ + decimal_text(count as nat)
            + " (max "@ + decimal_text(max as nat) + ")"@,
        MigrationError::InvalidFormat(s) => "invalid format: "@ + s@,
        MigrationError::ValidationFailed(s) => "validation failed: "@ + s@,
        MigrationError::DeserializeError(s) => "deserialize error: "@ + s@,
    }
}

proof fn lemma_encode_utf8_concat(a: Seq<char>, b: Seq<char>)
    ensures
        encode_utf8(a + b) == encode_utf8(a) + encode_utf8(b),
    decreases a.len(),
{
    if a.len() == 0 {
        assert(a + b =~= b);
    } else {
        assert((a + b).drop_first() =~= a.drop_first() + b);
        lemma_encode_utf8_concat(a.drop_first(), b);
        assert((a + b)[0] == a[0]);
    }
}

proof fn lemma_decimal_text_bytes(n: nat)
    ensures
        encode_utf8(decimal_text(n)) == decimal(n),
{
    lemma_decimal_digits(n);
    let t = decimal_text(n);
    assert(is_ascii_chars(t));
    vstd::utf8::is_ascii_chars_encode_utf8(t);
    assert(encode_utf8(t) =~= decimal(n));
}

fn push_text(out: &mut Vec<u8>, s: &str, Ghost(text): Ghost<Seq<char>>)
    requires
        old(out)@ == encode_utf8(text),
    ensures
        final(out)@ == encode_utf8(text + s@),
{
    push_str_bytes(out, s);
    proof {
        lemma_encode_utf8_concat(text, s@);
    }
}

fn push_number(out: &mut Vec<u8>, n: u64, Ghost(text): Ghost<Seq<char>>)
    requires
        old(out)@ == encode_utf8(text),
    ensures
        final(out)@ == encode_utf8(text + decimal_text(n as nat)),
{
    push_decimal(out, n);
    proof {
        lemma_decimal_text_bytes(n as nat);
        lemma_encode_utf8_concat(text, decimal_text(n as nat));
    }
}

fn sized_message(prefix: &str, size: u64, middle: &str, max: u64) -> (r: String)
    ensures
        r@ == prefix@ + decimal_text(size as nat) + middle@ + decimal_text(max as nat) + ")"@,
{
    let mut out: Vec<u8> = Vec::new();
    assert(out@ =~= encode_utf8(Seq::<char>::empty()));
    push_text(&mut out, prefix, Ghost(Seq::<char>::empty()));
    let ghost t1 = Seq::<char>::empty() + prefix@;
    push_number(&mut out, size, Ghost(t1));
    let ghost t2 = t1 + decimal_text(size as nat);
    push_text(&mut out, middle, Ghost(t2));
    let ghost t3 = t2 + middle@;
    push_number(&mut out, max, Ghost(t3));
    let ghost t4 = t3 + decimal_text(max as nat);
    push_text(&mut out, ")", Ghost(t4));
    let ghost t5 = t4 + ")"@;
    assert(t5 =~= prefix@ + decimal_text(size as nat) + middle@ + decimal_text(max as nat) + ")"@);
    string_of_encoded(out, Ghost(t5))
}

fn prefixed_message(prefix: &str, s: &String) -> (r: String)
    ensures
        r@ == prefix@ + s@,
{
    let mut out: Vec<u8> = Vec::new();
    assert(out@ =~= encode_utf8(Seq::<char>::empty()));
    push_text(&mut out, prefix, Ghost(Seq::<char>::empty()));
    let ghost t1 = Seq::<char>::empty() + prefix@;
    push_text(&mut out, s.as_str(), Ghost(t1));
    assert(t1 + s@ =~= prefix@ + s@);
    string_of_encoded(out, Ghost(prefix@ + s@))
}

impl MigrationError {
    /// The human-readable message of this error.
    pub fn message(&self) -> (r: String)
        ensures
            r@ == message_text(*self),
    {
        match self {
            MigrationError::IncompatibleVersion { found, min, max } => {
                let mut out: Vec<u8> = Vec::new();
                assert(out@ =~= encode_utf8(Seq::<char>::empty()));
                push_text(&mut out, "incompatible version ", Ghost(Seq::<char>::empty()));
                let ghost t1 = Seq::<char>::empty() + "incompatible version "@;
                push_number(&mut out, *found as u64, Ghost(t1));
                let ghost t2 = t1 + decimal_text(*found as nat);
                push_text(&mut out, " (supported ", Ghost(t2));
                let ghost t3 = t2 + " (supported "@;
                push_number(&mut out, *min as u64, Ghost(t3));
                let ghost t4 = t3 + decimal_text(*min as nat);
                push_text(&mut out, "-", Ghost(t4));
                let ghost t5 = t4 + "-"@;
                push_number(&mut out, *max as u64, Ghost(t5));
                let ghost t6 = t5 + decimal_text(*max as nat);
                push_text(&mut out, ")", Ghost(t6));
                let ghost t7 = t6 + ")"@;
                assert(t7 =~= message_text(*self));
                string_of_encoded(out, Ghost(t7))
            },
            MigrationError::ChecksumMismatch => String::from_str("checksum mismatch"),
            MigrationError::PayloadTooLarge { size, max } => sized_message(
                "payload too large: ",
                *size as u64,
                " bytes (max ",
                *max as u64,
            ),
            MigrationError::SnapshotTooLarge { size, max } => sized_message(
                "snapshot too large: ",
                *size as u64,
                " bytes (max ",
                *max as u64,
            ),
            MigrationError::TooManyRecords { count, max } => sized_message(
                "too many records: ",
                *count as u64,
                " (max ",
                *max as u64,
            ),
            MigrationError::InvalidFormat(s) => prefixed_message("invalid format: ", s),
            MigrationError::ValidationFailed(s) => prefixed_message("validation failed: ", s),
            MigrationError::DeserializeError(s) => prefixed_message("deserialize error: ", s),
        }
    }
}

} // verus!
