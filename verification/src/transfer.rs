//! Transfer formats besides the JSON and binary envelopes: base64 text for
//! payloads that the caller encrypts, and CSV for savings goals.

use vstd::prelude::*;
use vstd::utf8::*;
use vstd::string::*;
use base64::Engine;
use crate::limits::{
    MAX_MIGRATION_PAYLOAD_BYTES, MAX_MIGRATION_RECORDS, MAX_ENCRYPTED_PAYLOAD_BYTES,
    base64_padded_len,
};
use crate::error::MigrationError;
use crate::model::{SavingsGoalExport, SavingsGoalsExport};
use crate::text::{
    decimal, signed_decimal, bool_text, push_str_bytes, push_decimal, push_signed_decimal,
    push_bool,
};
use crate::canonical::{goals_export_json, goals_export_json_declared, join_commas};
use crate::snapshot::{payload_bounds_result, validate_payload_bounds, validate_encrypted_payload_size};

verus! {

// ---------------------------------------------------------------------------
// base64 (standard alphabet, padded)
// ---------------------------------------------------------------------------

/// The character of a six-bit value in the standard base64 alphabet:
/// `A`-`Z`, `a`-`z`, `0`-`9`, `+`, `/`.
pub open spec fn base64_digit(v: int) -> char {
    if v < 26 {
        (65 + v) as char
    } else if v < 52 {
        (97 + (v - 26)) as char
    } else if v < 62 {
        (48 + (v - 52)) as char
    } else if v == 62 {
        '+'
    } else {
        '/'
    }
}

/// The four characters of a group of `n` bytes (one to three; the missing
/// bytes given as zero): the 24 bits in four six-bit digits, the digits that
/// hold no input bit replaced by `=`.
pub open spec fn base64_group(b0: u8, b1: u8, b2: u8, n: int) -> Seq<char> {
    let v = b0 as int * 65536 + b1 as int * 256 + b2 as int;
    seq![
        base64_digit(v / 262144),
        base64_digit((v / 4096) % 64),
        if n >= 2 { base64_digit((v / 64) % 64) } else { '=' },
        if n >= 3 { base64_digit(v % 64) } else { '=' },
    ]
}

/// The padded standard-alphabet base64 text of `bytes` (RFC 4648, section
/// 4): one group of four characters for every three bytes, the last group
/// padded with `=`.
pub open spec fn base64_encode(bytes: Seq<u8>) -> Seq<char>
    decreases bytes.len(),
{
    if bytes.len() == 0 {
        Seq::empty()
    } else if bytes.len() == 1 {
        base64_group(bytes[0], 0, 0, 1)
    } else if bytes.len() == 2 {
        base64_group(bytes[0], bytes[1], 0, 2)
    } else {
        base64_group(bytes[0], bytes[1], bytes[2], 3) + base64_encode(bytes.subrange(3, bytes.len() as int))
    }
}

proof fn lemma_base64_digit_ascii(v: int)
    requires
        0 <= v < 64,
    ensures
        '\0' <= base64_digit(v) <= '\u{7f}',
{
}

proof fn lemma_base64_group_ascii(b0: u8, b1: u8, b2: u8, n: int)
    ensures
        is_ascii_chars(base64_group(b0, b1, b2, n)),
        base64_group(b0, b1, b2, n).len() == 4,
{
    let v = b0 as int * 65536 + b1 as int * 256 + b2 as int;
    assert(0 <= v < 16777216);
    lemma_base64_digit_ascii(v / 262144);
    lemma_base64_digit_ascii((v / 4096) % 64);
    lemma_base64_digit_ascii((v / 64) % 64);
    lemma_base64_digit_ascii(v % 64);
}

/// Base64 text is ASCII, four characters for every started group of three
/// bytes.
pub proof fn lemma_base64_encode_shape(bytes: Seq<u8>)
    ensures
        is_ascii_chars(base64_encode(bytes)),
        base64_encode(bytes).len() == base64_padded_len(bytes.len()),
    decreases bytes.len(),
{
    if bytes.len() == 0 {
    } else if bytes.len() == 1 {
        lemma_base64_group_ascii(bytes[0], 0, 0, 1);
    } else if bytes.len() == 2 {
        lemma_base64_group_ascii(bytes[0], bytes[1], 0, 2);
    } else {
        let rest = bytes.subrange(3, bytes.len() as int);
        lemma_base64_group_ascii(bytes[0], bytes[1], bytes[2], 3);
        lemma_base64_encode_shape(rest);
        let g = base64_group(bytes[0], bytes[1], bytes[2], 3);
        let t = base64_encode(rest);
        assert forall|i: int| 0 <= i < (g + t).len() implies '\0' <= #[trigger] (g + t)[i] <= '\u{7f}' by {
            if i < 4 {
                assert((g + t)[i] == g[i]);
            } else {
                assert((g + t)[i] == t[i - 4]);
            }
        }
    }
}

/// The bytes that the padded standard-alphabet base64 text `text` decodes
/// to, or, when it is not canonical padded base64, the display text of the
/// decoding error (which names the offending offset, byte or length).
pub uninterp spec fn base64_decode(text: Seq<u8>) -> Result<Seq<u8>, Seq<char>>;

/// `base64::engine::general_purpose::STANDARD.encode`: padded base64 with the
/// standard alphabet. It panics only when the length of its output (four
/// characters for every started group of three input bytes) does not fit in
/// `usize`.
#[verifier::external_body]
fn base64_standard_encode(bytes: &[u8]) -> (r: String)
    requires
        base64_padded_len(bytes@.len()) <= usize::MAX,
    ensures
        r@ == base64_encode(bytes@),
{
    base64::engine::general_purpose::STANDARD.encode(bytes)
}

/// `base64::engine::general_purpose::STANDARD.decode`: succeeds exactly on
/// canonical padded standard base64 (no trailing bits, canonical padding),
/// with the decoded bytes. The text that `encode` gives for some bytes
/// decodes to those bytes. The error is returned as its display text, which
/// depends only on the input.
#[verifier::external_body]
fn base64_standard_decode(text: &str) -> (r: Result<Vec<u8>, String>)
    ensures
        r is Ok <==> base64_decode(text.spec_bytes()) is Ok,
        r is Ok ==> base64_decode(text.spec_bytes()) == Ok::<Seq<u8>, Seq<char>>(r->Ok_0@),
        r is Err ==> base64_decode(text.spec_bytes()) == Err::<Seq<u8>, Seq<char>>(r->Err_0@),
        forall|b: Seq<u8>| #[trigger] base64_encode(b) == text@ ==> r is Ok && r->Ok_0@ == b,
{
    base64::engine::general_purpose::STANDARD.decode(text).map_err(|e| e.to_string())
}

/// Encrypted format: store the base64-encoded payload (the caller encrypts
/// before passing it).
pub fn export_to_encrypted_payload(plain_bytes: &[u8]) -> (r: Result<String, MigrationError>)
    ensures
        r is Ok <==> plain_bytes@.len() <= MAX_MIGRATION_PAYLOAD_BYTES,
        r matches Ok(s) ==> s@ == base64_encode(plain_bytes@) && encode_utf8(s@).len()
            == base64_padded_len(plain_bytes@.len()),
        r is Err ==> r == Err::<String, MigrationError>(
            MigrationError::PayloadTooLarge {
                size: plain_bytes@.len() as usize,
                max: MAX_MIGRATION_PAYLOAD_BYTES,
            },
        ),
{
    if plain_bytes.len() > MAX_MIGRATION_PAYLOAD_BYTES {
        return Err(MigrationError::PayloadTooLarge {
            size: plain_bytes.len(),
            max: MAX_MIGRATION_PAYLOAD_BYTES,
        });
    }
    let encoded = base64_standard_encode(plain_bytes);
    proof {
        lemma_base64_encode_shape(plain_bytes@);
        vstd::utf8::is_ascii_chars_encode_utf8(encoded@);
    }
    Ok(encoded)
}

/// Every payload that the export accepts encodes to text that the import's
/// size limit accepts.
pub proof fn law_encrypted_export_fits_import_limit(plain_len: nat)
    requires
        plain_len <= MAX_MIGRATION_PAYLOAD_BYTES,
    ensures
        base64_padded_len(plain_len) <= MAX_ENCRYPTED_PAYLOAD_BYTES,
{
}

/// The outcome of decoding an encrypted payload of UTF-8 text `text`: a
/// decoding error is reported as `InvalidFormat` with the decoder's text.
pub open spec fn encrypted_import_result(text: Seq<u8>, r: Result<Vec<u8>, MigrationError>) -> bool {
    if text.len() > MAX_ENCRYPTED_PAYLOAD_BYTES {
        r == Err::<Vec<u8>, MigrationError>(
            MigrationError::PayloadTooLarge { size: text.len() as usize, max: MAX_ENCRYPTED_PAYLOAD_BYTES },
        )
    } else {
        match base64_decode(text) {
            Err(msg) => (r matches Err(MigrationError::InvalidFormat(s)) && s@ == msg),
            Ok(bytes) => if bytes.len() > MAX_MIGRATION_PAYLOAD_BYTES {
                r == Err::<Vec<u8>, MigrationError>(
                    MigrationError::PayloadTooLarge { size: bytes.len() as usize, max: MAX_MIGRATION_PAYLOAD_BYTES },
                )
            } else {
                (r matches Ok(v) && v@ == bytes)
            },
        }
    }
}

/// Decode an encrypted payload from base64 (the caller decrypts after).
///
/// Text produced by `export_to_encrypted_payload` decodes to the bytes that
/// were exported.
pub fn import_from_encrypted_payload(encoded: &str) -> (r: Result<Vec<u8>, MigrationError>)
    ensures
        encrypted_import_result(encoded.spec_bytes(), r),
        forall|b: Seq<u8>|
            #[trigger] base64_encode(b) == encoded@ && b.len() <= MAX_MIGRATION_PAYLOAD_BYTES
                && encoded.spec_bytes().len() <= MAX_ENCRYPTED_PAYLOAD_BYTES ==> (r matches Ok(v)
                && v@ == b),
{
    let len = encoded.as_bytes().len();
    let size = validate_encrypted_payload_size(len);
    if size.is_err() {
        return Err(MigrationError::PayloadTooLarge { size: len, max: MAX_ENCRYPTED_PAYLOAD_BYTES });
    }
    match base64_standard_decode(encoded) {
        Err(msg) => Err(MigrationError::InvalidFormat(msg)),
        Ok(bytes) => {
            if bytes.len() > MAX_MIGRATION_PAYLOAD_BYTES {
                Err(MigrationError::PayloadTooLarge {
                    size: bytes.len(),
                    max: MAX_MIGRATION_PAYLOAD_BYTES,
                })
            } else {
                Ok(bytes)
            }
        },
    }
}

// ---------------------------------------------------------------------------
// CSV (savings goals)
// ---------------------------------------------------------------------------

/// A CSV writer into a byte vector. Verus cannot declare `csv::Writer`
/// itself (its `std::io::Write` bound is unknown to it), so the writer is
/// held here, opaque.
///
/// Every writer that this module hands out stands between records: it is
/// made empty by `csv_writer_new`, and `csv_write_record` hands it back only
/// when the whole record, terminator included, was written. A writer whose
/// record failed half way (its fields already buffered, its field counter
/// not reset) is dropped there and never seen again.
#[verifier::external_body]
pub struct CsvBuffer {
    writer: csv::Writer<Vec<u8>>,
}

/// The records, each a sequence of fields, that a CSV writer into a byte
/// vector has written in full (each with its terminator) so far.
pub uninterp spec fn csv_records(w: CsvBuffer) -> Seq<Seq<Seq<u8>>>;

/// A field must be quoted when it holds a comma, a quote, CR or LF.
pub open spec fn csv_needs_quotes(f: Seq<u8>) -> bool {
    exists|i: int| 0 <= i < f.len() && (f[i] == 44u8 || f[i] == 34u8 || f[i] == 13u8 || f[i] == 10u8)
}

/// The field with every quote doubled.
pub open spec fn csv_double_quotes(f: Seq<u8>) -> Seq<u8>
    decreases f.len(),
{
    if f.len() == 0 {
        Seq::empty()
    } else {
        csv_double_quotes(f.drop_last()) + if f.last() == 34u8 {
            seq![34u8, 34u8]
        } else {
            seq![f.last()]
        }
    }
}

/// A field as written: in quotes, quotes doubled, when it must be quoted;
/// as it is otherwise.
pub open spec fn csv_field(f: Seq<u8>) -> Seq<u8> {
    if csv_needs_quotes(f) {
        seq![34u8] + csv_double_quotes(f) + seq![34u8]
    } else {
        f
    }
}

/// A record as written: its fields joined by commas (a record that would
/// write nothing is written as `""`), then a newline.
pub open spec fn csv_record(r: Seq<Seq<u8>>) -> Seq<u8> {
    let body = join_commas(r.map_values(|f: Seq<u8>| csv_field(f)));
    (if body.len() == 0 {
        seq![34u8, 34u8]
    } else {
        body
    }) + seq![10u8]
}

/// The CSV document that the default CSV writer produces for `records`:
/// the records as written, one after another.
pub open spec fn csv_document(records: Seq<Seq<Seq<u8>>>) -> Seq<u8>
    decreases records.len(),
{
    if records.len() == 0 {
        Seq::empty()
    } else {
        csv_document(records.drop_last()) + csv_record(records.last())
    }
}

/// `csv::Writer::from_writer` on an empty byte vector: a writer with the
/// default configuration that has written nothing.
#[verifier::external_body]
fn csv_writer_new() -> (w: CsvBuffer)
    ensures
        csv_records(w) == Seq::<Seq<Seq<u8>>>::empty(),
{
    CsvBuffer { writer: csv::Writer::from_writer(Vec::new()) }
}

/// `csv::Writer::write_record` on a writer between records. The writer is
/// taken by value and handed back only on success, with the record appended.
/// Into a byte vector the call fails only when the record's field count
/// differs from the first record's, so a record as long as all earlier ones
/// is written. On failure the error is returned as its display text and the
/// writer, which may then hold part of the record, is dropped.
#[verifier::external_body]
fn csv_write_record(w: CsvBuffer, fields: &Vec<Vec<u8>>) -> (r: Result<CsvBuffer, String>)
    ensures
        r is Ok ==> csv_records(r->Ok_0) == csv_records(w).push(
            fields@.map_values(|f: Vec<u8>| f@),
        ),
        (forall|i: int|
            0 <= i < csv_records(w).len() ==> #[trigger] csv_records(w)[i].len() == fields@.len())
            ==> r is Ok,
{
    let mut w = w;
    match w.writer.write_record(fields.iter()) {
        Ok(()) => Ok(w),
        Err(e) => Err(e.to_string()),
    }
}

/// `csv::Writer::flush`: writes buffered output into the byte vector, which
/// cannot fail, and leaves the written records as they were.
#[verifier::external_body]
fn csv_flush(w: &mut CsvBuffer) -> (r: Result<(), String>)
    ensures
        r is Ok,
        csv_records(*final(w)) == csv_records(*old(w)),
{
    w.writer.flush().map_err(|e| e.to_string())
}

/// `csv::Writer::into_inner` on a writer between records: flushes (which
/// cannot fail into a byte vector) and hands back the vector, which holds the
/// CSV document of the records as the default writer writes them (comma delimiter, `\n` terminator, quote
/// `"` doubled inside quoted fields, quotes only where necessary).
#[verifier::external_body]
fn csv_into_bytes(w: CsvBuffer) -> (r: Result<Vec<u8>, String>)
    ensures
        r is Ok,
        r is Ok ==> r->Ok_0@ == csv_document(csv_records(w)),
{
    w.writer.into_inner().map_err(|e| e.to_string())
}

/// The header record of the goals CSV.
pub open spec fn goals_csv_header() -> Seq<Seq<u8>> {
    seq![
        "id".spec_bytes(),
        "owner".spec_bytes(),
        "name".spec_bytes(),
        "target_amount".spec_bytes(),
        "current_amount".spec_bytes(),
        "target_date".spec_bytes(),
        "locked".spec_bytes(),
    ]
}

/// The CSV record of one savings goal.
pub open spec fn goal_csv_record(g: SavingsGoalExport) -> Seq<Seq<u8>> {
    seq![
        decimal(g.id as nat),
        encode_utf8(g.owner@),
        encode_utf8(g.name@),
        signed_decimal(g.target_amount as int),
        signed_decimal(g.current_amount as int),
        decimal(g.target_date as nat),
        bool_text(g.locked),
    ]
}

/// The records of the goals CSV: the header, then one record per goal.
pub open spec fn goals_csv_records(goals: Seq<SavingsGoalExport>) -> Seq<Seq<Seq<u8>>> {
    seq![goals_csv_header()] + goals.map_values(|g: SavingsGoalExport| goal_csv_record(g))
}

/// The outcome of exporting savings goals to CSV: the payload bounds (the
/// goal count and the size of the export's JSON), then the size of the CSV
/// document.
pub open spec fn csv_export_outcome(p: SavingsGoalsExport, r: Result<Vec<u8>, MigrationError>) -> bool {
    match payload_bounds_result(p.goals@.len(), goals_export_json_declared(p).len()) {
        Err(e) => r == Err::<Vec<u8>, MigrationError>(e),
        Ok(_) => {
            let doc = csv_document(goals_csv_records(p.goals@));
            if doc.len() > MAX_MIGRATION_PAYLOAD_BYTES {
                r == Err::<Vec<u8>, MigrationError>(
                    MigrationError::PayloadTooLarge { size: doc.len() as usize, max: MAX_MIGRATION_PAYLOAD_BYTES },
                )
            } else {
                (r matches Ok(b) && b@ == doc)
            }
        },
    }
}

fn field_of_str(s: &str) -> (r: Vec<u8>)
    ensures
        r@ == s.spec_bytes(),
{
    let mut v: Vec<u8> = Vec::new();
    push_str_bytes(&mut v, s);
    assert(v@ =~= s.spec_bytes());
    v
}

fn field_of_decimal(n: u64) -> (r: Vec<u8>)
    ensures
        r@ == decimal(n as nat),
{
    let mut v: Vec<u8> = Vec::new();
    push_decimal(&mut v, n);
    assert(v@ =~= decimal(n as nat));
    v
}

fn field_of_signed(n: i64) -> (r: Vec<u8>)
    ensures
        r@ == signed_decimal(n as int),
{
    let mut v: Vec<u8> = Vec::new();
    push_signed_decimal(&mut v, n);
    assert(v@ =~= signed_decimal(n as int));
    v
}

fn field_of_bool(b: bool) -> (r: Vec<u8>)
    ensures
        r@ == bool_text(b),
{
    let mut v: Vec<u8> = Vec::new();
    push_bool(&mut v, b);
    assert(v@ =~= bool_text(b));
    v
}

fn header_fields() -> (r: Vec<Vec<u8>>)
    ensures
        r@.map_values(|f: Vec<u8>| f@) == goals_csv_header(),
{
    let mut r: Vec<Vec<u8>> = Vec::new();
    r.push(field_of_str("id"));
    r.push(field_of_str("owner"));
    r.push(field_of_str("name"));
    r.push(field_of_str("target_amount"));
    r.push(field_of_str("current_amount"));
    r.push(field_of_str("target_date"));
    r.push(field_of_str("locked"));
    assert(r@.map_values(|f: Vec<u8>| f@) =~= goals_csv_header());
    r
}

fn goal_fields(g: &SavingsGoalExport) -> (r: Vec<Vec<u8>>)
    ensures
        r@.map_values(|f: Vec<u8>| f@) == goal_csv_record(*g),
{
    let mut r: Vec<Vec<u8>> = Vec::new();
    r.push(field_of_decimal(g.id as u64));
    r.push(field_of_str(g.owner.as_str()));
    r.push(field_of_str(g.name.as_str()));
    r.push(field_of_signed(g.target_amount));
    r.push(field_of_signed(g.current_amount));
    r.push(field_of_decimal(g.target_date));
    r.push(field_of_bool(g.locked));
    assert(r@.map_values(|f: Vec<u8>| f@) =~= goal_csv_record(*g));
    r
}

/// Export to CSV (for tabular payloads only, e.g. the goals list).
pub fn export_to_csv(payload: &SavingsGoalsExport) -> (r: Result<Vec<u8>, MigrationError>)
    ensures
        csv_export_outcome(*payload, r),
{
    let payload_bytes = goals_export_json(payload);
    match validate_payload_bounds(payload.goals.len(), payload_bytes.len()) {
        Err(e) => {
            return Err(e);
        },
        Ok(()) => {},
    }
    let mut wtr = csv_writer_new();
    let header = header_fields();
    wtr = match csv_write_record(wtr, &header) {
        Err(msg) => {
            return Err(MigrationError::InvalidFormat(msg));
        },
        Ok(w) => w,
    };
    let goals = &payload.goals;
    let n = goals.len();
    let mut i: usize = 0;
    while i < n
        invariant
            n == goals@.len(),
            goals@ == payload.goals@,
            i <= n,
            csv_records(wtr) == goals_csv_records(goals@.take(i as int)),
        decreases n - i,
    {
        let fields = goal_fields(&goals[i]);
        proof {
            let recs = csv_records(wtr);
            assert(fields@.map_values(|f: Vec<u8>| f@).len() == fields@.len());
            assert(fields@.len() == 7);
            assert forall|j: int| 0 <= j < recs.len() implies #[trigger] recs[j].len() == fields@.len() by {
                if j > 0 {
                    assert(recs[j] == goal_csv_record(goals@.take(i as int)[j - 1]));
                }
            }
        }
        wtr = match csv_write_record(wtr, &fields) {
            Err(msg) => {
                return Err(MigrationError::InvalidFormat(msg));
            },
            Ok(w) => w,
        };
        proof {
            assert(goals@.take(i + 1) =~= goals@.take(i as int).push(goals@[i as int]));
            assert(goals_csv_records(goals@.take(i + 1)) =~= goals_csv_records(goals@.take(i as int)).push(
                goal_csv_record(goals@[i as int]),
            ));
        }
        i = i + 1;
    }
    assert(goals@.take(n as int) =~= goals@);
    match csv_flush(&mut wtr) {
        Err(msg) => {
            return Err(MigrationError::InvalidFormat(msg));
        },
        Ok(()) => {},
    }
    let csv_bytes = match csv_into_bytes(wtr) {
        Err(msg) => {
            return Err(MigrationError::InvalidFormat(msg));
        },
        Ok(b) => b,
    };
    if csv_bytes.len() > MAX_MIGRATION_PAYLOAD_BYTES {
        return Err(MigrationError::PayloadTooLarge {
            size: csv_bytes.len(),
            max: MAX_MIGRATION_PAYLOAD_BYTES,
        });
    }
    Ok(csv_bytes)
}

// ---------------------------------------------------------------------------
// CSV import (rows already parsed)
// ---------------------------------------------------------------------------

/// The goals of parsed CSV rows, in order, with at most `room` of them: the
/// first row that failed to parse ends the import with its error, and a row
/// beyond the allowed count ends it with `TooManyRecords` (reported as one
/// more than the limit), whichever comes first.
pub open spec fn collect_goal_rows(rows: Seq<Result<SavingsGoalExport, String>>, room: nat) -> Result<
    Seq<SavingsGoalExport>,
    MigrationError,
>
    decreases rows.len(),
{
    if rows.len() == 0 {
        Ok(Seq::empty())
    } else if room == 0 {
        Err(MigrationError::TooManyRecords { count: (MAX_MIGRATION_RECORDS + 1) as usize, max: MAX_MIGRATION_RECORDS })
    } else {
        match rows[0] {
            Err(msg) => Err(MigrationError::DeserializeError(msg)),
            Ok(g) => match collect_goal_rows(rows.drop_first(), (room - 1) as nat) {
                Ok(rest) => Ok(seq![g] + rest),
                Err(e) => Err(e),
            },
        }
    }
}

/// The outcome of importing goals from a CSV document of `input_len` bytes
/// whose data rows parsed to `rows`.
pub open spec fn csv_import_result(input_len: nat, rows: Seq<Result<SavingsGoalExport, String>>) -> Result<
    Seq<SavingsGoalExport>,
    MigrationError,
> {
    if input_len > MAX_MIGRATION_PAYLOAD_BYTES {
        Err(MigrationError::PayloadTooLarge { size: input_len as usize, max: MAX_MIGRATION_PAYLOAD_BYTES })
    } else {
        collect_goal_rows(rows, MAX_MIGRATION_RECORDS as nat)
    }
}

spec fn prefixed(prefix: Seq<SavingsGoalExport>, r: Result<Seq<SavingsGoalExport>, MigrationError>) -> Result<
    Seq<SavingsGoalExport>,
    MigrationError,
> {
    match r {
        Ok(rest) => Ok(prefix + rest),
        Err(e) => Err(e),
    }
}

/// Import goals from the parsed data rows of a CSV document of `input_len`
/// bytes (no header checksum; used for merge/import).
pub fn import_goals_from_rows(input_len: usize, rows: Vec<Result<SavingsGoalExport, String>>) -> (r: Result<
    Vec<SavingsGoalExport>,
    MigrationError,
>)
    ensures
        match csv_import_result(input_len as nat, rows@) {
            Ok(goals) => (r matches Ok(v) && v@ == goals),
            Err(e) => r == Err::<Vec<SavingsGoalExport>, MigrationError>(e),
        },
{
    if input_len > MAX_MIGRATION_PAYLOAD_BYTES {
        return Err(MigrationError::PayloadTooLarge { size: input_len, max: MAX_MIGRATION_PAYLOAD_BYTES });
    }
    let ghost all = rows@;
    let mut rest = rows;
    let mut goals: Vec<SavingsGoalExport> = Vec::new();
    assert(prefixed(goals@, collect_goal_rows(rest@, MAX_MIGRATION_RECORDS as nat)) =~~= collect_goal_rows(
        all,
        MAX_MIGRATION_RECORDS as nat,
    )) by {
        match collect_goal_rows(rest@, MAX_MIGRATION_RECORDS as nat) {
            Ok(t) => {
                assert(goals@ + t =~= t);
            },
            Err(_) => {},
        }
    }
    while rest.len() > 0
        invariant
            input_len <= MAX_MIGRATION_PAYLOAD_BYTES,
            all == rows@,
            csv_import_result(input_len as nat, all) == collect_goal_rows(all, MAX_MIGRATION_RECORDS as nat),
            goals@.len() <= MAX_MIGRATION_RECORDS,
            prefixed(goals@, collect_goal_rows(rest@, (MAX_MIGRATION_RECORDS - goals@.len()) as nat))
                == collect_goal_rows(all, MAX_MIGRATION_RECORDS as nat),
        decreases rest@.len(),
    {
        if goals.len() == MAX_MIGRATION_RECORDS {
            return Err(MigrationError::TooManyRecords {
                count: MAX_MIGRATION_RECORDS + 1,
                max: MAX_MIGRATION_RECORDS,
            });
        }
        let ghost before = rest@;
        let ghost room = (MAX_MIGRATION_RECORDS - goals@.len()) as nat;
        let item = rest.remove(0);
        assert(rest@ =~= before.drop_first());
        assert(item == before[0]);
        match item {
            Err(msg) => {
                return Err(MigrationError::DeserializeError(msg));
            },
            Ok(g) => {
                let ghost old_goals = goals@;
                goals.push(g);
                proof {
                    match collect_goal_rows(rest@, (room - 1) as nat) {
                        Ok(t) => {
                            assert(old_goals + (seq![g] + t) =~= goals@ + t);
                        },
                        Err(_) => {},
                    }
                }
            },
        }
    }
    assert(goals@ + Seq::<SavingsGoalExport>::empty() =~= goals@);
    Ok(goals)
}

// ---------------------------------------------------------------------------
// Laws
// ---------------------------------------------------------------------------

/// The goals of rows that all parsed.
pub open spec fn parsed_goals(rows: Seq<Result<SavingsGoalExport, String>>) -> Seq<SavingsGoalExport> {
    rows.map_values(|r: Result<SavingsGoalExport, String>| r->Ok_0)
}

proof fn lemma_collect_goal_rows(rows: Seq<Result<SavingsGoalExport, String>>, room: nat)
    ensures
        (forall|i: int| 0 <= i < rows.len() ==> #[trigger] rows[i] is Ok) && rows.len() <= room
            ==> collect_goal_rows(rows, room) == Ok::<Seq<SavingsGoalExport>, MigrationError>(parsed_goals(rows)),
        collect_goal_rows(rows, room) is Ok ==> rows.len() <= room && (forall|i: int|
            0 <= i < rows.len() ==> #[trigger] rows[i] is Ok),
        forall|k: int|
            0 <= k < rows.len() && k < room && #[trigger] rows[k] is Err && (forall|j: int|
                0 <= j < k ==> #[trigger] rows[j] is Ok) ==> collect_goal_rows(rows, room) == Err::<
                Seq<SavingsGoalExport>,
                MigrationError,
            >(MigrationError::DeserializeError(rows[k]->Err_0)),
        rows.len() > room && (forall|j: int| 0 <= j < room ==> #[trigger] rows[j] is Ok) ==> collect_goal_rows(
            rows,
            room,
        ) == Err::<Seq<SavingsGoalExport>, MigrationError>(
            MigrationError::TooManyRecords { count: (MAX_MIGRATION_RECORDS + 1) as usize, max: MAX_MIGRATION_RECORDS },
        ),
    decreases rows.len(),
{
    if rows.len() == 0 {
        assert(parsed_goals(rows) =~= Seq::<SavingsGoalExport>::empty());
    } else if room == 0 {
    } else {
        let tail = rows.drop_first();
        lemma_collect_goal_rows(tail, (room - 1) as nat);
        if rows[0] is Ok {
            assert forall|i: int| 0 <= i < tail.len() && (forall|i: int| 0 <= i < rows.len() ==> #[trigger] rows[i] is Ok)
                implies #[trigger] tail[i] is Ok by {
                assert(tail[i] == rows[i + 1]);
            }
            assert(parsed_goals(rows) =~= seq![rows[0]->Ok_0] + parsed_goals(tail));
            if collect_goal_rows(rows, room) is Ok {
                assert forall|i: int| 0 <= i < rows.len() implies #[trigger] rows[i] is Ok by {
                    if i > 0 {
                        assert(rows[i] == tail[i - 1]);
                    }
                }
            }
            assert forall|k: int|
                0 <= k < rows.len() && k < room && #[trigger] rows[k] is Err && (forall|j: int|
                    0 <= j < k ==> #[trigger] rows[j] is Ok) implies collect_goal_rows(rows, room) == Err::<
                Seq<SavingsGoalExport>,
                MigrationError,
            >(MigrationError::DeserializeError(rows[k]->Err_0)) by {
                assert(k > 0);
                assert(tail[k - 1] == rows[k]);
                assert forall|j: int| 0 <= j < k - 1 implies #[trigger] tail[j] is Ok by {
                    assert(tail[j] == rows[j + 1]);
                }
            }
            if rows.len() > room && (forall|j: int| 0 <= j < room ==> #[trigger] rows[j] is Ok) {
                assert forall|j: int| 0 <= j < room - 1 implies #[trigger] tail[j] is Ok by {
                    assert(tail[j] == rows[j + 1]);
                }
            }
        } else {
            assert(rows[0] is Err);
        }
    }
}

/// Importing goals from CSV: an input over the size limit is refused with
/// `PayloadTooLarge` naming its size, whatever its rows; otherwise the import
/// succeeds exactly when every row parsed and there are at most as many rows
/// as the record limit, and then gives the rows' goals in order. The first
/// row that failed, within the limit, ends the import with its parse error;
/// a row past the limit, all before it parsed, with `TooManyRecords`.
pub proof fn law_csv_import(input_len: nat, rows: Seq<Result<SavingsGoalExport, String>>)
    ensures
        input_len > MAX_MIGRATION_PAYLOAD_BYTES ==> csv_import_result(input_len, rows) == Err::<
            Seq<SavingsGoalExport>,
            MigrationError,
        >(MigrationError::PayloadTooLarge { size: input_len as usize, max: MAX_MIGRATION_PAYLOAD_BYTES }),
        input_len <= MAX_MIGRATION_PAYLOAD_BYTES ==> (csv_import_result(input_len, rows) is Ok <==> (rows.len()
            <= MAX_MIGRATION_RECORDS && forall|i: int| 0 <= i < rows.len() ==> #[trigger] rows[i] is Ok)),
        csv_import_result(input_len, rows) is Ok ==> csv_import_result(input_len, rows)->Ok_0 == parsed_goals(rows),
        forall|k: int|
            input_len <= MAX_MIGRATION_PAYLOAD_BYTES && 0 <= k < rows.len() && k < MAX_MIGRATION_RECORDS
                && #[trigger] rows[k] is Err && (forall|j: int| 0 <= j < k ==> #[trigger] rows[j] is Ok)
                ==> csv_import_result(input_len, rows) == Err::<Seq<SavingsGoalExport>, MigrationError>(
                MigrationError::DeserializeError(rows[k]->Err_0),
            ),
        input_len <= MAX_MIGRATION_PAYLOAD_BYTES && rows.len() > MAX_MIGRATION_RECORDS && (forall|j: int|
            0 <= j < MAX_MIGRATION_RECORDS ==> #[trigger] rows[j] is Ok) ==> csv_import_result(input_len, rows)
            == Err::<Seq<SavingsGoalExport>, MigrationError>(
            MigrationError::TooManyRecords { count: (MAX_MIGRATION_RECORDS + 1) as usize, max: MAX_MIGRATION_RECORDS },
        ),
{
    lemma_collect_goal_rows(rows, MAX_MIGRATION_RECORDS as nat);
}

/// Exporting goals to CSV: more goals than the record limit are refused
/// with `TooManyRecords` naming their count; an export succeeds exactly when
/// the goals are within the record limit, their JSON within the size limit
/// and the CSV document within the size limit, and then gives the document
/// of the header record followed by one record per goal, in order.
pub proof fn law_csv_export(p: SavingsGoalsExport, r: Result<Vec<u8>, MigrationError>)
    requires
        csv_export_outcome(p, r),
    ensures
        p.goals@.len() > MAX_MIGRATION_RECORDS ==> r == Err::<Vec<u8>, MigrationError>(
            MigrationError::TooManyRecords { count: p.goals@.len() as usize, max: MAX_MIGRATION_RECORDS },
        ),
        ({
            let doc = csv_document(
                seq![goals_csv_header()] + p.goals@.map_values(|g: SavingsGoalExport| goal_csv_record(g)),
            );
            &&& r is Ok <==> (p.goals@.len() <= MAX_MIGRATION_RECORDS && goals_export_json_declared(p).len()
                <= MAX_MIGRATION_PAYLOAD_BYTES && doc.len() <= MAX_MIGRATION_PAYLOAD_BYTES)
            &&& r matches Ok(b) ==> b@ == doc
        }),
{
}

/// Importing an encrypted payload: text longer than the encoded-size limit
/// is refused with `PayloadTooLarge` naming its length, before any decoding;
/// a success gives the bytes that the text decodes to, within the payload
/// limit; text that does not decode is refused with `InvalidFormat`.
pub proof fn law_encrypted_import(text: Seq<u8>, r: Result<Vec<u8>, MigrationError>)
    requires
        encrypted_import_result(text, r),
    ensures
        text.len() > MAX_ENCRYPTED_PAYLOAD_BYTES ==> r == Err::<Vec<u8>, MigrationError>(
            MigrationError::PayloadTooLarge { size: text.len() as usize, max: MAX_ENCRYPTED_PAYLOAD_BYTES },
        ),
        r matches Ok(v) ==> text.len() <= MAX_ENCRYPTED_PAYLOAD_BYTES && v@.len() <= MAX_MIGRATION_PAYLOAD_BYTES
            && base64_decode(text) == Ok::<Seq<u8>, Seq<char>>(v@),
        text.len() <= MAX_ENCRYPTED_PAYLOAD_BYTES && base64_decode(text) is Err ==> r is Err && r->Err_0
            is InvalidFormat,
{
}

} // verus!
