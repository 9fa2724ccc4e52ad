//! The canonical JSON form of a snapshot payload, which the checksum covers.
//!
//! The payload is written as a one-key object naming its variant. Inside it,
//! object keys appear in increasing byte order (the order of a sorted JSON
//! map), numbers in decimal and text as escaped JSON strings, with no
//! whitespace. Generic entries carry the JSON text of their values, which is
//! written as it is.

use vstd::prelude::*;
use vstd::utf8::*;
use vstd::string::*;
use crate::text::{
    decimal, signed_decimal, bool_text, json_string, push_str_bytes, push_bytes, push_decimal,
    push_signed_decimal, push_bool, push_json_string,
};
use crate::generic::{EntryView, GenericEntries, GenericEntry, entry_view, sorted_listing};
use crate::model::{RemittanceSplitExport, SavingsGoalExport, SavingsGoalsExport, SnapshotPayload};

verus! {

/// Joins the parts with commas.
pub open spec fn join_commas(parts: Seq<Seq<u8>>) -> Seq<u8>
    decreases parts.len(),
{
    if parts.len() == 0 {
        Seq::empty()
    } else if parts.len() == 1 {
        parts[0]
    } else {
        join_commas(parts.drop_last()) + ",".spec_bytes() + parts.last()
    }
}

/// The JSON string literal of a text value.
pub open spec fn json_text(s: Seq<char>) -> Seq<u8> {
    json_string(encode_utf8(s))
}

/// A remittance split configuration, keys in sorted order.
pub open spec fn split_json(e: RemittanceSplitExport) -> Seq<u8> {
    "{\"bills_percent\":".spec_bytes() + decimal(e.bills_percent as nat)
        + ",\"insurance_percent\":".spec_bytes() + decimal(e.insurance_percent as nat)
        + ",\"owner\":".spec_bytes() + json_text(e.owner@)
        + ",\"savings_percent\":".spec_bytes() + decimal(e.savings_percent as nat)
        + ",\"spending_percent\":".spec_bytes() + decimal(e.spending_percent as nat)
        + "}".spec_bytes()
}

/// A savings goal with its keys in sorted order.
pub open spec fn goal_json_sorted(g: SavingsGoalExport) -> Seq<u8> {
    "{\"current_amount\":".spec_bytes() + signed_decimal(g.current_amount as int)
        + ",\"id\":".spec_bytes() + decimal(g.id as nat)
        + ",\"locked\":".spec_bytes() + bool_text(g.locked)
        + ",\"name\":".spec_bytes() + json_text(g.name@)
        + ",\"owner\":".spec_bytes() + json_text(g.owner@)
        + ",\"target_amount\":".spec_bytes() + signed_decimal(g.target_amount as int)
        + ",\"target_date\":".spec_bytes() + decimal(g.target_date as nat)
        + "}".spec_bytes()
}

/// A savings goal with its keys in declaration order.
pub open spec fn goal_json_declared(g: SavingsGoalExport) -> Seq<u8> {
    "{\"id\":".spec_bytes() + decimal(g.id as nat)
        + ",\"owner\":".spec_bytes() + json_text(g.owner@)
        + ",\"name\":".spec_bytes() + json_text(g.name@)
        + ",\"target_amount\":".spec_bytes() + signed_decimal(g.target_amount as int)
        + ",\"current_amount\":".spec_bytes() + signed_decimal(g.current_amount as int)
        + ",\"target_date\":".spec_bytes() + decimal(g.target_date as nat)
        + ",\"locked\":".spec_bytes() + bool_text(g.locked)
        + "}".spec_bytes()
}

/// A savings goal, keys sorted or in declaration order.
pub open spec fn goal_json(g: SavingsGoalExport, sorted: bool) -> Seq<u8> {
    if sorted {
        goal_json_sorted(g)
    } else {
        goal_json_declared(g)
    }
}

/// A JSON array of savings goals.
pub open spec fn goals_array_json(goals: Seq<SavingsGoalExport>, sorted: bool) -> Seq<u8> {
    "[".spec_bytes() + join_commas(goals.map_values(|g: SavingsGoalExport| goal_json(g, sorted)))
        + "]".spec_bytes()
}

/// A savings goals export with sorted keys, as inside the canonical payload.
pub open spec fn goals_export_json_sorted(e: SavingsGoalsExport) -> Seq<u8> {
    "{\"goals\":".spec_bytes() + goals_array_json(e.goals@, true) + ",\"next_id\":".spec_bytes()
        + decimal(e.next_id as nat) + "}".spec_bytes()
}

/// A savings goals export with its keys in declaration order.
pub open spec fn goals_export_json_declared(e: SavingsGoalsExport) -> Seq<u8> {
    "{\"next_id\":".spec_bytes() + decimal(e.next_id as nat) + ",\"goals\":".spec_bytes()
        + goals_array_json(e.goals@, false) + "}".spec_bytes()
}

/// One generic entry: its key as a JSON string, a colon, its value's JSON text.
pub open spec fn entry_json(e: EntryView) -> Seq<u8> {
    json_text(e.0) + ":".spec_bytes() + e.1
}

/// The generic entries as a JSON object with keys in increasing byte order.
pub open spec fn generic_json(m: Map<Seq<char>, Seq<u8>>) -> Seq<u8> {
    "{".spec_bytes() + join_commas(sorted_listing(m).map_values(|e: EntryView| entry_json(e)))
        + "}".spec_bytes()
}

/// The canonical JSON bytes of a payload, which the checksum is taken over.
pub open spec fn canonical_payload(p: &SnapshotPayload) -> Seq<u8> {
    match p {
        SnapshotPayload::RemittanceSplit(e) => "{\"RemittanceSplit\":".spec_bytes() + split_json(*e)
            + "}".spec_bytes(),
        SnapshotPayload::SavingsGoals(e) => "{\"SavingsGoals\":".spec_bytes()
            + goals_export_json_sorted(*e) + "}".spec_bytes(),
        SnapshotPayload::Generic(m) => "{\"Generic\":".spec_bytes() + generic_json(m@)
            + "}".spec_bytes(),
    }
}

proof fn lemma_join_step(parts: Seq<Seq<u8>>, i: int)
    requires
        0 <= i < parts.len(),
    ensures
        join_commas(parts.take(i + 1)) == if i == 0 {
            parts[0]
        } else {
            join_commas(parts.take(i)) + ",".spec_bytes() + parts[i]
        },
{
    assert(parts.take(i + 1).drop_last() =~= parts.take(i));
    if i == 0 {
        assert(parts.take(1)[0] == parts[0]);
    }
}

fn push_split_json(out: &mut Vec<u8>, e: &RemittanceSplitExport)
    ensures
        final(out)@ == old(out)@ + split_json(*e),
{
    push_str_bytes(out, "{\"bills_percent\":");
    push_decimal(out, e.bills_percent as u64);
    push_str_bytes(out, ",\"insurance_percent\":");
    push_decimal(out, e.insurance_percent as u64);
    push_str_bytes(out, ",\"owner\":");
    push_json_string(out, e.owner.as_str());
    push_str_bytes(out, ",\"savings_percent\":");
    push_decimal(out, e.savings_percent as u64);
    push_str_bytes(out, ",\"spending_percent\":");
    push_decimal(out, e.spending_percent as u64);
    push_str_bytes(out, "}");
    assert(out@ =~= old(out)@ + split_json(*e));
}

#[verifier::rlimit(50)]
fn push_goal_json_sorted(out: &mut Vec<u8>, g: &SavingsGoalExport)
    ensures
        final(out)@ == old(out)@ + goal_json_sorted(*g),
{
    push_str_bytes(out, "{\"current_amount\":");
    push_signed_decimal(out, g.current_amount);
    push_str_bytes(out, ",\"id\":");
    push_decimal(out, g.id as u64);
    push_str_bytes(out, ",\"locked\":");
    push_bool(out, g.locked);
    push_str_bytes(out, ",\"name\":");
    push_json_string(out, g.name.as_str());
    push_str_bytes(out, ",\"owner\":");
    push_json_string(out, g.owner.as_str());
    push_str_bytes(out, ",\"target_amount\":");
    push_signed_decimal(out, g.target_amount);
    push_str_bytes(out, ",\"target_date\":");
    push_decimal(out, g.target_date);
    push_str_bytes(out, "}");
    assert(out@ =~= old(out)@ + goal_json_sorted(*g));
}

#[verifier::rlimit(50)]
fn push_goal_json_declared(out: &mut Vec<u8>, g: &SavingsGoalExport)
    ensures
        final(out)@ == old(out)@ + goal_json_declared(*g),
{
    push_str_bytes(out, "{\"id\":");
    push_decimal(out, g.id as u64);
    push_str_bytes(out, ",\"owner\":");
    push_json_string(out, g.owner.as_str());
    push_str_bytes(out, ",\"name\":");
    push_json_string(out, g.name.as_str());
    push_str_bytes(out, ",\"target_amount\":");
    push_signed_decimal(out, g.target_amount);
    push_str_bytes(out, ",\"current_amount\":");
    push_signed_decimal(out, g.current_amount);
    push_str_bytes(out, ",\"target_date\":");
    push_decimal(out, g.target_date);
    push_str_bytes(out, ",\"locked\":");
    push_bool(out, g.locked);
    push_str_bytes(out, "}");
    assert(out@ =~= old(out)@ + goal_json_declared(*g));
}

fn push_goal_json(out: &mut Vec<u8>, g: &SavingsGoalExport, sorted: bool)
    ensures
        final(out)@ == old(out)@ + goal_json(*g, sorted),
{
    if sorted {
        push_goal_json_sorted(out, g);
    } else {
        push_goal_json_declared(out, g);
    }
}

fn push_goals_array(out: &mut Vec<u8>, goals: &Vec<SavingsGoalExport>, sorted: bool)
    ensures
        final(out)@ == old(out)@ + goals_array_json(goals@, sorted),
{
    let ghost parts = goals@.map_values(|g: SavingsGoalExport| goal_json(g, sorted));
    push_str_bytes(out, "[");
    let ghost start = out@;
    let n = goals.len();
    let mut i: usize = 0;
    while i < n
        invariant
            n == goals@.len(),
            parts.len() == n,
            parts == goals@.map_values(|g: SavingsGoalExport| goal_json(g, sorted)),
            i <= n,
            out@ == start + join_commas(parts.take(i as int)),
        decreases n - i,
    {
        proof {
            lemma_join_step(parts, i as int);
        }
        if i > 0 {
            push_str_bytes(out, ",");
        }
        push_goal_json(out, &goals[i], sorted);
        i = i + 1;
        assert(out@ =~= start + join_commas(parts.take(i as int)));
    }
    assert(parts.take(n as int) =~= parts);
    push_str_bytes(out, "]");
    assert(out@ =~= old(out)@ + goals_array_json(goals@, sorted));
}

/// Appends the canonical JSON of a savings goals export (sorted keys).
fn push_goals_export_sorted(out: &mut Vec<u8>, e: &SavingsGoalsExport)
    ensures
        final(out)@ == old(out)@ + goals_export_json_sorted(*e),
{
    push_str_bytes(out, "{\"goals\":");
    push_goals_array(out, &e.goals, true);
    push_str_bytes(out, ",\"next_id\":");
    push_decimal(out, e.next_id as u64);
    push_str_bytes(out, "}");
    assert(out@ =~= old(out)@ + goals_export_json_sorted(*e));
}

/// The JSON of a savings goals export with keys in declaration order, as a
/// plain serialization of the export writes it.
pub fn goals_export_json(e: &SavingsGoalsExport) -> (r: Vec<u8>)
    ensures
        r@ == goals_export_json_declared(*e),
{
    let mut out: Vec<u8> = Vec::new();
    push_str_bytes(&mut out, "{\"next_id\":");
    push_decimal(&mut out, e.next_id as u64);
    push_str_bytes(&mut out, ",\"goals\":");
    push_goals_array(&mut out, &e.goals, false);
    push_str_bytes(&mut out, "}");
    assert(out@ =~= goals_export_json_declared(*e));
    out
}

fn push_generic_json(out: &mut Vec<u8>, entries: &GenericEntries)
    ensures
        final(out)@ == old(out)@ + generic_json(entries@),
{
    let sorted = entries.sorted_entries();
    let ghost listing = sorted_listing(entries@);
    let ghost parts = listing.map_values(|e: EntryView| entry_json(e));
    push_str_bytes(out, "{");
    let ghost start = out@;
    let n = sorted.len();
    let mut i: usize = 0;
    while i < n
        invariant
            n == sorted@.len(),
            sorted@.map_values(|e: GenericEntry| entry_view(e)) == listing,
            parts == listing.map_values(|e: EntryView| entry_json(e)),
            parts.len() == n,
            i <= n,
            out@ == start + join_commas(parts.take(i as int)),
        decreases n - i,
    {
        proof {
            lemma_join_step(parts, i as int);
            assert(listing[i as int] == entry_view(sorted@[i as int]));
        }
        if i > 0 {
            push_str_bytes(out, ",");
        }
        let entry = &sorted[i];
        push_json_string(out, entry.key.as_str());
        push_str_bytes(out, ":");
        push_bytes(out, entry.value_json.as_slice());
        i = i + 1;
        assert(out@ =~= start + join_commas(parts.take(i as int)));
    }
    assert(parts.take(n as int) =~= parts);
    push_str_bytes(out, "}");
    assert(out@ =~= old(out)@ + generic_json(entries@));
}

/// The canonical JSON bytes of a payload.
pub fn canonical_payload_bytes(p: &SnapshotPayload) -> (r: Vec<u8>)
    ensures
        r@ == canonical_payload(p),
{
    let mut out: Vec<u8> = Vec::new();
    match p {
        SnapshotPayload::RemittanceSplit(e) => {
            push_str_bytes(&mut out, "{\"RemittanceSplit\":");
            push_split_json(&mut out, e);
        },
        SnapshotPayload::SavingsGoals(e) => {
            push_str_bytes(&mut out, "{\"SavingsGoals\":");
            push_goals_export_sorted(&mut out, e);
        },
        SnapshotPayload::Generic(m) => {
            push_str_bytes(&mut out, "{\"Generic\":");
            push_generic_json(&mut out, m);
        },
    }
    push_str_bytes(&mut out, "}");
    assert(out@ =~= canonical_payload(p));
    out
}

} // verus!
