//! The generic key/value payload: a map from text keys to the JSON text of
//! their values, kept sorted by the UTF-8 bytes of the keys so that its
//! canonical form does not depend on the order of insertion.

use vstd::prelude::*;
use vstd::utf8::*;
use vstd::string::*;
use crate::text::push_bytes;

verus! {

// ---------------------------------------------------------------------------
// Byte-wise lexicographic order (the order of `str` in std)
// ---------------------------------------------------------------------------

/// `a` comes strictly before `b` in byte-wise lexicographic order.
pub open spec fn bytes_lt(a: Seq<u8>, b: Seq<u8>) -> bool
    decreases a.len(),
{
    if a.len() == 0 {
        b.len() > 0
    } else if b.len() == 0 {
        false
    } else if a[0] != b[0] {
        a[0] < b[0]
    } else {
        bytes_lt(a.drop_first(), b.drop_first())
    }
}

/// No sequence comes before itself.
pub proof fn lemma_bytes_lt_irreflexive(a: Seq<u8>)
    ensures
        !bytes_lt(a, a),
    decreases a.len(),
{
    if a.len() > 0 {
        lemma_bytes_lt_irreflexive(a.drop_first());
    }
}

/// The order is transitive.
pub proof fn lemma_bytes_lt_transitive(a: Seq<u8>, b: Seq<u8>, c: Seq<u8>)
    requires
        bytes_lt(a, b),
        bytes_lt(b, c),
    ensures
        bytes_lt(a, c),
    decreases a.len(),
{
    if a.len() > 0 && b.len() > 0 && c.len() > 0 {
        if a[0] == b[0] && b[0] == c[0] {
            lemma_bytes_lt_transitive(a.drop_first(), b.drop_first(), c.drop_first());
        }
    }
}

/// Any two different sequences are ordered one way or the other.
pub proof fn lemma_bytes_lt_total(a: Seq<u8>, b: Seq<u8>)
    requires
        a != b,
    ensures
        bytes_lt(a, b) || bytes_lt(b, a),
    decreases a.len(),
{
    if a.len() > 0 && b.len() > 0 && a[0] == b[0] {
        if a.drop_first() == b.drop_first() {
            assert(a =~= seq![a[0]] + a.drop_first());
            assert(b =~= seq![b[0]] + b.drop_first());
        }
        lemma_bytes_lt_total(a.drop_first(), b.drop_first());
    } else if a.len() == 0 && b.len() == 0 {
        assert(a =~= b);
    }
}

proof fn lemma_bytes_lt_skip(a: Seq<u8>, b: Seq<u8>, i: int)
    requires
        0 <= i < a.len(),
        i < b.len(),
        a[i] == b[i],
    ensures
        bytes_lt(a.skip(i), b.skip(i)) == bytes_lt(a.skip(i + 1), b.skip(i + 1)),
{
    assert(a.skip(i).drop_first() =~= a.skip(i + 1));
    assert(b.skip(i).drop_first() =~= b.skip(i + 1));
}

/// Compares two byte strings in lexicographic order.
pub fn bytes_less(a: &[u8], b: &[u8]) -> (r: bool)
    ensures
        r == bytes_lt(a@, b@),
{
    let n = a.len();
    let m = b.len();
    let mut i: usize = 0;
    assert(a@.skip(0) =~= a@);
    assert(b@.skip(0) =~= b@);
    while i < n && i < m && a[i] == b[i]
        invariant
            n == a@.len(),
            m == b@.len(),
            i <= n,
            i <= m,
            bytes_lt(a@, b@) == bytes_lt(a@.skip(i as int), b@.skip(i as int)),
        decreases n - i,
    {
        proof {
            lemma_bytes_lt_skip(a@, b@, i as int);
        }
        i = i + 1;
    }
    if i == n {
        assert(a@.skip(i as int).len() == 0);
        i < m
    } else if i == m {
        assert(b@.skip(i as int).len() == 0);
        false
    } else {
        assert(a@.skip(i as int)[0] == a@[i as int]);
        assert(b@.skip(i as int)[0] == b@[i as int]);
        a[i] < b[i]
    }
}

// ---------------------------------------------------------------------------
// Keys and sorted listings
// ---------------------------------------------------------------------------

/// Keys are ordered by their UTF-8 bytes, as `str` and `BTreeMap<&str, _>`
/// order them.
pub open spec fn key_lt(a: Seq<char>, b: Seq<char>) -> bool {
    bytes_lt(encode_utf8(a), encode_utf8(b))
}

/// Different keys have different UTF-8 bytes, so they are ordered.
pub proof fn lemma_key_lt_total(a: Seq<char>, b: Seq<char>)
    requires
        a != b,
    ensures
        key_lt(a, b) || key_lt(b, a),
{
    vstd::utf8::encode_utf8_decode_utf8(a);
    vstd::utf8::encode_utf8_decode_utf8(b);
    lemma_bytes_lt_total(encode_utf8(a), encode_utf8(b));
}

/// One entry of a listing: a key and the JSON text of its value.
pub type EntryView = (Seq<char>, Seq<u8>);

/// The map that a listing of entries with distinct keys describes.
pub open spec fn listing_map(s: Seq<EntryView>) -> Map<Seq<char>, Seq<u8>> {
    Map::new(
        |k: Seq<char>| exists|i: int| 0 <= i < s.len() && s[i].0 == k,
        |k: Seq<char>| s[choose|i: int| 0 <= i < s.len() && s[i].0 == k].1,
    )
}

/// `s` lists the entries of `m` in strictly increasing key order.
pub open spec fn is_sorted_listing(s: Seq<EntryView>, m: Map<Seq<char>, Seq<u8>>) -> bool {
    &&& forall|i: int, j: int| 0 <= i < j < s.len() ==> key_lt(#[trigger] s[i].0, #[trigger] s[j].0)
    &&& forall|i: int| 0 <= i < s.len() ==> #[trigger] m.contains_key(s[i].0) && m[s[i].0] == s[i].1
    &&& forall|k: Seq<char>| #[trigger] m.contains_key(k) ==> exists|i: int| 0 <= i < s.len() && s[i].0 == k
}

/// The entries of `m` in increasing key order (when `m` is finite).
pub open spec fn sorted_listing(m: Map<Seq<char>, Seq<u8>>) -> Seq<EntryView> {
    choose|s: Seq<EntryView>| is_sorted_listing(s, m)
}

/// A sequence whose keys strictly increase.
pub open spec fn keys_increasing(s: Seq<EntryView>) -> bool {
    forall|i: int, j: int| 0 <= i < j < s.len() ==> key_lt(#[trigger] s[i].0, #[trigger] s[j].0)
}

proof fn lemma_increasing_keys_distinct(s: Seq<EntryView>, i: int, j: int)
    requires
        keys_increasing(s),
        0 <= i < s.len(),
        0 <= j < s.len(),
        i != j,
    ensures
        s[i].0 != s[j].0,
{
    if i < j {
        assert(key_lt(s[i].0, s[j].0));
    } else {
        assert(key_lt(s[j].0, s[i].0));
    }
    lemma_bytes_lt_irreflexive(encode_utf8(s[i].0));
}

/// A sequence with increasing keys is a sorted listing of the map it describes.
pub proof fn lemma_listing_of_own_map(s: Seq<EntryView>)
    requires
        keys_increasing(s),
    ensures
        is_sorted_listing(s, listing_map(s)),
{
    let m = listing_map(s);
    assert forall|i: int| 0 <= i < s.len() implies #[trigger] m.contains_key(s[i].0) && m[s[i].0]
        == s[i].1 by {
        let j = choose|j: int| 0 <= j < s.len() && s[j].0 == s[i].0;
        if j != i {
            lemma_increasing_keys_distinct(s, i, j);
        }
    }
}

/// Two sorted listings of one map are the same sequence.
pub proof fn lemma_sorted_listing_unique(s1: Seq<EntryView>, s2: Seq<EntryView>, m: Map<Seq<char>, Seq<u8>>)
    requires
        is_sorted_listing(s1, m),
        is_sorted_listing(s2, m),
    ensures
        s1 == s2,
    decreases s1.len(),
{
    if s1.len() == 0 {
        if s2.len() > 0 {
            assert(m.contains_key(s2[0].0));
        }
        assert(s1 =~= s2);
    } else {
        assert(m.contains_key(s1[0].0));
        let k1 = s1[0].0;
        let i2 = choose|i: int| 0 <= i < s2.len() && s2[i].0 == k1;
        let k2 = s2[0].0;
        assert(m.contains_key(k2));
        let i1 = choose|i: int| 0 <= i < s1.len() && s1[i].0 == k2;
        if k1 != k2 {
            assert(i2 > 0);
            assert(i1 > 0);
            assert(key_lt(k2, k1));
            assert(key_lt(k1, k2));
            lemma_bytes_lt_transitive(encode_utf8(k1), encode_utf8(k2), encode_utf8(k1));
            lemma_bytes_lt_irreflexive(encode_utf8(k1));
        }
        let m2 = m.remove(k1);
        let t1 = s1.drop_first();
        let t2 = s2.drop_first();
        assert forall|i: int| 0 <= i < t1.len() implies #[trigger] m2.contains_key(t1[i].0) && m2[t1[i].0]
            == t1[i].1 by {
            assert(t1[i] == s1[i + 1]);
            assert(m.contains_key(s1[i + 1].0));
            assert(key_lt(s1[0].0, s1[i + 1].0));
            lemma_bytes_lt_irreflexive(encode_utf8(k1));
        }
        assert forall|i: int| 0 <= i < t2.len() implies #[trigger] m2.contains_key(t2[i].0) && m2[t2[i].0]
            == t2[i].1 by {
            assert(t2[i] == s2[i + 1]);
            assert(m.contains_key(s2[i + 1].0));
            assert(key_lt(s2[0].0, s2[i + 1].0));
            lemma_bytes_lt_irreflexive(encode_utf8(k1));
        }
        assert forall|k: Seq<char>| #[trigger] m2.contains_key(k) implies exists|i: int|
            0 <= i < t1.len() && t1[i].0 == k by {
            let j = choose|j: int| 0 <= j < s1.len() && s1[j].0 == k;
            assert(j > 0);
            assert(t1[j - 1].0 == k);
        }
        assert forall|k: Seq<char>| #[trigger] m2.contains_key(k) implies exists|i: int|
            0 <= i < t2.len() && t2[i].0 == k by {
            let j = choose|j: int| 0 <= j < s2.len() && s2[j].0 == k;
            assert(j > 0);
            assert(t2[j - 1].0 == k);
        }
        assert forall|i: int, j: int| 0 <= i < j < t1.len() implies key_lt(#[trigger] t1[i].0, #[trigger] t1[j].0) by {
            assert(key_lt(s1[i + 1].0, s1[j + 1].0));
        }
        assert forall|i: int, j: int| 0 <= i < j < t2.len() implies key_lt(#[trigger] t2[i].0, #[trigger] t2[j].0) by {
            assert(key_lt(s2[i + 1].0, s2[j + 1].0));
        }
        lemma_sorted_listing_unique(t1, t2, m2);
        assert(s1[0] == s2[0]);
        assert forall|i: int| 0 <= i < s1.len() implies s1[i] == s2[i] by {
            if i > 0 {
                assert(t1[i - 1] == t2[i - 1]);
            }
        }
        assert(s1 =~= s2);
    }
}

/// A sequence with increasing keys is the sorted listing of its own map.
pub proof fn lemma_sorted_listing_of_own_map(s: Seq<EntryView>)
    requires
        keys_increasing(s),
    ensures
        sorted_listing(listing_map(s)) == s,
{
    lemma_listing_of_own_map(s);
    let m = listing_map(s);
    let c = sorted_listing(m);
    assert(is_sorted_listing(c, m));
    lemma_sorted_listing_unique(c, s, m);
}

// ---------------------------------------------------------------------------
// The collection
// ---------------------------------------------------------------------------

/// One key of a generic payload with the JSON text of its value.
///
/// `value_json` is meant to be the compact JSON text of the value, as
/// `serde_json::to_vec` writes it: the canonical form of a generic payload,
/// and so its checksum, embeds these bytes as they are, and other text for
/// the same value (spaces, other escapes) gives other bytes.
#[derive(Debug, Clone)]
pub struct GenericEntry {
    pub key: String,
    pub value_json: Vec<u8>,
}

/// The view of one entry.
pub open spec fn entry_view(e: GenericEntry) -> EntryView {
    (e.key@, e.value_json@)
}

/// The generic payload: keys mapped to the JSON text of their values.
#[derive(Debug)]
pub struct GenericEntries {
    entries: Vec<GenericEntry>,
}

impl GenericEntries {
    /// The stored entries, as views.
    pub closed spec fn listing(&self) -> Seq<EntryView> {
        self.entries@.map_values(|e: GenericEntry| entry_view(e))
    }

    #[verifier::type_invariant]
    spec fn keys_sorted(&self) -> bool {
        keys_increasing(self.listing())
    }

    /// Creates an empty collection.
    pub fn new() -> (r: Self)
        ensures
            r@ == Map::<Seq<char>, Seq<u8>>::empty(),
    {
        let r = GenericEntries { entries: Vec::new() };
        assert(r.listing() =~= Seq::<EntryView>::empty());
        assert(listing_map(r.listing()) =~= Map::<Seq<char>, Seq<u8>>::empty());
        r
    }

    /// The number of keys.
    pub fn len(&self) -> (n: usize)
        ensures
            n == self@.len(),
    {
        proof {
            use_type_invariant(self);
            lemma_listing_len(self.listing());
        }
        self.entries.len()
    }

    /// The entries in increasing key order.
    pub fn sorted_entries(&self) -> (r: &[GenericEntry])
        ensures
            r@.map_values(|e: GenericEntry| entry_view(e)) == sorted_listing(self@),
    {
        proof {
            use_type_invariant(self);
            lemma_sorted_listing_of_own_map(self.listing());
        }
        self.entries.as_slice()
    }

    /// Sets the value of `key` to `value_json`, replacing any earlier value.
    ///
    /// `value_json` should be the compact JSON text of the value (see
    /// `GenericEntry`); it is stored, and later written out, byte for byte
    /// as given, and is not checked here.
    pub fn insert(&mut self, key: String, value_json: Vec<u8>)
        ensures
            final(self)@ == old(self)@.insert(key@, value_json@),
    {
        proof {
            use_type_invariant(&*self);
        }
        let mut entries: Vec<GenericEntry> = Vec::new();
        std::mem::swap(&mut entries, &mut self.entries);
        let ghost s = entries@.map_values(|e: GenericEntry| entry_view(e));
        assert(s == old(self).listing());
        let kb = key.as_str().as_bytes();
        let n = entries.len();
        let mut p: usize = 0;
        while p < n && bytes_less(entries[p].key.as_str().as_bytes(), kb)
            invariant
                n == entries@.len(),
                p <= n,
                s == entries@.map_values(|e: GenericEntry| entry_view(e)),
                kb@ == encode_utf8(key@),
                forall|i: int| 0 <= i < p ==> key_lt(#[trigger] s[i].0, key@),
            decreases n - p,
        {
            p = p + 1;
        }
        let ghost before = s;
        let ghost new_entry: EntryView = (key@, value_json@);
        if p < n && entries[p].key == key {
            let _ = entries.remove(p);
            entries.insert(p, GenericEntry { key, value_json });
            proof {
                let t = entries@.map_values(|e: GenericEntry| entry_view(e));
                assert(t =~= before.update(p as int, new_entry));
                lemma_update_keeps_increasing(before, p as int, new_entry);
                lemma_map_after_update(before, p as int, new_entry);
            }
        } else {
            entries.insert(p, GenericEntry { key, value_json });
            proof {
                let t = entries@.map_values(|e: GenericEntry| entry_view(e));
                assert(t =~= before.insert(p as int, new_entry));
                if p < n {
                    assert(s[p as int].0 != key@);
                    assert(!key_lt(s[p as int].0, key@));
                    lemma_key_lt_total(s[p as int].0, key@);
                }
                lemma_insert_keeps_increasing(before, p as int, new_entry);
                lemma_map_after_insert(before, p as int, new_entry);
            }
        }
        self.entries = entries;
    }
}

impl Clone for GenericEntries {
    /// A copy holding the same keys with the same values.
    fn clone(&self) -> (r: Self)
        ensures
            r@ == self@,
    {
        proof {
            use_type_invariant(self);
        }
        let ghost s = self.listing();
        let n = self.entries.len();
        let mut entries: Vec<GenericEntry> = Vec::new();
        let mut i: usize = 0;
        while i < n
            invariant
                n == self.entries@.len(),
                i <= n,
                s == self.entries@.map_values(|e: GenericEntry| entry_view(e)),
                entries@.map_values(|e: GenericEntry| entry_view(e)) == s.take(i as int),
            decreases n - i,
        {
            let e = &self.entries[i];
            let mut value_json: Vec<u8> = Vec::new();
            push_bytes(&mut value_json, e.value_json.as_slice());
            assert(value_json@ =~= e.value_json@);
            let ghost before = entries@;
            entries.push(GenericEntry { key: e.key.clone(), value_json });
            proof {
                assert(s.take(i + 1) =~= s.take(i as int).push(s[i as int]));
                assert(entries@ == before.push(entries@[i as int]));
                assert(entries@.map_values(|e: GenericEntry| entry_view(e)) =~= before.map_values(
                    |e: GenericEntry| entry_view(e),
                ).push(entry_view(entries@[i as int])));
            }
            i = i + 1;
        }
        assert(s.take(n as int) =~= s);
        GenericEntries { entries }
    }
}

impl View for GenericEntries {
    type V = Map<Seq<char>, Seq<u8>>;

    closed spec fn view(&self) -> Map<Seq<char>, Seq<u8>> {
        listing_map(self.listing())
    }
}

proof fn lemma_listing_len(s: Seq<EntryView>)
    requires
        keys_increasing(s),
    ensures
        listing_map(s).dom().finite(),
        listing_map(s).len() == s.len(),
    decreases s.len(),
{
    let m = listing_map(s);
    if s.len() == 0 {
        assert(m.dom() =~= Set::<Seq<char>>::empty());
    } else {
        let t = s.drop_last();
        assert forall|i: int, j: int| 0 <= i < j < t.len() implies key_lt(#[trigger] t[i].0, #[trigger] t[j].0) by {
            assert(key_lt(s[i].0, s[j].0));
        }
        lemma_listing_len(t);
        let k = s.last().0;
        assert forall|i: int| 0 <= i < t.len() implies t[i].0 != k by {
            lemma_increasing_keys_distinct(s, i, s.len() - 1);
        }
        assert forall|x: Seq<char>| m.dom().contains(x) <==> #[trigger] listing_map(t).dom().insert(k).contains(x) by {
            if m.dom().contains(x) {
                let i = choose|i: int| 0 <= i < s.len() && s[i].0 == x;
                if i < s.len() - 1 {
                    assert(t[i].0 == x);
                }
            }
            if listing_map(t).dom().contains(x) && x != k {
                let i = choose|i: int| 0 <= i < t.len() && t[i].0 == x;
                assert(s[i].0 == x);
            }
            if x == k {
                assert(s[s.len() - 1].0 == x);
            }
        }
        assert(m.dom() =~= listing_map(t).dom().insert(k));
        assert(!listing_map(t).dom().contains(k));
    }
}

proof fn lemma_insert_keeps_increasing(s: Seq<EntryView>, p: int, e: EntryView)
    requires
        keys_increasing(s),
        0 <= p <= s.len(),
        forall|i: int| 0 <= i < p ==> key_lt(#[trigger] s[i].0, e.0),
        p < s.len() ==> key_lt(e.0, s[p].0),
    ensures
        keys_increasing(s.insert(p, e)),
{
    let t = s.insert(p, e);
    assert forall|i: int, j: int| 0 <= i < j < t.len() implies key_lt(#[trigger] t[i].0, #[trigger] t[j].0) by {
        if j < p {
            assert(key_lt(s[i].0, s[j].0));
        } else if j == p {
            assert(key_lt(s[i].0, e.0));
        } else if i == p {
            if j - 1 > p {
                assert(key_lt(s[p].0, s[j - 1].0));
                lemma_bytes_lt_transitive(encode_utf8(e.0), encode_utf8(s[p].0), encode_utf8(s[j - 1].0));
            }
        } else if i < p {
            assert(key_lt(s[i].0, e.0));
            if j - 1 > p {
                assert(key_lt(s[p].0, s[j - 1].0));
                lemma_bytes_lt_transitive(encode_utf8(e.0), encode_utf8(s[p].0), encode_utf8(s[j - 1].0));
            }
            lemma_bytes_lt_transitive(encode_utf8(s[i].0), encode_utf8(e.0), encode_utf8(s[j - 1].0));
        } else {
            assert(key_lt(s[i - 1].0, s[j - 1].0));
        }
    }
}

proof fn lemma_update_keeps_increasing(s: Seq<EntryView>, p: int, e: EntryView)
    requires
        keys_increasing(s),
        0 <= p < s.len(),
        s[p].0 == e.0,
    ensures
        keys_increasing(s.update(p, e)),
{
    let t = s.update(p, e);
    assert forall|i: int, j: int| 0 <= i < j < t.len() implies key_lt(#[trigger] t[i].0, #[trigger] t[j].0) by {
        assert(key_lt(s[i].0, s[j].0));
    }
}

proof fn lemma_map_after_insert(s: Seq<EntryView>, p: int, e: EntryView)
    requires
        keys_increasing(s),
        keys_increasing(s.insert(p, e)),
        0 <= p <= s.len(),
    ensures
        listing_map(s.insert(p, e)) == listing_map(s).insert(e.0, e.1),
{
    let t = s.insert(p, e);
    let m = listing_map(s);
    let mt = listing_map(t);
    let expect = m.insert(e.0, e.1);
    assert forall|k: Seq<char>| #[trigger] mt.contains_key(k) <==> expect.contains_key(k) by {
        if mt.contains_key(k) && k != e.0 {
            let i = choose|i: int| 0 <= i < t.len() && t[i].0 == k;
            if i < p {
                assert(s[i].0 == k);
            } else {
                assert(i != p);
                assert(s[i - 1].0 == k);
            }
        }
        if expect.contains_key(k) {
            if k == e.0 {
                assert(t[p].0 == k);
            } else {
                let i = choose|i: int| 0 <= i < s.len() && s[i].0 == k;
                if i < p {
                    assert(t[i].0 == k);
                } else {
                    assert(t[i + 1].0 == k);
                }
            }
        }
    }
    assert forall|k: Seq<char>| #[trigger] mt.contains_key(k) implies mt[k] == expect[k] by {
        let i = choose|i: int| 0 <= i < t.len() && t[i].0 == k;
        if k == e.0 {
            if i != p {
                lemma_increasing_keys_distinct(t, i, p);
            }
        } else {
            let j = choose|j: int| 0 <= j < s.len() && s[j].0 == k;
            let jt = if j < p { j } else { j + 1 };
            assert(t[jt] == s[j]);
            if i != jt {
                lemma_increasing_keys_distinct(t, i, jt);
            }
        }
    }
    assert(mt =~= expect);
}

proof fn lemma_map_after_update(s: Seq<EntryView>, p: int, e: EntryView)
    requires
        keys_increasing(s),
        0 <= p < s.len(),
        s[p].0 == e.0,
    ensures
        listing_map(s.update(p, e)) == listing_map(s).insert(e.0, e.1),
{
    let t = s.update(p, e);
    lemma_update_keeps_increasing(s, p, e);
    let m = listing_map(s);
    let mt = listing_map(t);
    let expect = m.insert(e.0, e.1);
    assert forall|k: Seq<char>| #[trigger] mt.contains_key(k) <==> expect.contains_key(k) by {
        if mt.contains_key(k) {
            let i = choose|i: int| 0 <= i < t.len() && t[i].0 == k;
            if i != p {
                assert(s[i].0 == k);
            }
        }
        if expect.contains_key(k) && k != e.0 {
            let i = choose|i: int| 0 <= i < s.len() && s[i].0 == k;
            assert(t[i].0 == k);
        }
        if k == e.0 {
            assert(t[p].0 == k);
        }
    }
    assert forall|k: Seq<char>| #[trigger] mt.contains_key(k) implies mt[k] == expect[k] by {
        let i = choose|i: int| 0 <= i < t.len() && t[i].0 == k;
        if k == e.0 {
            if i != p {
                lemma_increasing_keys_distinct(t, i, p);
            }
        } else {
            let j = choose|j: int| 0 <= j < s.len() && s[j].0 == k;
            assert(j != p);
            assert(t[j] == s[j]);
            if i != j {
                lemma_increasing_keys_distinct(t, i, j);
            }
        }
    }
    assert(mt =~= expect);
}

} // verus!
