use vstd::prelude::*;

use crate::bytes::bytes_eq;
use crate::market::MarketState;

verus! {

/// App tag of fungible tokens.
pub const TOKEN: char = 't';
/// App tag of non-fungible tokens.
pub const NFT: char = 'n';

/// The key under which a charm is stored: a one-character tag, a 32-byte
/// identity and the 32-byte verification key of the app.
#[derive(Clone, Copy, Debug)]
pub struct AppId {
    pub tag: char,
    pub identity: [u8; 32],
    pub vk: [u8; 32],
}

/// An app key with its byte strings taken as sequences.
pub struct AppKey {
    pub tag: char,
    pub identity: Seq<u8>,
    pub vk: Seq<u8>,
}

impl View for AppId {
    type V = AppKey;

    open spec fn view(&self) -> AppKey {
        AppKey { tag: self.tag, identity: self.identity@, vk: self.vk@ }
    }
}

impl AppId {
    /// Whether two app ids are the same key.
    pub fn same_key(&self, other: &AppId) -> (same: bool)
        ensures
            same == (self@ == other@),
    {
        self.tag == other.tag && bytes_eq(&self.identity, &other.identity) && bytes_eq(
            &self.vk,
            &other.vk,
        )
    }
}

/// What the contract reads of one charm: the app it belongs to, the CBOR
/// encoding of its data (read as a token amount) and its data read as a market
/// state (when it is one).
#[derive(Clone, Debug)]
pub struct CharmEntry {
    pub app: AppId,
    pub data: Vec<u8>,
    pub market: Option<MarketState>,
}

/// The first entry of `entries` stored under `key`.
pub open spec fn lookup(entries: Seq<CharmEntry>, key: AppKey) -> Option<CharmEntry>
    decreases entries.len(),
{
    if entries.len() == 0 {
        None
    } else if entries[0].app@ == key {
        Some(entries[0])
    } else {
        lookup(entries.drop_first(), key)
    }
}

/// No two entries share a key.
pub open spec fn keys_distinct(entries: Seq<CharmEntry>) -> bool {
    forall|i: int, j: int|
        0 <= i < j < entries.len() ==> #[trigger] entries[i].app@ != #[trigger] entries[j].app@
}

/// The charms held by one UTXO: a map from app to charm, walked in the order
/// of its keys (see `key_less`).
#[derive(Debug)]
pub struct CharmSet {
    entries: Vec<CharmEntry>,
}

impl View for CharmSet {
    type V = Seq<CharmEntry>;

    closed spec fn view(&self) -> Seq<CharmEntry> {
        self.entries@
    }
}

proof fn lemma_lookup_index(entries: Seq<CharmEntry>, key: AppKey)
    ensures
        lookup(entries, key) is Some <==> exists|i: int|
            0 <= i < entries.len() && #[trigger] entries[i].app@ == key,
        lookup(entries, key) matches Some(e) ==> exists|i: int|
            0 <= i < entries.len() && #[trigger] entries[i].app@ == key && entries[i] == e && forall|
                j: int,
            |
                0 <= j < i ==> #[trigger] entries[j].app@ != key,
    decreases entries.len(),
{
    if entries.len() > 0 {
        lemma_lookup_index(entries.drop_first(), key);
        if entries[0].app@ != key {
            if exists|i: int| 0 <= i < entries.len() && #[trigger] entries[i].app@ == key {
                let i = choose|i: int| 0 <= i < entries.len() && #[trigger] entries[i].app@ == key;
                assert(entries.drop_first()[i - 1].app@ == key);
            }
            if lookup(entries, key) is Some {
                let i = choose|i: int|
                    0 <= i < entries.drop_first().len() && #[trigger] entries.drop_first()[i].app@
                        == key && entries.drop_first()[i] == lookup(entries, key).unwrap() && forall|
                        j: int,
                    |
                        0 <= j < i ==> #[trigger] entries.drop_first()[j].app@ != key;
                assert forall|j: int| 0 <= j < i + 1 implies #[trigger] entries[j].app@ != key by {
                    if j > 0 {
                        assert(entries.drop_first()[j - 1] == entries[j]);
                    }
                }
                assert(entries[i + 1] == entries.drop_first()[i]);
            }
        }
    }
}

/// Lookup in a sequence whose entry at `i` is stored under `key`, and no entry
/// before it is.
proof fn lemma_lookup_at(entries: Seq<CharmEntry>, key: AppKey, i: int)
    requires
        0 <= i < entries.len(),
        entries[i].app@ == key,
        forall|j: int| 0 <= j < i ==> #[trigger] entries[j].app@ != key,
    ensures
        lookup(entries, key) == Some(entries[i]),
    decreases i,
{
    if i > 0 {
        assert forall|j: int| 0 <= j < i - 1 implies #[trigger] entries.drop_first()[j].app@ != key by {
            assert(entries.drop_first()[j] == entries[j + 1]);
        }
        lemma_lookup_at(entries.drop_first(), key, i - 1);
    }
}

proof fn lemma_lookup_absent(entries: Seq<CharmEntry>, key: AppKey)
    requires
        forall|j: int| 0 <= j < entries.len() ==> #[trigger] entries[j].app@ != key,
    ensures
        lookup(entries, key) is None,
    decreases entries.len(),
{
    if entries.len() > 0 {
        assert forall|j: int| 0 <= j < entries.drop_first().len() implies #[trigger] entries.drop_first()[j].app@
            != key by {
            assert(entries.drop_first()[j] == entries[j + 1]);
        }
        lemma_lookup_absent(entries.drop_first(), key);
    }
}

/// The key as the digits in which keys are ordered: the tag's code point,
/// then the identity's bytes, then the verification key's bytes.
pub open spec fn key_digits(k: AppKey) -> Seq<int> {
    seq![k.tag as int] + k.identity.map_values(|b: u8| b as int) + k.vk.map_values(|b: u8| b as int)
}

/// Lexicographic order of digit sequences.
pub open spec fn lex_less(a: Seq<int>, b: Seq<int>) -> bool
    decreases a.len(),
{
    if a.len() == 0 || b.len() == 0 {
        false
    } else if a[0] < b[0] {
        true
    } else if a[0] > b[0] {
        false
    } else {
        lex_less(a.drop_first(), b.drop_first())
    }
}

/// The order of app keys: by tag, then identity, then verification key, each
/// compared lexicographically (the order of `App` keys in a charms map).
pub open spec fn key_less(a: AppKey, b: AppKey) -> bool {
    lex_less(key_digits(a), key_digits(b))
}

/// The keys of the entries strictly increase.
pub open spec fn keys_sorted(entries: Seq<CharmEntry>) -> bool {
    forall|i: int, j: int|
        0 <= i < j < entries.len() ==> key_less(#[trigger] entries[i].app@, #[trigger] entries[j].app@)
}

proof fn lemma_lex_irreflexive(a: Seq<int>)
    ensures
        !lex_less(a, a),
    decreases a.len(),
{
    if a.len() > 0 {
        lemma_lex_irreflexive(a.drop_first());
    }
}

proof fn lemma_lex_transitive(a: Seq<int>, b: Seq<int>, c: Seq<int>)
    requires
        lex_less(a, b),
        lex_less(b, c),
    ensures
        lex_less(a, c),
    decreases a.len(),
{
    if a[0] == b[0] && b[0] == c[0] {
        lemma_lex_transitive(a.drop_first(), b.drop_first(), c.drop_first());
    }
}

proof fn lemma_lex_total(a: Seq<int>, b: Seq<int>)
    requires
        a.len() == b.len(),
    ensures
        lex_less(a, b) || lex_less(b, a) || a == b,
    decreases a.len(),
{
    if a.len() == 0 {
        assert(a =~= b);
    } else if a[0] == b[0] {
        lemma_lex_total(a.drop_first(), b.drop_first());
        if a.drop_first() == b.drop_first() {
            assert forall|i: int| 0 <= i < a.len() implies a[i] == b[i] by {
                if i > 0 {
                    assert(a[i] == a.drop_first()[i - 1]);
                    assert(b[i] == b.drop_first()[i - 1]);
                }
            }
            assert(a =~= b);
        }
    }
}

proof fn lemma_key_digits_injective(a: AppKey, b: AppKey)
    requires
        a.identity.len() == 32,
        b.identity.len() == 32,
        a.vk.len() == 32,
        b.vk.len() == 32,
        key_digits(a) == key_digits(b),
    ensures
        a == b,
{
    let da = key_digits(a);
    let db = key_digits(b);
    assert(da[0] == a.tag as int);
    assert(db[0] == b.tag as int);
    assert forall|i: int| 0 <= i < 32 implies a.identity[i] == b.identity[i] by {
        assert(da[1 + i] == a.identity[i] as int);
        assert(db[1 + i] == b.identity[i] as int);
    }
    assert forall|i: int| 0 <= i < 32 implies a.vk[i] == b.vk[i] by {
        assert(da[33 + i] == a.vk[i] as int);
        assert(db[33 + i] == b.vk[i] as int);
    }
    assert(a.identity =~= b.identity);
    assert(a.vk =~= b.vk);
}

/// The keys of two app ids are equal, or one is less than the other.
proof fn lemma_key_total(a: AppId, b: AppId)
    ensures
        key_less(a@, b@) || key_less(b@, a@) || a@ == b@,
{
    lemma_lex_total(key_digits(a@), key_digits(b@));
    if key_digits(a@) == key_digits(b@) {
        lemma_key_digits_injective(a@, b@);
    }
}

/// Sorted keys are distinct.
pub proof fn lemma_sorted_distinct(entries: Seq<CharmEntry>)
    requires
        keys_sorted(entries),
    ensures
        keys_distinct(entries),
{
    assert forall|i: int, j: int| 0 <= i < j < entries.len() implies #[trigger] entries[i].app@
        != #[trigger] entries[j].app@ by {
        assert(key_less(entries[i].app@, entries[j].app@));
        lemma_lex_irreflexive(key_digits(entries[i].app@));
    }
}

impl AppId {
    /// The digit at position `d` of the key (see `key_digits`).
    fn digit(&self, d: usize) -> (v: u32)
        requires
            d < 65,
        ensures
            v as int == key_digits(self@)[d as int],
    {
        if d == 0 {
            self.tag as u32
        } else if d < 33 {
            self.identity[d - 1] as u32
        } else {
            self.vk[d - 33] as u32
        }
    }

    /// Whether this key is less than `other` in the order of app keys.
    pub fn key_less_than(&self, other: &AppId) -> (less: bool)
        ensures
            less == key_less(self@, other@),
    {
        let ghost a = key_digits(self@);
        let ghost b = key_digits(other@);
        let mut d: usize = 0;
        assert(a.skip(0) =~= a);
        assert(b.skip(0) =~= b);
        while d < 65
            invariant
                a == key_digits(self@),
                b == key_digits(other@),
                a.len() == 65,
                b.len() == 65,
                d <= 65,
                lex_less(a, b) == lex_less(a.skip(d as int), b.skip(d as int)),
            decreases 65 - d,
        {
            let x = self.digit(d);
            let y = other.digit(d);
            assert(a.skip(d as int)[0] == a[d as int]);
            assert(b.skip(d as int)[0] == b[d as int]);
            if x < y {
                return true;
            }
            if x > y {
                return false;
            }
            assert(a.skip(d as int).drop_first() =~= a.skip(d + 1));
            assert(b.skip(d as int).drop_first() =~= b.skip(d + 1));
            d = d + 1;
        }
        false
    }
}

impl CharmSet {
    #[verifier::type_invariant]
    spec fn inv(&self) -> bool {
        keys_sorted(self.entries@)
    }

    /// An empty set of charms.
    pub fn new() -> (set: CharmSet)
        ensures
            set@ == Seq::<CharmEntry>::empty(),
    {
        CharmSet { entries: Vec::new() }
    }

    /// Number of charms in the set; the keys of the set strictly increase.
    pub fn len(&self) -> (n: usize)
        ensures
            n == self@.len(),
            keys_sorted(self@),
    {
        proof {
            use_type_invariant(self);
        }
        self.entries.len()
    }

    /// The charm at position `i` in the order of keys.
    pub fn entry(&self, i: usize) -> (e: &CharmEntry)
        requires
            i < self@.len(),
        ensures
            *e == self@[i as int],
    {
        &self.entries[i]
    }

    /// The charm stored under `key`, if any.
    pub fn get(&self, key: &AppId) -> (found: Option<&CharmEntry>)
        ensures
            found matches Some(e) ==> lookup(self@, key@) == Some(*e),
            found is None ==> lookup(self@, key@) is None,
    {
        let mut i: usize = 0;
        while i < self.entries.len()
            invariant
                i <= self.entries@.len(),
                forall|j: int| 0 <= j < i ==> #[trigger] self.entries@[j].app@ != key@,
            decreases self.entries@.len() - i,
        {
            if self.entries[i].app.same_key(key) {
                proof {
                    lemma_lookup_at(self.entries@, key@, i as int);
                }
                return Some(&self.entries[i]);
            }
            i = i + 1;
        }
        proof {
            lemma_lookup_absent(self.entries@, key@);
        }
        None
    }

    /// Stores `entry` under its app key, as a map does: it replaces the charm
    /// stored under the same key, or is placed among the others in the order of
    /// keys.
    pub fn insert(&mut self, entry: CharmEntry)
        ensures
            keys_sorted(final(self)@),
            lookup(final(self)@, entry.app@) == Some(entry),
            forall|k: AppKey| k != entry.app@ ==> lookup(final(self)@, k) == lookup(old(self)@, k),
            (exists|i: int|
                0 <= i < old(self)@.len() && #[trigger] old(self)@[i].app@ == entry.app@
                    && final(self)@ == old(self)@.update(i, entry)) || (lookup(old(self)@, entry.app@)
                is None && exists|p: int|
                0 <= p <= old(self)@.len() && final(self)@ == old(self)@.insert(p, entry)),
    {
        proof {
            use_type_invariant(&*self);
        }
        let mut entries: Vec<CharmEntry> = Vec::new();
        std::mem::swap(&mut entries, &mut self.entries);
        let ghost old_entries = entries@;
        let ghost key = entry.app@;
        let mut p: usize = 0;
        while p < entries.len() && entries[p].app.key_less_than(&entry.app)
            invariant
                entries@ == old_entries,
                old_entries == old(self)@,
                keys_sorted(old_entries),
                key == entry.app@,
                p <= entries@.len(),
                forall|j: int| 0 <= j < p ==> key_less(#[trigger] entries@[j].app@, key),
            decreases entries@.len() - p,
        {
            p = p + 1;
        }
        proof {
            lemma_sorted_distinct(old_entries);
            assert forall|j: int| 0 <= j < p implies #[trigger] old_entries[j].app@ != key by {
                lemma_lex_irreflexive(key_digits(key));
            }
        }
        if p < entries.len() && entries[p].app.same_key(&entry.app) {
            entries.set(p, entry);
            proof {
                let s = entries@;
                assert(s == old_entries.update(p as int, entry));
                assert forall|a: int, b: int| 0 <= a < b < s.len() implies key_less(
                    #[trigger] s[a].app@,
                    #[trigger] s[b].app@,
                ) by {
                    assert(key_less(old_entries[a].app@, old_entries[b].app@));
                }
                lemma_lookup_at(s, key, p as int);
                assert forall|k: AppKey| k != key implies lookup(s, k) == lookup(old_entries, k) by {
                    lemma_lookup_same_keys(old_entries, s, k, p as int);
                }
            }
            self.entries = entries;
            assert(old(self)@[p as int].app@ == entry.app@);
            assert(self@ == old(self)@.update(p as int, entry));
            return ;
        }
        proof {
            if p < old_entries.len() {
                lemma_key_total(old_entries[p as int].app, entry.app);
            }
            assert forall|j: int| p <= j < old_entries.len() implies key_less(
                key,
                #[trigger] old_entries[j].app@,
            ) by {
                if j > p {
                    assert(key_less(old_entries[p as int].app@, old_entries[j].app@));
                    lemma_lex_transitive(
                        key_digits(key),
                        key_digits(old_entries[p as int].app@),
                        key_digits(old_entries[j].app@),
                    );
                }
            }
            assert forall|j: int| 0 <= j < old_entries.len() implies #[trigger] old_entries[j].app@
                != key by {
                if j >= p {
                    lemma_lex_irreflexive(key_digits(key));
                }
            }
            lemma_lookup_absent(old_entries, key);
        }
        entries.insert(p, entry);
        proof {
            let s = entries@;
            assert(s == old_entries.insert(p as int, entry));
            assert forall|a: int, b: int| 0 <= a < b < s.len() implies key_less(
                #[trigger] s[a].app@,
                #[trigger] s[b].app@,
            ) by {
                if b < p {
                    assert(key_less(old_entries[a].app@, old_entries[b].app@));
                } else if b == p {
                    assert(key_less(old_entries[a].app@, key));
                } else if a < p {
                    assert(key_less(old_entries[a].app@, old_entries[b - 1].app@));
                } else if a == p {
                    assert(key_less(key, old_entries[b - 1].app@));
                } else {
                    assert(key_less(old_entries[a - 1].app@, old_entries[b - 1].app@));
                }
            }
            assert forall|m: int| 0 <= m < p implies #[trigger] s[m].app@ != key by {
                assert(s[m] == old_entries[m]);
            }
            lemma_lookup_at(s, key, p as int);
            assert forall|k: AppKey| k != key implies lookup(s, k) == lookup(old_entries, k) by {
                lemma_lookup_after_insert(old_entries, k, p as int, entry);
            }
        }
        self.entries = entries;
    }
}

/// Replacing the entry at `p` by one with the same key changes no other key's
/// lookup.
proof fn lemma_lookup_same_keys(old_entries: Seq<CharmEntry>, s: Seq<CharmEntry>, k: AppKey, p: int)
    requires
        0 <= p < old_entries.len(),
        s.len() == old_entries.len(),
        forall|m: int| 0 <= m < s.len() && m != p ==> s[m] == old_entries[m],
        s[p].app@ == old_entries[p].app@,
        old_entries[p].app@ != k,
    ensures
        lookup(s, k) == lookup(old_entries, k),
{
    lemma_lookup_index(old_entries, k);
    if lookup(old_entries, k) is Some {
        let j = choose|j: int|
            0 <= j < old_entries.len() && #[trigger] old_entries[j].app@ == k && old_entries[j]
                == lookup(old_entries, k).unwrap() && forall|m: int|
                0 <= m < j ==> #[trigger] old_entries[m].app@ != k;
        assert forall|m: int| 0 <= m < j implies #[trigger] s[m].app@ != k by {
            if m != p {
                assert(s[m] == old_entries[m]);
            }
        }
        lemma_lookup_at(s, k, j);
    } else {
        assert forall|m: int| 0 <= m < s.len() implies #[trigger] s[m].app@ != k by {
            if m != p {
                assert(s[m] == old_entries[m]);
                if s[m].app@ == k {
                    assert(old_entries[m].app@ == k);
                }
            }
        }
        lemma_lookup_absent(s, k);
    }
}

/// Inserting an entry under another key at `p` changes no other key's lookup.
proof fn lemma_lookup_after_insert(old_entries: Seq<CharmEntry>, k: AppKey, p: int, entry: CharmEntry)
    requires
        0 <= p <= old_entries.len(),
        entry.app@ != k,
    ensures
        lookup(old_entries.insert(p, entry), k) == lookup(old_entries, k),
{
    let s = old_entries.insert(p, entry);
    lemma_lookup_index(old_entries, k);
    if lookup(old_entries, k) is Some {
        let j = choose|j: int|
            0 <= j < old_entries.len() && #[trigger] old_entries[j].app@ == k && old_entries[j]
                == lookup(old_entries, k).unwrap() && forall|m: int|
                0 <= m < j ==> #[trigger] old_entries[m].app@ != k;
        let jj = if j < p { j } else { j + 1 };
        assert(s[jj] == old_entries[j]);
        assert forall|m: int| 0 <= m < jj implies #[trigger] s[m].app@ != k by {
            if m < p {
                assert(s[m] == old_entries[m]);
            } else if m > p {
                assert(s[m] == old_entries[m - 1]);
            }
        }
        lemma_lookup_at(s, k, jj);
    } else {
        assert forall|m: int| 0 <= m < s.len() implies #[trigger] s[m].app@ != k by {
            if m < p {
                assert(s[m] == old_entries[m]);
                if s[m].app@ == k {
                    assert(old_entries[m].app@ == k);
                }
            } else if m > p {
                assert(s[m] == old_entries[m - 1]);
                if s[m].app@ == k {
                    assert(old_entries[m - 1].app@ == k);
                }
            }
        }
        lemma_lookup_absent(s, k);
    }
}

} // verus!
