//! A map from strings to strings that keeps its entries sorted by key, so
//! that walking it is deterministic.

use vstd::prelude::*;
use vstd::utf8::char_u32_cast;
use crate::text::{chars_of, same_text};

verus! {

/// Lexicographic order on texts, comparing characters by code point and
/// from position `i` on; a proper prefix comes first. This is the order of
/// `str`'s `<`, since UTF-8 keeps the order of code points.
pub open spec fn text_less_from(a: Seq<char>, b: Seq<char>, i: int) -> bool
    decreases a.len() - i,
{
    if i >= a.len() {
        i < b.len()
    } else if i >= b.len() {
        false
    } else if a[i] != b[i] {
        (a[i] as u32) < (b[i] as u32)
    } else {
        text_less_from(a, b, i + 1)
    }
}

/// Lexicographic order on texts.
pub open spec fn text_less(a: Seq<char>, b: Seq<char>) -> bool {
    text_less_from(a, b, 0)
}

/// No text comes before itself.
pub proof fn lemma_text_less_irreflexive(a: Seq<char>, i: int)
    requires
        0 <= i,
    ensures
        !text_less_from(a, a, i),
    decreases a.len() - i,
{
    if i < a.len() {
        lemma_text_less_irreflexive(a, i + 1);
    }
}

/// The order is transitive.
pub proof fn lemma_text_less_transitive(a: Seq<char>, b: Seq<char>, c: Seq<char>, i: int)
    requires
        0 <= i,
        text_less_from(a, b, i),
        text_less_from(b, c, i),
    ensures
        text_less_from(a, c, i),
    decreases a.len() - i,
{
    if i < a.len() && i < b.len() && i < c.len() && a[i] == b[i] && b[i] == c[i] {
        lemma_text_less_transitive(a, b, c, i + 1);
    }
}

/// Two texts that agree before `i` and of which neither comes before the
/// other are equal.
pub proof fn lemma_text_less_total(a: Seq<char>, b: Seq<char>, i: int)
    requires
        0 <= i <= a.len(),
        i <= b.len(),
        a.take(i) == b.take(i),
        !text_less_from(a, b, i),
        !text_less_from(b, a, i),
    ensures
        a == b,
    decreases a.len() - i,
{
    if i < a.len() {
        assert(i < b.len());
        char_u32_cast(a[i], a[i] as u32);
        char_u32_cast(b[i], b[i] as u32);
        assert(a[i] == b[i]);
        assert(a.take(i + 1) =~= a.take(i).push(a[i]));
        assert(b.take(i + 1) =~= b.take(i).push(b[i]));
        lemma_text_less_total(a, b, i + 1);
    } else {
        assert(a =~= a.take(i));
        assert(b =~= b.take(i));
    }
}

/// Whether `a` comes before `b` in lexicographic order.
pub fn text_before(a: &str, b: &str) -> (r: bool)
    ensures
        r == text_less(a@, b@),
{
    let x = chars_of(a);
    let y = chars_of(b);
    let mut i: usize = 0;
    while i < x.len() && i < y.len() && x[i] == y[i]
        invariant
            x@ == a@,
            y@ == b@,
            i <= x@.len(),
            i <= y@.len(),
            text_less_from(a@, b@, i as int) == text_less(a@, b@),
        decreases x@.len() - i,
    {
        i = i + 1;
    }
    if i >= x.len() {
        i < y.len()
    } else if i >= y.len() {
        false
    } else {
        (x[i] as u32) < (y[i] as u32)
    }
}

/// Entries whose keys are strictly increasing: each key occurs once.
pub open spec fn keys_sorted(s: Seq<(Seq<char>, Seq<char>)>) -> bool {
    forall|i: int, j: int| 0 <= i < j < s.len() ==> text_less(#[trigger] s[i].0, #[trigger] s[j].0)
}

/// The value of `key` in `s`, if any.
pub open spec fn lookup(s: Seq<(Seq<char>, Seq<char>)>, key: Seq<char>) -> Option<Seq<char>>
    decreases s.len(),
{
    if s.len() == 0 {
        None
    } else if s[0].0 == key {
        Some(s[0].1)
    } else {
        lookup(s.drop_first(), key)
    }
}

/// The entries after setting `key` to `value`: the entry of `key` takes
/// the new value, or a new entry goes before the first larger key.
pub open spec fn upsert(s: Seq<(Seq<char>, Seq<char>)>, key: Seq<char>, value: Seq<char>) -> Seq<
    (Seq<char>, Seq<char>),
>
    decreases s.len(),
{
    if s.len() == 0 {
        seq![(key, value)]
    } else if s[0].0 == key {
        seq![(key, value)] + s.drop_first()
    } else if text_less(key, s[0].0) {
        seq![(key, value)] + s
    } else {
        seq![s[0]] + upsert(s.drop_first(), key, value)
    }
}

/// The entries of a vector of string pairs as plain values.
pub open spec fn pairs_view(v: Seq<(String, String)>) -> Seq<(Seq<char>, Seq<char>)> {
    v.map_values(|p: (String, String)| (p.0@, p.1@))
}

/// Where `upsert` places the key: after the entries it passes over.
proof fn lemma_upsert_at(s: Seq<(Seq<char>, Seq<char>)>, key: Seq<char>, value: Seq<char>, i: int)
    requires
        0 <= i <= s.len(),
        forall|j: int| 0 <= j < i ==> (#[trigger] s[j]).0 != key && !text_less(key, s[j].0),
        i == s.len() || s[i].0 == key || text_less(key, s[i].0),
    ensures
        upsert(s, key, value) == if i < s.len() && s[i].0 == key {
            s.take(i) + seq![(key, value)] + s.skip(i + 1)
        } else {
            s.take(i) + seq![(key, value)] + s.skip(i)
        },
    decreases i,
{
    if i == 0 {
        if s.len() == 0 {
            assert(s.take(0) + seq![(key, value)] + s.skip(0) =~= seq![(key, value)]);
        } else if s[0].0 == key {
            assert(s.take(0) + seq![(key, value)] + s.skip(1) =~= seq![(key, value)] + s.drop_first());
        } else {
            assert(s.take(0) + seq![(key, value)] + s.skip(0) =~= seq![(key, value)] + s);
        }
    } else {
        let t = s.drop_first();
        assert forall|j: int| 0 <= j < i - 1 implies (#[trigger] t[j]).0 != key && !text_less(key, t[j].0) by {
            assert(t[j] == s[j + 1]);
        }
        lemma_upsert_at(t, key, value, i - 1);
        if i < s.len() && s[i].0 == key {
            assert(seq![s[0]] + (t.take(i - 1) + seq![(key, value)] + t.skip(i)) =~= s.take(i) + seq![
                (key, value),
            ] + s.skip(i + 1));
        } else {
            assert(seq![s[0]] + (t.take(i - 1) + seq![(key, value)] + t.skip(i - 1)) =~= s.take(i) + seq![
                (key, value),
            ] + s.skip(i));
        }
    }
}

/// Setting a key keeps the keys sorted.
pub proof fn law_upsert_keeps_keys_sorted(s: Seq<(Seq<char>, Seq<char>)>, key: Seq<char>, value: Seq<char>)
    requires
        keys_sorted(s),
    ensures
        keys_sorted(upsert(s, key, value)),
    decreases s.len(),
{
    if s.len() > 0 && s[0].0 != key && !text_less(key, s[0].0) {
        let t = s.drop_first();
        assert(keys_sorted(t)) by {
            assert forall|i: int, j: int| 0 <= i < j < t.len() implies text_less(#[trigger] t[i].0, #[trigger] t[j].0) by {
                assert(t[i] == s[i + 1] && t[j] == s[j + 1]);
            }
        }
        law_upsert_keeps_keys_sorted(t, key, value);
        lemma_upsert_keys(t, key, value);
        let u = upsert(t, key, value);
        let r = seq![s[0]] + u;
        assert(text_less(s[0].0, key)) by {
            if !text_less(s[0].0, key) {
                assert(s[0].0.take(0) =~= key.take(0));
                lemma_text_less_total(s[0].0, key, 0);
            }
        }
        assert forall|i: int, j: int| 0 <= i < j < r.len() implies text_less(#[trigger] r[i].0, #[trigger] r[j].0) by {
            if i == 0 {
                assert(r[j] == u[j - 1]);
                if u[j - 1].0 != key {
                    let m = choose|m: int| 0 <= m < t.len() && t[m].0 == u[j - 1].0;
                    assert(s[m + 1] == t[m]);
                }
            } else {
                assert(r[i] == u[i - 1] && r[j] == u[j - 1]);
            }
        }
    } else if s.len() > 0 && s[0].0 == key {
        let r = seq![(key, value)] + s.drop_first();
        assert forall|i: int, j: int| 0 <= i < j < r.len() implies text_less(#[trigger] r[i].0, #[trigger] r[j].0) by {
            assert(r[j] == s[j]);
            if i > 0 {
                assert(r[i] == s[i]);
            }
        }
    } else if s.len() > 0 {
        let r = seq![(key, value)] + s;
        assert forall|i: int, j: int| 0 <= i < j < r.len() implies text_less(#[trigger] r[i].0, #[trigger] r[j].0) by {
            assert(r[j] == s[j - 1]);
            if i > 0 {
                assert(r[i] == s[i - 1]);
            } else if j > 1 {
                lemma_text_less_transitive(key, s[0].0, s[j - 1].0, 0);
            }
        }
    }
}

/// The keys after setting a key are the old keys and that key.
proof fn lemma_upsert_keys(s: Seq<(Seq<char>, Seq<char>)>, key: Seq<char>, value: Seq<char>)
    ensures
        forall|j: int|
            0 <= j < upsert(s, key, value).len() ==> (#[trigger] upsert(s, key, value)[j]).0 == key
                || exists|m: int| 0 <= m < s.len() && s[m].0 == upsert(s, key, value)[j].0,
    decreases s.len(),
{
    let u = upsert(s, key, value);
    if s.len() > 0 && s[0].0 != key && !text_less(key, s[0].0) {
        let t = s.drop_first();
        lemma_upsert_keys(t, key, value);
        assert forall|j: int| 0 <= j < u.len() implies (#[trigger] u[j]).0 == key || exists|m: int|
            0 <= m < s.len() && s[m].0 == u[j].0 by {
            if j == 0 {
                assert(s[0].0 == u[0].0);
            } else {
                let v = upsert(t, key, value);
                assert(u[j] == v[j - 1]);
                if v[j - 1].0 != key {
                    let m = choose|m: int| 0 <= m < t.len() && t[m].0 == v[j - 1].0;
                    assert(s[m + 1] == t[m]);
                }
            }
        }
    } else if s.len() > 0 && s[0].0 == key {
        assert forall|j: int| 0 <= j < u.len() implies (#[trigger] u[j]).0 == key || exists|m: int|
            0 <= m < s.len() && s[m].0 == u[j].0 by {
            if j > 0 {
                assert(u[j] == s[j]);
            }
        }
    } else if s.len() > 0 {
        assert forall|j: int| 0 <= j < u.len() implies (#[trigger] u[j]).0 == key || exists|m: int|
            0 <= m < s.len() && s[m].0 == u[j].0 by {
            if j > 0 {
                assert(u[j] == s[j - 1]);
            }
        }
    }
}

/// After setting a key, looking it up gives the new value, and every
/// other key keeps its value.
pub proof fn law_lookup_after_upsert(
    s: Seq<(Seq<char>, Seq<char>)>,
    key: Seq<char>,
    value: Seq<char>,
    other: Seq<char>,
)
    ensures
        lookup(upsert(s, key, value), key) == Some(value),
        other != key ==> lookup(upsert(s, key, value), other) == lookup(s, other),
    decreases s.len(),
{
    let u = upsert(s, key, value);
    if s.len() == 0 {
        assert(u[0] == (key, value));
        assert(u.drop_first() =~= s);
        if other != key {
            assert(lookup(u, other) == lookup(u.drop_first(), other));
        }
    } else if s[0].0 == key {
        assert(u[0] == (key, value));
        assert(u.drop_first() =~= s.drop_first());
        if other != key {
            assert(lookup(u, other) == lookup(u.drop_first(), other));
            assert(lookup(s, other) == lookup(s.drop_first(), other));
        }
    } else if text_less(key, s[0].0) {
        assert(u[0] == (key, value));
        assert(u.drop_first() =~= s);
        if other != key {
            assert(lookup(u, other) == lookup(u.drop_first(), other));
        }
    } else {
        let t = s.drop_first();
        law_lookup_after_upsert(t, key, value, other);
        assert(u[0] == s[0]);
        assert(u.drop_first() =~= upsert(t, key, value));
        assert(lookup(u, key) == lookup(upsert(t, key, value), key));
        if other != key && s[0].0 != other {
            assert(lookup(u, other) == lookup(u.drop_first(), other));
            assert(lookup(s, other) == lookup(t, other));
        }
    }
}

/// Sets `key` to `value` in a vector of entries, in the manner of
/// `upsert`.
pub fn upsert_entry(entries: &mut Vec<(String, String)>, key: String, value: String)
    ensures
        pairs_view(final(entries)@) == upsert(pairs_view(old(entries)@), key@, value@),
{
    let ghost s = pairs_view(entries@);
    let mut i: usize = 0;
    while i < entries.len() && entries[i].0 != key && !text_before(key.as_str(), entries[i].0.as_str())
        invariant
            s == pairs_view(entries@),
            entries@ == old(entries)@,
            i <= s.len(),
            forall|j: int| 0 <= j < i ==> (#[trigger] s[j]).0 != key@ && !text_less(key@, s[j].0),
        decreases entries@.len() - i,
    {
        i = i + 1;
    }
    proof {
        lemma_upsert_at(s, key@, value@, i as int);
    }
    if i < entries.len() && entries[i].0 == key {
        let _ = entries.remove(i);
        entries.insert(i, (key, value));
        assert(pairs_view(entries@) =~= s.take(i as int) + seq![(key@, value@)] + s.skip(i + 1));
    } else {
        entries.insert(i, (key, value));
        assert(pairs_view(entries@) =~= s.take(i as int) + seq![(key@, value@)] + s.skip(i as int));
    }
}

/// A map from strings to strings whose entries are kept sorted by key,
/// each key once.
#[derive(Debug)]
pub struct TextMap {
    entries: Vec<(String, String)>,
}

impl View for TextMap {
    type V = Seq<(Seq<char>, Seq<char>)>;

    closed spec fn view(&self) -> Seq<(Seq<char>, Seq<char>)> {
        pairs_view(self.entries@)
    }
}

impl TextMap {
    #[verifier::type_invariant]
    spec fn sorted(self) -> bool {
        keys_sorted(pairs_view(self.entries@))
    }

    /// An empty map.
    pub fn new() -> (r: Self)
        ensures
            r@ == Seq::<(Seq<char>, Seq<char>)>::empty(),
    {
        let r = TextMap { entries: Vec::new() };
        assert(pairs_view(r.entries@) =~= Seq::<(Seq<char>, Seq<char>)>::empty());
        r
    }

    /// The entries are sorted by key, each key once.
    pub fn is_sorted(&self) -> (r: bool)
        ensures
            r,
            keys_sorted(self@),
    {
        proof {
            use_type_invariant(self);
        }
        true
    }

    /// Set `key` to `value`.
    pub fn insert(&mut self, key: String, value: String)
        ensures
            final(self)@ == upsert(old(self)@, key@, value@),
    {
        proof {
            use_type_invariant(&*self);
            law_upsert_keeps_keys_sorted(pairs_view(self.entries@), key@, value@);
        }
        let mut entries = Vec::new();
        std::mem::swap(&mut entries, &mut self.entries);
        proof {
            law_upsert_keeps_keys_sorted(pairs_view(entries@), key@, value@);
        }
        upsert_entry(&mut entries, key, value);
        self.entries = entries;
    }

    /// The value of `key`, if any.
    pub fn get(&self, key: &str) -> (r: Option<&String>)
        ensures
            match lookup(self@, key@) {
                Some(v) => r is Some && r.unwrap()@ == v,
                None => r is None,
            },
    {
        let ghost s = self@;
        assert(s.skip(0) =~= s);
        let mut i: usize = 0;
        while i < self.entries.len()
            invariant
                s == pairs_view(self.entries@),
                i <= s.len(),
                lookup(s, key@) == lookup(s.skip(i as int), key@),
            decreases s.len() - i,
        {
            assert(s.skip(i as int).drop_first() =~= s.skip(i + 1));
            assert(s.skip(i as int)[0] == s[i as int]);
            if same_text(self.entries[i].0.as_str(), key) {
                return Some(&self.entries[i].1);
            }
            i = i + 1;
        }
        None
    }

    /// A copy of this map.
    pub fn duplicate(&self) -> (r: Self)
        ensures
            r@ == self@,
    {
        proof {
            use_type_invariant(self);
        }
        let mut entries: Vec<(String, String)> = Vec::new();
        let mut i: usize = 0;
        while i < self.entries.len()
            invariant
                i <= self.entries@.len(),
                entries@.len() == i,
                forall|j: int| 0 <= j < i ==> (#[trigger] entries@[j]).0@ == self.entries@[j].0@
                    && entries@[j].1@ == self.entries@[j].1@,
            decreases self.entries@.len() - i,
        {
            let p = &self.entries[i];
            entries.push((p.0.clone(), p.1.clone()));
            i = i + 1;
        }
        assert(pairs_view(entries@) =~= pairs_view(self.entries@));
        TextMap { entries }
    }

    /// The number of entries.
    pub fn len(&self) -> (r: usize)
        ensures
            r == self@.len(),
    {
        self.entries.len()
    }

    /// The entries, sorted by key.
    pub fn entries(&self) -> (r: &Vec<(String, String)>)
        ensures
            pairs_view(r@) == self@,
    {
        &self.entries
    }
}

proof fn lemma_lookup_found(s: Seq<(Seq<char>, Seq<char>)>, key: Seq<char>)
    ensures
        lookup(s, key) matches Some(v) ==> exists|j: int| 0 <= j < s.len() && s[j].0 == key && s[j].1 == v,
        lookup(s, key) is None ==> forall|j: int| 0 <= j < s.len() ==> s[j].0 != key,
    decreases s.len(),
{
    if s.len() > 0 && s[0].0 != key {
        let t = s.drop_first();
        lemma_lookup_found(t, key);
        if let Some(v) = lookup(s, key) {
            let j = choose|j: int| 0 <= j < t.len() && t[j].0 == key && t[j].1 == v;
            assert(s[j + 1] == t[j]);
        } else {
            assert forall|j: int| 0 <= j < s.len() implies s[j].0 != key by {
                if j > 0 {
                    assert(s[j] == t[j - 1]);
                }
            }
        }
    }
}

proof fn lemma_sorted_tail(s: Seq<(Seq<char>, Seq<char>)>)
    requires
        keys_sorted(s),
        s.len() > 0,
    ensures
        keys_sorted(s.drop_first()),
        lookup(s.drop_first(), s[0].0) is None,
{
    let t = s.drop_first();
    assert forall|i: int, j: int| 0 <= i < j < t.len() implies text_less(#[trigger] t[i].0, #[trigger] t[j].0) by {
        assert(t[i] == s[i + 1] && t[j] == s[j + 1]);
    }
    lemma_lookup_found(t, s[0].0);
    if lookup(t, s[0].0) is Some {
        let j = choose|j: int| 0 <= j < t.len() && t[j].0 == s[0].0 && t[j].1 == lookup(t, s[0].0)->0;
        assert(s[j + 1] == t[j]);
        assert(text_less(s[0].0, s[j + 1].0));
        lemma_text_less_irreflexive(s[0].0, 0);
    }
}

/// Two sorted lists of entries that give the same value for every key
/// are the same.
proof fn lemma_sorted_extensional(a: Seq<(Seq<char>, Seq<char>)>, b: Seq<(Seq<char>, Seq<char>)>)
    requires
        keys_sorted(a),
        keys_sorted(b),
        forall|k: Seq<char>| #[trigger] lookup(a, k) == lookup(b, k),
    ensures
        a == b,
    decreases a.len() + b.len(),
{
    if a.len() == 0 && b.len() == 0 {
        assert(a =~= b);
    } else if a.len() == 0 {
        assert(lookup(b, b[0].0) is Some);
        assert(lookup(a, b[0].0) is None);
    } else if b.len() == 0 {
        assert(lookup(a, a[0].0) is Some);
        assert(lookup(b, a[0].0) is None);
    } else {
        let (ka, kb) = (a[0].0, b[0].0);
        assert(lookup(a, ka) == Some(a[0].1));
        assert(lookup(b, kb) == Some(b[0].1));
        lemma_lookup_found(b, ka);
        lemma_lookup_found(a, kb);
        if ka != kb {
            if text_less(ka, kb) {
                let j = choose|j: int| 0 <= j < b.len() && b[j].0 == ka && b[j].1 == lookup(b, ka)->0;
                assert(j != 0);
                assert(text_less(b[0].0, b[j].0));
                lemma_text_less_transitive(ka, kb, ka, 0);
                lemma_text_less_irreflexive(ka, 0);
            } else if text_less(kb, ka) {
                let j = choose|j: int| 0 <= j < a.len() && a[j].0 == kb && a[j].1 == lookup(a, kb)->0;
                assert(j != 0);
                assert(text_less(a[0].0, a[j].0));
                lemma_text_less_transitive(kb, ka, kb, 0);
                lemma_text_less_irreflexive(kb, 0);
            } else {
                assert(ka.take(0) =~= kb.take(0));
                lemma_text_less_total(ka, kb, 0);
            }
        }
        assert(a[0] == b[0]);
        lemma_sorted_tail(a);
        lemma_sorted_tail(b);
        let (ta, tb) = (a.drop_first(), b.drop_first());
        assert forall|k: Seq<char>| #[trigger] lookup(ta, k) == lookup(tb, k) by {
            if k != ka {
                assert(lookup(a, k) == lookup(ta, k));
                assert(lookup(b, k) == lookup(tb, k));
            }
        }
        lemma_sorted_extensional(ta, tb);
        assert(a =~= seq![a[0]] + ta);
        assert(b =~= seq![b[0]] + tb);
    }
}

/// Setting two different keys gives the same entries in either order.
pub proof fn law_upsert_order_irrelevant(
    s: Seq<(Seq<char>, Seq<char>)>,
    k1: Seq<char>,
    v1: Seq<char>,
    k2: Seq<char>,
    v2: Seq<char>,
)
    requires
        keys_sorted(s),
        k1 != k2,
    ensures
        upsert(upsert(s, k1, v1), k2, v2) == upsert(upsert(s, k2, v2), k1, v1),
{
    let a = upsert(upsert(s, k1, v1), k2, v2);
    let b = upsert(upsert(s, k2, v2), k1, v1);
    law_upsert_keeps_keys_sorted(s, k1, v1);
    law_upsert_keeps_keys_sorted(upsert(s, k1, v1), k2, v2);
    law_upsert_keeps_keys_sorted(s, k2, v2);
    law_upsert_keeps_keys_sorted(upsert(s, k2, v2), k1, v1);
    assert forall|k: Seq<char>| #[trigger] lookup(a, k) == lookup(b, k) by {
        law_lookup_after_upsert(s, k1, v1, k);
        law_lookup_after_upsert(upsert(s, k1, v1), k2, v2, k);
        law_lookup_after_upsert(s, k2, v2, k);
        law_lookup_after_upsert(upsert(s, k2, v2), k1, v1, k);
    }
    lemma_sorted_extensional(a, b);
}

} // verus!
