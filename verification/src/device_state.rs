//! The properties of a device's state: reading and writing them, the
//! checksum that covers them, and the text of a state value.

use vstd::prelude::*;
use std::collections::hash_map::DefaultHasher;
use std::hash::Hasher;
use vstd::utf8::encode_utf8;
use vstd::std_specs::hash::DefaultHasherAdditionalSpecFns;
use crate::hardware::{push_signed, signed_decimal, DeviceState, StateValue};
use crate::text_map::{text_before, text_less};
use crate::text::{append, debug_list, debug_list_text, debug_str, debug_str_text, decimal, joined, lemma_joined_push, owned, push_decimal, same_text};

verus! {

/// The text of a boolean.
pub open spec fn bool_text(b: bool) -> Seq<char> {
    if b {
        "true"@
    } else {
        "false"@
    }
}

/// The `Debug` text of a list of bytes: their decimal values between
/// brackets, separated by `, `.
pub open spec fn bytes_text(data: Seq<u8>) -> Seq<char> {
    "["@ + joined(data.map_values(|b: u8| decimal(b as nat)), ", "@) + "]"@
}

/// A state value as plain values.
pub enum ValueView {
    Boolean(bool),
    Integer { value: i64, min: i64, max: i64 },
    Float { value: u64, precision: u32 },
    String { value: Seq<char>, max_length: usize },
    Binary { data: Seq<u8>, max_size: usize },
    Enum { value: Seq<char>, valid_values: Seq<Seq<char>> },
}

impl View for StateValue {
    type V = ValueView;

    open spec fn view(&self) -> ValueView {
        match self {
            StateValue::Boolean(b) => ValueView::Boolean(*b),
            StateValue::Integer { value, min, max } => ValueView::Integer { value: *value, min: *min, max: *max },
            StateValue::Float { value, precision } => ValueView::Float { value: *value, precision: *precision },
            StateValue::String { value, max_length } => ValueView::String { value: value@, max_length: *max_length },
            StateValue::Binary { data, max_size } => ValueView::Binary { data: data@, max_size: *max_size },
            StateValue::Enum { value, valid_values } => ValueView::Enum {
                value: value@,
                valid_values: valid_values@.map_values(|s: String| s@),
            },
        }
    }
}

impl StateValue {
    /// A copy of the value.
    pub fn duplicate(&self) -> (r: Self)
        ensures
            r@ == self@,
    {
        match self {
            StateValue::Boolean(b) => StateValue::Boolean(*b),
            StateValue::Integer { value, min, max } => StateValue::Integer { value: *value, min: *min, max: *max },
            StateValue::Float { value, precision } => StateValue::Float { value: *value, precision: *precision },
            StateValue::String { value, max_length } => StateValue::String { value: value.clone(), max_length: *max_length },
            StateValue::Binary { data, max_size } => {
                let d = data.clone();
                assert(d@ =~= data@);
                StateValue::Binary { data: d, max_size: *max_size }
            },
            StateValue::Enum { value, valid_values } => {
                let vs = valid_values.clone();
                assert(vs@.map_values(|s: String| s@) =~= valid_values@.map_values(|s: String| s@)) by {
                    assert forall|i: int| 0 <= i < vs@.len() implies vs@[i]@ == valid_values@[i]@ by {
                        assert(cloned::<String>(valid_values@[i], vs@[i]));
                    }
                }
                StateValue::Enum { value: value.clone(), valid_values: vs }
            },
        }
    }
}

/// The text of a state value, as its derived `Debug` writes it (a float
/// is held, and so written, as its bit pattern).
pub open spec fn value_text(v: ValueView) -> Seq<char> {
    match v {
        ValueView::Boolean(b) => "Boolean("@ + bool_text(b) + ")"@,
        ValueView::Integer { value, min, max } => "Integer { value: "@ + signed_decimal(value as int) + ", min: "@
            + signed_decimal(min as int) + ", max: "@ + signed_decimal(max as int) + " }"@,
        ValueView::Float { value, precision } => "Float { value: "@ + decimal(value as nat) + ", precision: "@
            + decimal(precision as nat) + " }"@,
        ValueView::String { value, max_length } => "String { value: "@ + debug_str_text(value) + ", max_length: "@
            + decimal(max_length as nat) + " }"@,
        ValueView::Binary { data, max_size } => "Binary { data: "@ + bytes_text(data) + ", max_size: "@ + decimal(
            max_size as nat,
        ) + " }"@,
        ValueView::Enum { value, valid_values } => "Enum { value: "@ + debug_str_text(value) + ", valid_values: "@
            + debug_list_text(valid_values) + " }"@,
    }
}

fn push_bytes(out: &mut String, data: &Vec<u8>)
    ensures
        final(out)@ == old(out)@ + bytes_text(data@),
{
    let ghost d = data@.map_values(|b: u8| decimal(b as nat));
    append(out, "[");
    let mut i: usize = 0;
    while i < data.len()
        invariant
            d == data@.map_values(|b: u8| decimal(b as nat)),
            i <= data@.len(),
            out@ == old(out)@ + "["@ + joined(d.take(i as int), ", "@),
        decreases data@.len() - i,
    {
        proof {
            lemma_joined_push(d.take(i as int), ", "@, d[i as int]);
            assert(d.take(i + 1) =~= d.take(i as int).push(d[i as int]));
        }
        if i > 0 {
            append(out, ", ");
        }
        push_decimal(out, data[i] as u64);
        i = i + 1;
    }
    assert(d.take(i as int) =~= d);
    append(out, "]");
    assert(final(out)@ =~= old(out)@ + bytes_text(data@));
}

/// The text of a state value, as its derived `Debug` writes it.
pub fn value_debug(v: &StateValue) -> (r: String)
    ensures
        r@ == value_text(v@),
{
    let mut out = String::new();
    match v {
        StateValue::Boolean(b) => {
            append(&mut out, "Boolean(");
            append(&mut out, if *b { "true" } else { "false" });
            append(&mut out, ")");
        },
        StateValue::Integer { value, min, max } => {
            append(&mut out, "Integer { value: ");
            push_signed(&mut out, *value);
            append(&mut out, ", min: ");
            push_signed(&mut out, *min);
            append(&mut out, ", max: ");
            push_signed(&mut out, *max);
            append(&mut out, " }");
        },
        StateValue::Float { value, precision } => {
            append(&mut out, "Float { value: ");
            push_decimal(&mut out, *value);
            append(&mut out, ", precision: ");
            push_decimal(&mut out, *precision as u64);
            append(&mut out, " }");
        },
        StateValue::String { value, max_length } => {
            append(&mut out, "String { value: ");
            let t = debug_str(value.as_str());
            append(&mut out, t.as_str());
            append(&mut out, ", max_length: ");
            push_decimal(&mut out, *max_length as u64);
            append(&mut out, " }");
        },
        StateValue::Binary { data, max_size } => {
            append(&mut out, "Binary { data: ");
            push_bytes(&mut out, data);
            append(&mut out, ", max_size: ");
            push_decimal(&mut out, *max_size as u64);
            append(&mut out, " }");
        },
        StateValue::Enum { value, valid_values } => {
            append(&mut out, "Enum { value: ");
            let t = debug_str(value.as_str());
            append(&mut out, t.as_str());
            append(&mut out, ", valid_values: ");
            let l = debug_list(valid_values);
            append(&mut out, l.as_str());
            append(&mut out, " }");
        },
    }
    assert(out@ =~= value_text(v@));
    out
}

/// The position, among the first `j` of `order`, of the property with the
/// least name (the first such one).
pub open spec fn least_upto(ps: Seq<(String, StateValue)>, order: Seq<usize>, j: int) -> int
    decreases j,
{
    if j <= 1 {
        0
    } else {
        let b = least_upto(ps, order, j - 1);
        if text_less(ps[order[j - 1] as int].0@, ps[order[b] as int].0@) {
            j - 1
        } else {
            b
        }
    }
}

/// The properties at the positions `order`, by name: repeatedly the one
/// with the least name.
pub open spec fn sorted_order(ps: Seq<(String, StateValue)>, order: Seq<usize>) -> Seq<usize>
    decreases order.len(),
{
    if order.len() == 0 {
        seq![]
    } else {
        let b = least_upto(ps, order, order.len() as int);
        proof {
            lemma_least_in_range(ps, order, order.len() as int);
        }
        seq![order[b]] + sorted_order(ps, order.remove(b))
    }
}

/// What hashing a text writes: its UTF-8 bytes, then the byte `0xff`.
pub open spec fn text_writes(t: Seq<char>) -> Seq<Seq<u8>> {
    seq![encode_utf8(t), seq![0xffu8]]
}

/// What hashing the properties at the positions `order` writes: each name
/// then the text of its value.
pub open spec fn property_writes(ps: Seq<(String, StateValue)>, order: Seq<usize>) -> Seq<Seq<u8>>
    decreases order.len(),
{
    if order.len() == 0 {
        seq![]
    } else {
        text_writes(ps[order[0] as int].0@) + text_writes(value_text(ps[order[0] as int].1@)) + property_writes(
            ps,
            order.drop_first(),
        )
    }
}

/// All positions of a list of properties.
pub open spec fn all_positions(n: nat) -> Seq<usize> {
    Seq::new(n, |i: int| i as usize)
}

/// The checksum of a state's properties: the standard hasher fed with
/// the properties in the order of their names.
pub open spec fn properties_checksum(ps: Seq<(String, StateValue)>) -> u64 {
    DefaultHasher::spec_finish(property_writes(ps, sorted_order(ps, all_positions(ps.len()))))
}

/// The least name is found among the first `j` positions.
pub proof fn lemma_least_in_range(ps: Seq<(String, StateValue)>, order: Seq<usize>, j: int)
    requires
        1 <= j,
    ensures
        0 <= least_upto(ps, order, j) < j,
    decreases j,
{
    if j > 1 {
        lemma_least_in_range(ps, order, j - 1);
    }
}

/// Feed a text to a hasher, as `str` hashes itself.
pub fn hash_text(h: &mut DefaultHasher, t: &str)
    ensures
        final(h)@ == old(h)@ + text_writes(t@),
{
    h.write(t.as_bytes());
    let ff: [u8; 1] = [0xff];
    h.write(ff.as_slice());
    assert(ff@ =~= seq![0xffu8]);
    assert(final(h)@ =~= old(h)@ + text_writes(t@));
}

/// The checksum of a list of properties.
fn checksum_of(ps: &Vec<(String, StateValue)>) -> (r: u64)
    ensures
        r == properties_checksum(ps@),
{
    let n = ps.len();
    let mut remaining: Vec<usize> = Vec::new();
    let mut i: usize = 0;
    while i < n
        invariant
            n == ps@.len(),
            i <= n,
            remaining@ == all_positions(n as nat).take(i as int),
        decreases n - i,
    {
        remaining.push(i);
        i = i + 1;
        assert(remaining@ =~= all_positions(n as nat).take(i as int));
    }
    assert(remaining@ =~= all_positions(n as nat));
    let ghost total = property_writes(ps@, sorted_order(ps@, all_positions(n as nat)));
    let mut h = DefaultHasher::new();
    while remaining.len() > 0
        invariant
            n == ps@.len(),
            forall|k: int| 0 <= k < remaining@.len() ==> remaining@[k] < n,
            h@ + property_writes(ps@, sorted_order(ps@, remaining@)) == total,
        decreases remaining@.len(),
    {
        let m = remaining.len();
        let mut best: usize = 0;
        let mut j: usize = 1;
        while j < m
            invariant
                m == remaining@.len(),
                1 <= j <= m,
                best == least_upto(ps@, remaining@, j as int),
                forall|k: int| 0 <= k < remaining@.len() ==> remaining@[k] < n,
                n == ps@.len(),
            decreases m - j,
        {
            proof {
                lemma_least_in_range(ps@, remaining@, j as int);
            }
            if text_before(ps[remaining[j]].0.as_str(), ps[remaining[best]].0.as_str()) {
                best = j;
            }
            j = j + 1;
        }
        proof {
            lemma_least_in_range(ps@, remaining@, m as int);
        }
        let ghost before = remaining@;
        let ghost hb = h@;
        let k = remaining.remove(best);
        let ghost so = sorted_order(ps@, before);
        assert(so == seq![k] + sorted_order(ps@, remaining@));
        assert(so.drop_first() =~= sorted_order(ps@, remaining@));
        hash_text(&mut h, ps[k].0.as_str());
        let t = value_debug(&ps[k].1);
        hash_text(&mut h, t.as_str());
        assert(property_writes(ps@, so) == text_writes(ps@[k as int].0@) + text_writes(value_text(ps@[k as int].1@))
            + property_writes(ps@, sorted_order(ps@, remaining@)));
        assert(h@ + property_writes(ps@, sorted_order(ps@, remaining@)) =~= hb + property_writes(ps@, so));
        assert forall|q: int| 0 <= q < remaining@.len() implies remaining@[q] < n by {
            if q < best {
                assert(remaining@[q] == before[q]);
            } else {
                assert(remaining@[q] == before[q + 1]);
            }
        }
    }
    assert(property_writes(ps@, sorted_order(ps@, remaining@)) =~= Seq::<Seq<u8>>::empty());
    assert(h@ =~= total);
    h.finish()
}

/// The first property named `name` from position `i` on, if any.
pub open spec fn property_index_from(ps: Seq<(String, StateValue)>, name: Seq<char>, i: int) -> Option<int>
    decreases ps.len() - i,
{
    if i < 0 || i >= ps.len() {
        None
    } else if ps[i].0@ == name {
        Some(i)
    } else {
        property_index_from(ps, name, i + 1)
    }
}

/// The first property named `name`, if any.
pub open spec fn property_index(ps: Seq<(String, StateValue)>, name: Seq<char>) -> Option<int> {
    property_index_from(ps, name, 0)
}

/// The first property of a name is found from where the search starts.
pub proof fn lemma_property_index_from(ps: Seq<(String, StateValue)>, name: Seq<char>, i: int)
    requires
        0 <= i,
    ensures
        property_index_from(ps, name, i) matches Some(k) ==> i <= k < ps.len() && ps[k].0@ == name && forall|j: int|
            i <= j < k ==> ps[j].0@ != name,
    decreases ps.len() - i,
{
    if i < ps.len() && ps[i].0@ != name {
        lemma_property_index_from(ps, name, i + 1);
    }
}

/// The properties with `name` set to `value`: its first entry replaced,
/// or an entry added last.
pub open spec fn with_property(ps: Seq<(String, StateValue)>, name: String, value: StateValue) -> Seq<(String, StateValue)> {
    match property_index(ps, name@) {
        Some(i) => ps.update(i, (name, value)),
        None => ps.push((name, value)),
    }
}

proof fn lemma_index_unchanged(ps: Seq<(String, StateValue)>, qs: Seq<(String, StateValue)>, n: Seq<char>, i: int)
    requires
        0 <= i,
        ps.len() <= qs.len(),
        forall|j: int| i <= j < ps.len() ==> (qs[j].0@ == n <==> ps[j].0@ == n),
        forall|j: int| ps.len() <= j < qs.len() ==> qs[j].0@ != n,
    ensures
        property_index_from(qs, n, i) == property_index_from(ps, n, i),
    decreases qs.len() - i,
{
    if i < qs.len() {
        lemma_index_unchanged(ps, qs, n, i + 1);
    }
}

/// Setting a property depends only on the plain values of its name and
/// value.
pub proof fn lemma_with_property_view(ps: Seq<(String, StateValue)>, n1: String, v1: StateValue, n2: String, v2: StateValue)
    requires
        n1@ == n2@,
        v1@ == v2@,
    ensures
        with_property(ps, n1, v1).map_values(|p: (String, StateValue)| (p.0@, p.1@)) == with_property(ps, n2, v2).map_values(
            |p: (String, StateValue)| (p.0@, p.1@),
        ),
{
    lemma_property_index_from(ps, n1@, 0);
    let a = with_property(ps, n1, v1);
    let b = with_property(ps, n2, v2);
    assert(a.len() == b.len());
    assert forall|i: int| 0 <= i < a.len() implies (a[i].0@, a[i].1@) == (b[i].0@, b[i].1@) by {
        match property_index(ps, n1@) {
            Some(k) => {
                if i == k {
                } else {
                    assert(a[i] == ps[i] && b[i] == ps[i]);
                }
            },
            None => {
                if i < ps.len() {
                    assert(a[i] == ps[i] && b[i] == ps[i]);
                }
            },
        }
    }
    assert(a.map_values(|p: (String, StateValue)| (p.0@, p.1@)) =~= b.map_values(|p: (String, StateValue)| (p.0@, p.1@)));
}

/// Reading a property gives back what was last written to it, and
/// writing one property leaves the others as they were.
pub proof fn law_read_after_write(ps: Seq<(String, StateValue)>, name: String, value: StateValue, other: Seq<char>)
    requires
        other != name@,
    ensures
        property_index(with_property(ps, name, value), name@) matches Some(i) && with_property(ps, name, value)[i]
            == (name, value),
        match property_index(ps, other) {
            Some(k) => property_index(with_property(ps, name, value), other) == Some(k) && with_property(
                ps,
                name,
                value,
            )[k] == ps[k],
            None => property_index(with_property(ps, name, value), other) is None,
        },
{
    lemma_property_index_from(ps, name@, 0);
    lemma_property_index_from(ps, other, 0);
    let qs = with_property(ps, name, value);
    match property_index(ps, name@) {
        Some(i) => {
            assert(forall|j: int| 0 <= j < ps.len() && j != i ==> qs[j] == ps[j]);
            lemma_index_unchanged(ps, qs, other, 0);
            lemma_first_is_found(ps, name@, 0, i);
            lemma_first_is_found(qs, name@, 0, i);
        },
        None => {
            lemma_index_unchanged(ps, qs, other, 0);
            lemma_absent(ps, name@, 0);
            lemma_first_is_found(qs, name@, 0, ps.len() as int);
        },
    }
}

proof fn lemma_absent(ps: Seq<(String, StateValue)>, n: Seq<char>, i: int)
    requires
        0 <= i,
        property_index_from(ps, n, i) is None,
    ensures
        forall|j: int| i <= j < ps.len() ==> ps[j].0@ != n,
    decreases ps.len() - i,
{
    if i < ps.len() {
        lemma_absent(ps, n, i + 1);
    }
}

proof fn lemma_first_is_found(ps: Seq<(String, StateValue)>, n: Seq<char>, i: int, k: int)
    requires
        0 <= i <= k < ps.len(),
        ps[k].0@ == n,
        forall|j: int| i <= j < k ==> ps[j].0@ != n,
    ensures
        property_index_from(ps, n, i) == Some(k),
    decreases k - i,
{
    if i < k {
        lemma_first_is_found(ps, n, i + 1, k);
    }
}

/// The position of the first property named `name`, if any.
pub fn find_property(ps: &Vec<(String, StateValue)>, name: &str) -> (r: Option<usize>)
    ensures
        r matches Some(i) ==> property_index(ps@, name@) == Some(i as int) && i < ps@.len(),
        r is None ==> property_index(ps@, name@) is None,
{
    let mut i: usize = 0;
    while i < ps.len()
        invariant
            i <= ps@.len(),
            property_index(ps@, name@) == property_index_from(ps@, name@, i as int),
        decreases ps@.len() - i,
    {
        if same_text(ps[i].0.as_str(), name) {
            return Some(i);
        }
        i = i + 1;
    }
    None
}

impl DeviceState {
    /// The value of the property named `name`, if the state has one.
    pub fn get_property(&self, name: &str) -> (r: Option<&StateValue>)
        ensures
            match property_index(self.properties@, name@) {
                Some(i) => r == Some(&self.properties@[i].1),
                None => r is None,
            },
    {
        proof {
            lemma_property_index_from(self.properties@, name@, 0);
        }
        match find_property(&self.properties, name) {
            Some(i) => Some(&self.properties[i].1),
            None => None,
        }
    }

    /// Set the property named `name` (replacing its value, or adding it
    /// last), then recompute the checksum.
    pub fn set_property(&mut self, name: String, value: StateValue)
        ensures
            final(self).properties@ == with_property(old(self).properties@, name, value),
            final(self).checksum == properties_checksum(final(self).properties@),
            final(self).transition_history == old(self).transition_history,
            final(self).is_valid == old(self).is_valid,
    {
        proof {
            lemma_property_index_from(self.properties@, name@, 0);
        }
        match find_property(&self.properties, name.as_str()) {
            Some(i) => {
                self.properties.set(i, (name, value));
            },
            None => {
                self.properties.push((name, value));
            },
        }
        self.checksum = checksum_of(&self.properties);
    }
}
} // verus!
