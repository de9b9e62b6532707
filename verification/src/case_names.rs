//! Field names in camel case and in snake case: the conversions by which a
//! field is looked up under either spelling.

use vstd::prelude::*;
use crate::text::{chars_of, owned, push_char};

verus! {

/// Whether a character is upper case (Unicode's `Uppercase` property).
pub uninterp spec fn upper_case(c: char) -> bool;

/// The first character of a character's lower-case mapping.
pub uninterp spec fn lower_first(c: char) -> char;

/// The first character of a character's upper-case mapping.
pub uninterp spec fn upper_first(c: char) -> char;

/// `char::is_uppercase`. Its result is named by `upper_case`.
#[verifier::external_body]
fn is_upper(c: char) -> (r: bool)
    ensures
        r == upper_case(c),
{
    c.is_uppercase()
}

/// The first character of `char::to_lowercase` (the mapping is never
/// empty). Its result is named by `lower_first`.
#[verifier::external_body]
fn to_lower_first(c: char) -> (r: char)
    ensures
        r == lower_first(c),
{
    c.to_lowercase().next().unwrap_or(c)
}

/// The first character of `char::to_uppercase` (the mapping is never
/// empty). Its result is named by `upper_first`.
#[verifier::external_body]
fn to_upper_first(c: char) -> (r: char)
    ensures
        r == upper_first(c),
{
    c.to_uppercase().next().unwrap_or(c)
}

/// The snake-case spelling of the first `n` characters of a name: each
/// upper-case character after the first becomes `_` and its lower case.
pub open spec fn snake_prefix(s: Seq<char>, n: int) -> Seq<char>
    decreases n,
{
    if n <= 0 {
        seq![]
    } else {
        let c = s[n - 1];
        snake_prefix(s, n - 1) + if upper_case(c) && n - 1 > 0 {
            seq!['_', lower_first(c)]
        } else {
            seq![c]
        }
    }
}

/// The snake-case spelling of a camel-case name.
pub open spec fn snake_case(s: Seq<char>) -> Seq<char> {
    snake_prefix(s, s.len() as int)
}

/// Convert camelCase to snake_case.
pub fn camel_to_snake(input: &str) -> (r: String)
    ensures
        r@ == snake_case(input@),
{
    let w = chars_of(input);
    let mut result = String::new();
    let mut i: usize = 0;
    while i < w.len()
        invariant
            w@ == input@,
            i <= w@.len(),
            result@ == snake_prefix(input@, i as int),
        decreases w@.len() - i,
    {
        let ch = w[i];
        if is_upper(ch) && i > 0 {
            push_char(&mut result, '_');
            push_char(&mut result, to_lower_first(ch));
        } else {
            push_char(&mut result, ch);
        }
        i = i + 1;
        assert(result@ =~= snake_prefix(input@, i as int));
    }
    result
}

/// The parts of a text between underscores, from position `i` on, the
/// current part holding `cur`.
pub open spec fn parts_from(s: Seq<char>, i: int, cur: Seq<char>) -> Seq<Seq<char>>
    decreases s.len() - i,
{
    if i < 0 || i >= s.len() {
        seq![cur]
    } else if s[i] == '_' {
        seq![cur] + parts_from(s, i + 1, seq![])
    } else {
        parts_from(s, i + 1, cur.push(s[i]))
    }
}

/// The parts of a text between underscores (`str::split('_')`).
pub open spec fn underscore_parts(s: Seq<char>) -> Seq<Seq<char>> {
    parts_from(s, 0, seq![])
}

/// A part of a snake-case name in camel case: its first character in
/// upper case; an empty part is dropped.
pub open spec fn capitalized(p: Seq<char>) -> Seq<char> {
    if p.len() == 0 {
        seq![]
    } else {
        seq![upper_first(p[0])] + p.drop_first()
    }
}

/// The camel-case spelling of the parts `ps[i..]`.
pub open spec fn camel_rest(ps: Seq<Seq<char>>, i: int) -> Seq<char>
    decreases ps.len() - i,
{
    if i < 0 || i >= ps.len() {
        seq![]
    } else {
        capitalized(ps[i]) + camel_rest(ps, i + 1)
    }
}

/// The camel-case spelling of a snake-case name: the text itself when it
/// has no underscore, else its first part, then each later part with its
/// first character in upper case.
pub open spec fn camel_case(s: Seq<char>) -> Seq<char> {
    let ps = underscore_parts(s);
    if ps.len() <= 1 {
        s
    } else {
        ps[0] + camel_rest(ps, 1)
    }
}

proof fn lemma_parts_len(s: Seq<char>, i: int, cur: Seq<char>)
    requires
        0 <= i,
    ensures
        parts_from(s, i, cur).len() >= 1,
    decreases s.len() - i,
{
    if i < s.len() {
        lemma_parts_len(s, i + 1, if s[i] == '_' { seq![] } else { cur.push(s[i]) });
    }
}

/// Splits the characters at underscores, as `str::split('_')` does.
fn split_parts(w: &Vec<char>) -> (r: Vec<Vec<char>>)
    ensures
        r@.map_values(|p: Vec<char>| p@) == underscore_parts(w@),
{
    let mut parts: Vec<Vec<char>> = Vec::new();
    let mut cur: Vec<char> = Vec::new();
    let mut i: usize = 0;
    while i < w.len()
        invariant
            i <= w@.len(),
            parts@.map_values(|p: Vec<char>| p@) + parts_from(w@, i as int, cur@) == underscore_parts(w@),
        decreases w@.len() - i,
    {
        let ghost before = parts@.map_values(|p: Vec<char>| p@);
        if w[i] == '_' {
            let done = cur;
            cur = Vec::new();
            parts.push(done);
            assert(parts@.map_values(|p: Vec<char>| p@) =~= before.push(done@));
            assert(before + parts_from(w@, i as int, done@) == before + (seq![done@] + parts_from(w@, i + 1, seq![])));
            assert(before.push(done@) + parts_from(w@, i + 1, cur@) =~= before + (seq![done@] + parts_from(
                w@,
                i + 1,
                seq![],
            )));
        } else {
            cur.push(w[i]);
        }
        i = i + 1;
    }
    let ghost before = parts@.map_values(|p: Vec<char>| p@);
    parts.push(cur);
    assert(parts@.map_values(|p: Vec<char>| p@) =~= before + parts_from(w@, i as int, cur@));
    parts
}

/// Convert snake_case to camelCase.
pub fn snake_to_camel(input: &str) -> (r: String)
    ensures
        r@ == camel_case(input@),
{
    let w = chars_of(input);
    let parts = split_parts(&w);
    let ghost ps = parts@.map_values(|p: Vec<char>| p@);
    proof {
        lemma_parts_len(w@, 0, seq![]);
    }
    if parts.len() <= 1 {
        return owned(input);
    }
    let mut result = String::new();
    let mut k: usize = 0;
    while k < parts[0].len()
        invariant
            ps == parts@.map_values(|p: Vec<char>| p@),
            parts@.len() > 1,
            k <= parts@[0]@.len(),
            result@ == parts@[0]@.take(k as int),
        decreases parts@[0]@.len() - k,
    {
        push_char(&mut result, parts[0][k]);
        k = k + 1;
        assert(result@ =~= parts@[0]@.take(k as int));
    }
    assert(parts@[0]@.take(k as int) =~= ps[0]);
    let mut j: usize = 1;
    while j < parts.len()
        invariant
            ps == parts@.map_values(|p: Vec<char>| p@),
            1 <= j <= parts@.len(),
            result@ + camel_rest(ps, j as int) == ps[0] + camel_rest(ps, 1),
        decreases parts@.len() - j,
    {
        let part = &parts[j];
        let ghost before = result@;
        if part.len() > 0 {
            push_char(&mut result, to_upper_first(part[0]));
            let mut k: usize = 1;
            while k < part.len()
                invariant
                    1 <= k <= part@.len(),
                    result@ == before + seq![upper_first(part@[0])] + part@.subrange(1, k as int),
                decreases part@.len() - k,
            {
                push_char(&mut result, part[k]);
                k = k + 1;
                assert(result@ =~= before + seq![upper_first(part@[0])] + part@.subrange(1, k as int));
            }
            assert(part@.subrange(1, k as int) =~= part@.drop_first());
            assert(result@ =~= before + capitalized(ps[j as int]));
        } else {
            assert(capitalized(ps[j as int]) =~= Seq::<char>::empty());
            assert(result@ =~= before + capitalized(ps[j as int]));
        }
        assert(camel_rest(ps, j as int) == capitalized(ps[j as int]) + camel_rest(ps, j + 1));
        assert(before + camel_rest(ps, j as int) =~= result@ + camel_rest(ps, j + 1));
        j = j + 1;
    }
    assert(camel_rest(ps, j as int) =~= Seq::<char>::empty());
    assert(result@ =~= result@ + camel_rest(ps, j as int));
    result
}

} // verus!
