//! Logic of the command-line driver: the exit code of an error, the
//! compiler the driver sets up, and the source formatter.

use vstd::prelude::*;
use crate::build_config::{Backend, Compiler, is_fresh_config};
use crate::error::{ErrorView, OvieError};
use crate::text::{chars_of, push_char};

verus! {

/// The exit code for an error: 2 for a violated compiler invariant, 1
/// otherwise.
pub fn get_exit_code(error: &OvieError) -> (r: i32)
    ensures
        r == if error@ is InvariantViolation {
            2i32
        } else {
            1i32
        },
{
    match error {
        OvieError::InvariantViolation { .. } => 2,
        _ => 1,
    }
}

/// The compiler the driver uses: the default compiler for the target
/// platform, with debug output as asked. The backend choice is not
/// applied to it.
pub fn create_compiler(backend: Option<Backend>, debug: bool, target_platform: &str) -> (r: Compiler)
    ensures
        r.debug == debug,
        r.default_backend == Backend::Interpreter,
        is_fresh_config(r.build_config@, target_platform@),
        !r.strict_invariants,
{
    let mut compiler = Compiler::new(target_platform);
    compiler.debug = debug;
    compiler
}

/// White space as `char::is_whitespace` knows it (Unicode White_Space).
pub open spec fn is_white(c: char) -> bool {
    let u = c as u32;
    (0x09 <= u && u <= 0x0d) || u == 0x20 || u == 0x85 || u == 0xa0 || u == 0x1680 || (0x2000 <= u && u <= 0x200a)
        || u == 0x2028 || u == 0x2029 || u == 0x202f || u == 0x205f || u == 0x3000
}

fn white(c: char) -> (r: bool)
    ensures
        r == is_white(c),
{
    let u = c as u32;
    (0x09 <= u && u <= 0x0d) || u == 0x20 || u == 0x85 || u == 0xa0 || u == 0x1680 || (0x2000 <= u && u <= 0x200a)
        || u == 0x2028 || u == 0x2029 || u == 0x202f || u == 0x205f || u == 0x3000
}

/// The first position at or after `i` that is not white space.
pub open spec fn skip_white(s: Seq<char>, i: int) -> int
    decreases s.len() - i,
{
    if 0 <= i < s.len() && is_white(s[i]) {
        skip_white(s, i + 1)
    } else {
        i
    }
}

/// The end of `s[..j]` without its trailing white space.
pub open spec fn back_white(s: Seq<char>, lo: int, j: int) -> int
    decreases j - lo,
{
    if lo < j && j <= s.len() && is_white(s[j - 1]) {
        back_white(s, lo, j - 1)
    } else {
        j
    }
}

/// A line without its leading and trailing white space (`str::trim`).
pub open spec fn trim(s: Seq<char>) -> Seq<char> {
    let a = skip_white(s, 0);
    s.subrange(a, back_white(s, a, s.len() as int))
}

/// The number of occurrences of `c` in `s`.
pub open spec fn count_char(s: Seq<char>, c: char) -> nat
    decreases s.len(),
{
    if s.len() == 0 {
        0
    } else {
        count_char(s.drop_last(), c) + if s.last() == c {
            1nat
        } else {
            0nat
        }
    }
}

/// The lines of a text (`str::lines`): the pieces between line feeds,
/// without the empty piece after a final line feed. (A carriage return
/// before a line feed stays on its line; lines are trimmed before use.)
pub open spec fn pieces(s: Seq<char>) -> Seq<Seq<char>>
    decreases s.len(),
{
    if s.len() == 0 {
        seq![seq![]]
    } else {
        let rest = pieces(s.drop_last());
        if s.last() == '\n' {
            rest.push(seq![])
        } else {
            rest.update(rest.len() - 1, rest.last().push(s.last()))
        }
    }
}

/// The lines of a text.
pub open spec fn text_lines(s: Seq<char>) -> Seq<Seq<char>> {
    let p = pieces(s);
    if p.last().len() == 0 {
        p.drop_last()
    } else {
        p
    }
}

/// The formatter's state: the current indentation, whether the last line
/// written is blank, whether it is a comment, and the lines written.
pub struct FmtState {
    pub indent: nat,
    pub prev_blank: bool,
    pub prev_comment: bool,
    pub lines: Seq<Seq<char>>,
}

/// `n` spaces.
pub open spec fn spaces(n: nat) -> Seq<char> {
    Seq::new(n, |i: int| ' ')
}

/// Whether a character can end an operand: a letter, a digit, `_`, or a
/// closing bracket or quote.
pub open spec fn ends_operand(c: char) -> bool {
    ('a' <= c && c <= 'z') || ('A' <= c && c <= 'Z') || ('0' <= c && c <= '9') || c == '_' || c == ')' || c
        == ']' || c == '"' || c == '\''
}

/// Whether `a` and `b` form a two-character operator.
pub open spec fn is_two_char_op(a: char, b: char) -> bool {
    (b == '=' && (a == '=' || a == '!' || a == '<' || a == '>' || a == '+' || a == '-' || a == '*' || a == '/'
        || a == '%')) || (a == '&' && b == '&') || (a == '|' && b == '|') || (a == '-' && b == '>') || (a == '='
        && b == '>')
}

/// Whether `c` is a one-character operator.
pub open spec fn is_one_char_op(c: char) -> bool {
    c == '+' || c == '-' || c == '*' || c == '/' || c == '%' || c == '<' || c == '>' || c == '='
}

/// The length of the operator at `t[i]`: 2, 1, or 0 when none starts there.
pub open spec fn op_len(t: Seq<char>, i: int) -> int {
    if i + 1 < t.len() && is_two_char_op(t[i], t[i + 1]) {
        2
    } else if is_one_char_op(t[i]) {
        1
    } else {
        0
    }
}

/// A text without its trailing spaces.
pub open spec fn drop_spaces_end(s: Seq<char>) -> Seq<char>
    decreases s.len(),
{
    if s.len() > 0 && s.last() == ' ' {
        drop_spaces_end(s.drop_last())
    } else {
        s
    }
}

/// Spacing the operators of `t` from `i` on, after `out`: inside a string
/// literal (`in_str`) and after `//` nothing changes; an operator that
/// follows an operand is binary and gets exactly one space on each side
/// (the spaces after it are dropped while `skip` holds); anything else is
/// copied.
pub open spec fn spaced_from(t: Seq<char>, i: int, out: Seq<char>, in_str: bool, skip: bool) -> Seq<char>
    decreases t.len() - i,
{
    if i < 0 || i >= t.len() {
        out
    } else {
        let c = t[i];
        if in_str {
            if c == '\\' && i + 1 < t.len() {
                spaced_from(t, i + 2, out.push(c).push(t[i + 1]), true, false)
            } else {
                spaced_from(t, i + 1, out.push(c), c != '"', false)
            }
        } else if c == '"' {
            spaced_from(t, i + 1, out.push(c), true, false)
        } else if c == '/' && i + 1 < t.len() && t[i + 1] == '/' {
            out + t.subrange(i, t.len() as int)
        } else if c == ' ' && skip {
            spaced_from(t, i + 1, out, false, true)
        } else if op_len(t, i) > 0 && drop_spaces_end(out).len() > 0 && ends_operand(drop_spaces_end(out).last()) {
            let n = op_len(t, i);
            spaced_from(t, i + n, drop_spaces_end(out) + seq![' '] + t.subrange(i, i + n) + seq![' '], false, true)
        } else {
            spaced_from(t, i + 1, out.push(c), false, false)
        }
    }
}

/// A line with exactly one space around each binary operator.
pub open spec fn spaced(t: Seq<char>) -> Seq<char> {
    spaced_from(t, 0, seq![], false, false)
}

/// Whether a trimmed line is a comment.
pub open spec fn is_comment(t: Seq<char>) -> bool {
    t.len() >= 2 && t[0] == '/' && t[1] == '/'
}

/// The formatter's step on one line. A line that starts with `}` is
/// dedented by 4 first (when it can be); a blank line is written only
/// after a line that is not blank; any other line is written trimmed, with
/// one space around its binary operators, at the current indentation, which
/// then grows by 4 per net `{`, or, when the line does not start with `}`,
/// shrinks by 4 per net `}` (not below 0). A top-level declaration (a line
/// at indentation 0 that does not start with `}`) that follows a line which
/// is neither blank nor a comment gets one blank line before it.
pub open spec fn fmt_step(st: FmtState, raw: Seq<char>) -> FmtState {
    let t = trim(raw);
    let opens = count_char(t, '{');
    let closes = count_char(t, '}');
    let starts_close = t.len() > 0 && t[0] == '}';
    let indent = if starts_close && st.indent >= 4 {
        (st.indent - 4) as nat
    } else {
        st.indent
    };
    if t.len() == 0 {
        if !st.prev_blank {
            FmtState { indent, prev_blank: true, prev_comment: false, lines: st.lines.push(seq![]) }
        } else {
            FmtState { indent, prev_blank: true, prev_comment: false, lines: st.lines }
        }
    } else {
        let next = if opens > closes {
            indent + (opens - closes) * 4
        } else if opens < closes && !starts_close {
            if indent >= (closes - opens) * 4 {
                indent - (closes - opens) * 4
            } else {
                0
            }
        } else {
            indent as int
        };
        let separated = if indent == 0 && !starts_close && st.lines.len() > 0 && !st.prev_blank
            && !st.prev_comment {
            st.lines.push(seq![])
        } else {
            st.lines
        };
        FmtState {
            indent: next as nat,
            prev_blank: false,
            prev_comment: is_comment(t),
            lines: separated.push(spaces(indent) + trim(spaced(t))),
        }
    }
}

/// The formatter's state after a sequence of lines.
pub open spec fn fmt_lines(ls: Seq<Seq<char>>) -> FmtState
    decreases ls.len(),
{
    if ls.len() == 0 {
        FmtState { indent: 0, prev_blank: false, prev_comment: false, lines: seq![] }
    } else {
        fmt_step(fmt_lines(ls.drop_last()), ls.last())
    }
}

/// The lines without the blank ones at the start.
pub open spec fn drop_leading_blank(ls: Seq<Seq<char>>) -> Seq<Seq<char>>
    decreases ls.len(),
{
    if ls.len() > 0 && ls[0].len() == 0 {
        drop_leading_blank(ls.drop_first())
    } else {
        ls
    }
}

/// The lines without the blank ones at the end.
pub open spec fn drop_trailing_blank(ls: Seq<Seq<char>>) -> Seq<Seq<char>>
    decreases ls.len(),
{
    if ls.len() > 0 && ls.last().len() == 0 {
        drop_trailing_blank(ls.drop_last())
    } else {
        ls
    }
}

/// Each line followed by a line feed.
pub open spec fn unlines(ls: Seq<Seq<char>>) -> Seq<char>
    decreases ls.len(),
{
    if ls.len() == 0 {
        seq![]
    } else {
        unlines(ls.drop_last()) + ls.last() + seq!['\n']
    }
}

/// The formatted source: the lines formatted in turn, without blank lines
/// at the start and the end, each ended by a line feed.
pub open spec fn formatted(source: Seq<char>) -> Seq<char> {
    unlines(drop_trailing_blank(drop_leading_blank(fmt_lines(text_lines(source)).lines)))
}

proof fn lemma_skip_white(s: Seq<char>, i: int)
    requires
        0 <= i <= s.len(),
    ensures
        i <= skip_white(s, i) <= s.len(),
    decreases s.len() - i,
{
    if i < s.len() && is_white(s[i]) {
        lemma_skip_white(s, i + 1);
    }
}

proof fn lemma_back_white(s: Seq<char>, lo: int, j: int)
    requires
        0 <= lo <= j <= s.len(),
    ensures
        lo <= back_white(s, lo, j) <= j,
    decreases j - lo,
{
    if lo < j && is_white(s[j - 1]) {
        lemma_back_white(s, lo, j - 1);
    }
}

proof fn lemma_count_le(s: Seq<char>, c: char)
    ensures
        count_char(s, c) <= s.len(),
    decreases s.len(),
{
    if s.len() > 0 {
        lemma_count_le(s.drop_last(), c);
    }
}

/// The trimmed characters `w[start..end]` and their brace counts.
fn trim_range(w: &Vec<char>, start: usize, end: usize) -> (r: (usize, usize))
    requires
        start <= end <= w@.len(),
    ensures
        w@.subrange(r.0 as int, r.1 as int) == trim(w@.subrange(start as int, end as int)),
        start <= r.0 <= r.1 <= end,
{
    let ghost s = w@.subrange(start as int, end as int);
    let mut a = start;
    while a < end && white(w[a])
        invariant
            start <= a <= end <= w@.len(),
            s == w@.subrange(start as int, end as int),
            skip_white(s, (a - start) as int) == skip_white(s, 0),
        decreases end - a,
    {
        a = a + 1;
    }
    proof {
        lemma_skip_white(s, 0);
    }
    let mut b = end;
    while b > a && white(w[b - 1])
        invariant
            start <= a <= b <= end <= w@.len(),
            s == w@.subrange(start as int, end as int),
            skip_white(s, 0) == a - start,
            back_white(s, (a - start) as int, (b - start) as int) == back_white(s, (a - start) as int, s.len() as int),
        decreases b - a,
    {
        b = b - 1;
    }
    assert(w@.subrange(a as int, b as int) =~= s.subrange((a - start) as int, (b - start) as int));
    (a, b)
}

/// The number of occurrences of `c` in `w[start..end]`.
fn count_in(w: &Vec<char>, start: usize, end: usize, c: char) -> (n: usize)
    requires
        start <= end <= w@.len(),
    ensures
        n == count_char(w@.subrange(start as int, end as int), c),
{
    let ghost s = w@.subrange(start as int, end as int);
    let mut n: usize = 0;
    let mut k = start;
    while k < end
        invariant
            start <= k <= end <= w@.len(),
            s == w@.subrange(start as int, end as int),
            n == count_char(s.take(k - start), c),
            n <= k - start,
        decreases end - k,
    {
        assert(s.take(k - start + 1).drop_last() =~= s.take(k - start));
        if w[k] == c {
            n = n + 1;
        }
        k = k + 1;
    }
    assert(s.take(end - start) =~= s);
    n
}


/// The lines written, as plain values.
pub open spec fn lines_view(v: Seq<String>) -> Seq<Seq<char>> {
    v.map_values(|l: String| l@)
}

fn ends_operand_exec(c: char) -> (r: bool)
    ensures
        r == ends_operand(c),
{
    ('a' <= c && c <= 'z') || ('A' <= c && c <= 'Z') || ('0' <= c && c <= '9') || c == '_' || c == ')' || c
        == ']' || c == '"' || c == '\''
}

/// The length of the operator at `w[i]` within `w[a..b]`.
fn op_len_at(w: &Vec<char>, a: usize, i: usize, b: usize) -> (n: usize)
    requires
        a <= i < b <= w@.len(),
    ensures
        n as int == op_len(w@.subrange(a as int, b as int), i - a),
        n <= b - i,
{
    let c = w[i];
    if i + 1 < b {
        let d = w[i + 1];
        if (d == '=' && (c == '=' || c == '!' || c == '<' || c == '>' || c == '+' || c == '-' || c == '*' || c
            == '/' || c == '%')) || (c == '&' && d == '&') || (c == '|' && d == '|') || (c == '-' && d == '>')
            || (c == '=' && d == '>') {
            return 2;
        }
    }
    if c == '+' || c == '-' || c == '*' || c == '/' || c == '%' || c == '<' || c == '>' || c == '=' {
        1
    } else {
        0
    }
}

/// The position after the last character of `v` that is not a space.
fn end_without_spaces(v: &Vec<char>) -> (e: usize)
    ensures
        e <= v@.len(),
        v@.take(e as int) == drop_spaces_end(v@),
{
    let mut e = v.len();
    assert(v@.take(e as int) =~= v@);
    while e > 0 && v[e - 1] == ' '
        invariant
            e <= v@.len(),
            drop_spaces_end(v@.take(e as int)) == drop_spaces_end(v@),
        decreases e,
    {
        assert(v@.take(e as int).drop_last() =~= v@.take(e - 1));
        e = e - 1;
    }
    e
}

/// `w[a..b]` with exactly one space around each binary operator.
fn space_line(w: &Vec<char>, a: usize, b: usize) -> (r: Vec<char>)
    requires
        a <= b <= w@.len(),
    ensures
        r@ == spaced(w@.subrange(a as int, b as int)),
{
    let ghost t = w@.subrange(a as int, b as int);
    let mut out: Vec<char> = Vec::new();
    let mut in_str = false;
    let mut skip = false;
    let mut i = a;
    while i < b
        invariant
            a <= i <= b <= w@.len(),
            t == w@.subrange(a as int, b as int),
            spaced_from(t, i - a, out@, in_str, skip) == spaced(t),
        decreases b - i,
    {
        let c = w[i];
        assert(t[i - a] == c);
        let ghost k0 = (i - a) as int;
        let ghost o0 = out@;
        let ghost s0 = in_str;
        let ghost sk0 = skip;
        if in_str {
            if c == '\\' && i + 1 < b {
                assert(t[i - a + 1] == w@[i + 1]);
                out.push(c);
                out.push(w[i + 1]);
                i = i + 2;
            } else {
                out.push(c);
                in_str = c != '"';
                i = i + 1;
            }
            skip = false;
        } else if c == '"' {
            out.push(c);
            in_str = true;
            skip = false;
            i = i + 1;
        } else if c == '/' && i + 1 < b && w[i + 1] == '/' {
            assert(t[i - a + 1] == w@[i + 1]);
            let ghost head = out@;
            let ghost k = i - a;
            while i < b
                invariant
                    a <= i <= b <= w@.len(),
                    t == w@.subrange(a as int, b as int),
                    0 <= k <= i - a,
                    out@ == head + t.subrange(k, i - a),
                decreases b - i,
            {
                out.push(w[i]);
                i = i + 1;
                assert(out@ =~= head + t.subrange(k, i - a));
            }
            assert(spaced_from(t, k, head, false, skip) == head + t.subrange(k, t.len() as int));
            return out;
        } else if c == ' ' && skip {
            i = i + 1;
        } else {
            let n = op_len_at(w, a, i, b);
            let e = end_without_spaces(&out);
            if n > 0 && e > 0 && ends_operand_exec(out[e - 1]) {
                let ghost before = out@;
                out.truncate(e);
                assert(out@ == drop_spaces_end(before));
                out.push(' ');
                let mut m: usize = 0;
                while m < n
                    invariant
                        m <= n,
                        n <= b - i,
                        a <= i < b <= w@.len(),
                        t == w@.subrange(a as int, b as int),
                        out@ == drop_spaces_end(before) + seq![' '] + t.subrange(i - a, i - a + m),
                    decreases n - m,
                {
                    out.push(w[i + m]);
                    m = m + 1;
                    assert(out@ =~= drop_spaces_end(before) + seq![' '] + t.subrange(i - a, i - a + m));
                }
                out.push(' ');
                i = i + n;
                skip = true;
                assert(t.subrange(k0, k0 + n) =~= w@.subrange(i - n, i as int));
                assert(out@ =~= drop_spaces_end(o0) + seq![' '] + t.subrange(k0, k0 + n) + seq![' ']);
            } else {
                out.push(c);
                skip = false;
                i = i + 1;
            }
        }
        assert(spaced_from(t, k0, o0, s0, sk0) == spaced_from(t, i - a, out@, in_str, skip));
    }
    out
}

/// The formatter's step on the line `w[start..end]`.
fn fmt_line(
    w: &Vec<char>,
    start: usize,
    end: usize,
    indent: usize,
    prev_blank: bool,
    prev_comment: bool,
    lines: &mut Vec<String>,
) -> (r: (usize, bool, bool))
    requires
        start <= end <= w@.len(),
        indent + 4 * (end - start) <= usize::MAX,
    ensures
        ({
            let st = fmt_step(
                FmtState { indent: indent as nat, prev_blank, prev_comment, lines: lines_view(old(lines)@) },
                w@.subrange(start as int, end as int),
            );
            &&& r.0 == st.indent
            &&& r.1 == st.prev_blank
            &&& r.2 == st.prev_comment
            &&& lines_view(final(lines)@) == st.lines
        }),
        r.0 <= indent + 4 * (end - start),
{
    let ghost raw = w@.subrange(start as int, end as int);
    let ghost before = lines_view(lines@);
    let (a, b) = trim_range(w, start, end);
    let ghost t = w@.subrange(a as int, b as int);
    let opens = count_in(w, a, b, '{');
    let closes = count_in(w, a, b, '}');
    proof {
        lemma_count_le(t, '{');
        lemma_count_le(t, '}');
    }
    let starts_close = a < b && w[a] == '}';
    let indent1 = if starts_close && indent >= 4 {
        indent - 4
    } else {
        indent
    };
    if a == b {
        if !prev_blank {
            lines.push(String::new());
            assert(lines_view(lines@) =~= before.push(seq![]));
        }
        return (indent1, true, false);
    }
    let comment = b - a >= 2 && w[a] == '/' && w[a + 1] == '/';
    assert(comment == is_comment(t));
    if indent1 == 0 && !starts_close && lines.len() > 0 && !prev_blank && !prev_comment {
        lines.push(String::new());
        assert(lines_view(lines@) =~= before.push(seq![]));
    }
    let ghost separated = lines_view(lines@);
    let sp = space_line(w, a, b);
    assert(sp@.subrange(0, sp@.len() as int) =~= sp@);
    let (p, q) = trim_range(&sp, 0, sp.len());
    let mut text = String::new();
    let mut k: usize = 0;
    while k < indent1
        invariant
            k <= indent1,
            text@ == spaces(k as nat),
        decreases indent1 - k,
    {
        push_char(&mut text, ' ');
        k = k + 1;
        assert(text@ =~= spaces(k as nat));
    }
    let mut m = p;
    while m < q
        invariant
            p <= m <= q <= sp@.len(),
            text@ == spaces(indent1 as nat) + sp@.subrange(p as int, m as int),
        decreases q - m,
    {
        push_char(&mut text, sp[m]);
        m = m + 1;
        assert(text@ =~= spaces(indent1 as nat) + sp@.subrange(p as int, m as int));
    }
    lines.push(text);
    assert(lines_view(lines@) =~= separated.push(spaces(indent1 as nat) + trim(spaced(t))));
    let next = if opens > closes {
        indent1 + (opens - closes) * 4
    } else if opens < closes && !starts_close {
        let decrease = (closes - opens) * 4;
        if indent1 >= decrease {
            indent1 - decrease
        } else {
            0
        }
    } else {
        indent1
    };
    (next, false, comment)
}

proof fn lemma_pieces_nonempty(s: Seq<char>)
    ensures
        pieces(s).len() >= 1,
    decreases s.len(),
{
    if s.len() > 0 {
        lemma_pieces_nonempty(s.drop_last());
    }
}

/// The first line that is not blank, from `i` on.
pub open spec fn first_filled(ls: Seq<Seq<char>>, i: int) -> int
    decreases ls.len() - i,
{
    if 0 <= i < ls.len() && ls[i].len() == 0 {
        first_filled(ls, i + 1)
    } else {
        i
    }
}

proof fn lemma_drop_leading(ls: Seq<Seq<char>>, i: int)
    requires
        0 <= i <= ls.len(),
    ensures
        drop_leading_blank(ls.skip(i)) == ls.skip(first_filled(ls, i)),
        i <= first_filled(ls, i) <= ls.len(),
    decreases ls.len() - i,
{
    if i < ls.len() && ls[i].len() == 0 {
        assert(ls.skip(i).drop_first() =~= ls.skip(i + 1));
        lemma_drop_leading(ls, i + 1);
    }
}

proof fn lemma_drop_trailing(ls: Seq<Seq<char>>, j: int)
    requires
        0 <= j <= ls.len(),
    ensures
        drop_trailing_blank(ls.take(j)) == ls.take(last_filled(ls, j)),
        0 <= last_filled(ls, j) <= j,
    decreases j,
{
    if j > 0 && ls[j - 1].len() == 0 {
        assert(ls.take(j).drop_last() =~= ls.take(j - 1));
        lemma_drop_trailing(ls, j - 1);
    }
}

/// The end of the lines before `j` without the blank ones at the end.
pub open spec fn last_filled(ls: Seq<Seq<char>>, j: int) -> int
    decreases j,
{
    if 0 < j <= ls.len() && ls[j - 1].len() == 0 {
        last_filled(ls, j - 1)
    } else {
        j
    }
}

/// Format Ovie source: each line trimmed, with exactly one space around
/// its binary operators, and indented by 4 spaces per open brace; one blank
/// line between top-level declarations, runs of blank lines kept as one, no
/// blank lines at the start or the end, and every line ended by a line
/// feed.
#[verifier::spinoff_prover]
#[verifier::rlimit(60)]
pub fn format_ovie_source(source: &str) -> (r: String)
    requires
        4 * source@.len() + 8 <= usize::MAX,
    ensures
        r@ == formatted(source@),
{
    let w = chars_of(source);
    let ghost s = w@;
    let mut lines: Vec<String> = Vec::new();
    let mut indent: usize = 0;
    let mut prev_blank = false;
    let mut prev_comment = false;
    let mut line_start: usize = 0;
    let ghost mut done: Seq<Seq<char>> = seq![];
    let mut i: usize = 0;
    proof {
        assert(s.take(0) =~= Seq::<char>::empty());
        assert(pieces(s.take(0)) =~= seq![s.subrange(0, 0)]);
        assert(lines_view(lines@) =~= Seq::<Seq<char>>::empty());
    }
    while i < w.len()
        invariant
            s == w@,
            4 * s.len() + 8 <= usize::MAX,
            line_start <= i <= s.len(),
            pieces(s.take(i as int)) == done.push(s.subrange(line_start as int, i as int)),
            fmt_lines(done) == (FmtState { indent: indent as nat, prev_blank, prev_comment, lines: lines_view(lines@) }),
            indent <= 4 * line_start,
        decreases s.len() - i,
    {
        assert(s.take(i + 1).drop_last() =~= s.take(i as int));
        assert(s.take(i + 1).last() == s[i as int]);
        let ghost old_pieces = pieces(s.take(i as int));
        if w[i] == '\n' {
            let ghost piece = s.subrange(line_start as int, i as int);
            assert(pieces(s.take(i + 1)) == old_pieces.push(seq![]));
            let (n, b, c) = fmt_line(&w, line_start, i, indent, prev_blank, prev_comment, &mut lines);
            indent = n;
            prev_blank = b;
            prev_comment = c;
            proof {
                assert(done.push(piece).drop_last() =~= done);
                done = done.push(piece);
            }
            line_start = i + 1;
            i = i + 1;
            assert(s.subrange(line_start as int, i as int) =~= Seq::<char>::empty());
        } else {
            let ghost piece = s.subrange(line_start as int, i as int);
            assert(pieces(s.take(i + 1)) == old_pieces.update(old_pieces.len() - 1, old_pieces.last().push(s[i as int])));
            assert(piece.push(s[i as int]) =~= s.subrange(line_start as int, i + 1));
            i = i + 1;
            assert(pieces(s.take(i as int)) =~= done.push(s.subrange(line_start as int, i as int)));
        }
    }
    assert(s.take(i as int) =~= s);
    if line_start < w.len() {
        let ghost piece = s.subrange(line_start as int, s.len() as int);
        let (n, b, c) = fmt_line(&w, line_start, w.len(), indent, prev_blank, prev_comment, &mut lines);
        proof {
            assert(text_lines(s) == done.push(piece));
            assert(done.push(piece).drop_last() =~= done);
        }
    } else {
        proof {
            assert(text_lines(s) =~= done);
        }
    }
    let ghost ls = lines_view(lines@);
    assert(ls == fmt_lines(text_lines(s)).lines);
    let mut lo: usize = 0;
    while lo < lines.len() && lines[lo].as_str().is_empty()
        invariant
            ls == lines_view(lines@),
            lo <= ls.len(),
            first_filled(ls, lo as int) == first_filled(ls, 0),
        decreases ls.len() - lo,
    {
        lo = lo + 1;
    }
    let mut hi: usize = lines.len();
    while hi > lo && lines[hi - 1].as_str().is_empty()
        invariant
            ls == lines_view(lines@),
            lo <= hi <= ls.len(),
            lo == first_filled(ls, 0),
            last_filled(ls.skip(lo as int), (hi - lo) as int) == last_filled(ls.skip(lo as int), ls.len() - lo),
        decreases hi - lo,
    {
        assert(ls.skip(lo as int)[hi - lo - 1] == ls[hi - 1]);
        hi = hi - 1;
    }
    proof {
        assert(ls.skip(0) =~= ls);
        lemma_drop_leading(ls, 0);
        let rest = ls.skip(lo as int);
        assert(rest.take(rest.len() as int) =~= rest);
        lemma_drop_trailing(rest, rest.len() as int);
        if hi > lo {
            assert(rest[hi - lo - 1] == ls[hi - 1]);
        }
    }
    let ghost kept = ls.subrange(lo as int, hi as int);
    assert(kept =~= drop_trailing_blank(drop_leading_blank(ls)));
    let mut out = String::new();
    let mut k = lo;
    while k < hi
        invariant
            ls == lines_view(lines@),
            lo <= k <= hi <= ls.len(),
            kept == ls.subrange(lo as int, hi as int),
            out@ == unlines(ls.subrange(lo as int, k as int)),
        decreases hi - k,
    {
        assert(ls.subrange(lo as int, k + 1).drop_last() =~= ls.subrange(lo as int, k as int));
        crate::text::append(&mut out, lines[k].as_str());
        push_char(&mut out, '\n');
        k = k + 1;
        assert(out@ =~= unlines(ls.subrange(lo as int, k as int)));
    }
    out
}

} // verus!
