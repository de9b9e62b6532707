//! Lexical analysis of Ovie source text.
//!
//! The lexer reads the source as a sequence of characters and cuts it into
//! tokens by longest match: at each position it skips a run of white space
//! or a `//` comment, or takes the longest identifier, number, string or
//! operator that starts there. The first character that starts no token
//! stops the lexer with an error.

use vstd::prelude::*;
use vstd::utf8::{char_is_scalar, encode_scalar, encode_utf8};
use crate::error::{ErrorView, OvieError, OvieResult, SourceLocation};
use crate::text::{append, chars_of, decimal, owned, push_char, push_decimal, string_of_range};

verus! {

/// Token types for the Ovie language.
#[derive(Debug, Clone, Copy, PartialEq, Eq, Structural)]
pub enum TokenType {
    Fn,
    Mut,
    If,
    Else,
    For,
    While,
    Struct,
    Enum,
    Unsafe,
    Return,
    True,
    False,
    SeeAm,
    Let,
    Identifier,
    StringLiteral,
    FloatLiteral,
    IntegerLiteral,
    /// Number token (alias for IntegerLiteral)
    Number,
    /// String token (alias for StringLiteral)
    String,
    Plus,
    Minus,
    Star,
    Slash,
    Percent,
    EqualEqual,
    NotEqual,
    /// BangEqual token (alias for NotEqual)
    BangEqual,
    Less,
    LessEqual,
    Greater,
    GreaterEqual,
    AndAnd,
    OrOr,
    Bang,
    Equal,
    /// Assignment operator (alias for Equal)
    Assign,
    LeftParen,
    RightParen,
    LeftBrace,
    RightBrace,
    LeftBracket,
    RightBracket,
    Comma,
    Semicolon,
    Colon,
    Dot,
    DotDot,
    In,
    /// White space and comments, which the lexer skips
    Whitespace,
    /// End of file
    Eof,
    /// Error token
    Error,
}

/// The display name of a token type.
pub open spec fn token_name(t: TokenType) -> Seq<char> {
    match t {
        TokenType::Fn => "fn"@,
        TokenType::Mut => "mut"@,
        TokenType::Let => "let"@,
        TokenType::If => "if"@,
        TokenType::Else => "else"@,
        TokenType::For => "for"@,
        TokenType::While => "while"@,
        TokenType::Struct => "struct"@,
        TokenType::Enum => "enum"@,
        TokenType::Unsafe => "unsafe"@,
        TokenType::Return => "return"@,
        TokenType::True => "true"@,
        TokenType::False => "false"@,
        TokenType::SeeAm => "seeAm"@,
        TokenType::Identifier => "identifier"@,
        TokenType::StringLiteral => "string"@,
        TokenType::FloatLiteral => "float"@,
        TokenType::IntegerLiteral => "integer"@,
        TokenType::Number => "number"@,
        TokenType::String => "string"@,
        TokenType::Plus => "+"@,
        TokenType::Minus => "-"@,
        TokenType::Star => "*"@,
        TokenType::Slash => "/"@,
        TokenType::Percent => "%"@,
        TokenType::EqualEqual => "=="@,
        TokenType::NotEqual => "!="@,
        TokenType::BangEqual => "!="@,
        TokenType::Less => "<"@,
        TokenType::LessEqual => "<="@,
        TokenType::Greater => ">"@,
        TokenType::GreaterEqual => ">="@,
        TokenType::AndAnd => "&&"@,
        TokenType::OrOr => "||"@,
        TokenType::Bang => "!"@,
        TokenType::Equal => "="@,
        TokenType::Assign => "="@,
        TokenType::LeftParen => "("@,
        TokenType::RightParen => ")"@,
        TokenType::LeftBrace => "{"@,
        TokenType::RightBrace => "}"@,
        TokenType::LeftBracket => "["@,
        TokenType::RightBracket => "]"@,
        TokenType::Comma => ","@,
        TokenType::Semicolon => ";"@,
        TokenType::Colon => ":"@,
        TokenType::Dot => "."@,
        TokenType::DotDot => ".."@,
        TokenType::In => "in"@,
        TokenType::Whitespace => "whitespace"@,
        TokenType::Eof => "EOF"@,
        TokenType::Error => "error"@,
    }
}

impl TokenType {
    /// The display name of this token type.
    pub fn name(&self) -> (r: &'static str)
        ensures
            r@ == token_name(*self),
    {
        match self {
            TokenType::Fn => "fn",
            TokenType::Mut => "mut",
            TokenType::Let => "let",
            TokenType::If => "if",
            TokenType::Else => "else",
            TokenType::For => "for",
            TokenType::While => "while",
            TokenType::Struct => "struct",
            TokenType::Enum => "enum",
            TokenType::Unsafe => "unsafe",
            TokenType::Return => "return",
            TokenType::True => "true",
            TokenType::False => "false",
            TokenType::SeeAm => "seeAm",
            TokenType::Identifier => "identifier",
            TokenType::StringLiteral => "string",
            TokenType::FloatLiteral => "float",
            TokenType::IntegerLiteral => "integer",
            TokenType::Number => "number",
            TokenType::String => "string",
            TokenType::Plus => "+",
            TokenType::Minus => "-",
            TokenType::Star => "*",
            TokenType::Slash => "/",
            TokenType::Percent => "%",
            TokenType::EqualEqual => "==",
            TokenType::NotEqual => "!=",
            TokenType::BangEqual => "!=",
            TokenType::Less => "<",
            TokenType::LessEqual => "<=",
            TokenType::Greater => ">",
            TokenType::GreaterEqual => ">=",
            TokenType::AndAnd => "&&",
            TokenType::OrOr => "||",
            TokenType::Bang => "!",
            TokenType::Equal => "=",
            TokenType::Assign => "=",
            TokenType::LeftParen => "(",
            TokenType::RightParen => ")",
            TokenType::LeftBrace => "{",
            TokenType::RightBrace => "}",
            TokenType::LeftBracket => "[",
            TokenType::RightBracket => "]",
            TokenType::Comma => ",",
            TokenType::Semicolon => ";",
            TokenType::Colon => ":",
            TokenType::Dot => ".",
            TokenType::DotDot => "..",
            TokenType::In => "in",
            TokenType::Whitespace => "whitespace",
            TokenType::Eof => "EOF",
            TokenType::Error => "error",
        }
    }
}

/// The token type of a word that has the shape of an identifier: the
/// keyword it spells, or `Identifier`.
pub open spec fn keyword_kind(w: Seq<char>) -> TokenType {
    if w == "fn"@ {
        TokenType::Fn
    } else if w == "mut"@ {
        TokenType::Mut
    } else if w == "let"@ {
        TokenType::Let
    } else if w == "if"@ {
        TokenType::If
    } else if w == "else"@ {
        TokenType::Else
    } else if w == "for"@ {
        TokenType::For
    } else if w == "while"@ {
        TokenType::While
    } else if w == "struct"@ {
        TokenType::Struct
    } else if w == "enum"@ {
        TokenType::Enum
    } else if w == "unsafe"@ {
        TokenType::Unsafe
    } else if w == "return"@ {
        TokenType::Return
    } else if w == "true"@ {
        TokenType::True
    } else if w == "false"@ {
        TokenType::False
    } else if w == "seeAm"@ {
        TokenType::SeeAm
    } else if w == "in"@ {
        TokenType::In
    } else {
        TokenType::Identifier
    }
}

/// White space: space, tab, carriage return, line feed, form feed.
pub open spec fn is_blank(c: char) -> bool {
    c == ' ' || c == '\t' || c == '\r' || c == '\n' || c == '\x0c'
}

/// A character that can start an identifier: an ASCII letter or `_`.
pub open spec fn is_ident_start(c: char) -> bool {
    ('a' <= c && c <= 'z') || ('A' <= c && c <= 'Z') || c == '_'
}

/// A character that can continue an identifier: an ASCII letter, an ASCII
/// digit or `_`.
pub open spec fn is_ident_continue(c: char) -> bool {
    is_ident_start(c) || ('0' <= c && c <= '9')
}

/// A character that can stand in a line comment: anything but a carriage
/// return or a line feed.
pub open spec fn is_line_body(c: char) -> bool {
    c != '\r' && c != '\n'
}

/// Whether `c` is a decimal digit: a character of the Unicode general
/// category Nd (Unicode 15), which is what `\d` matches in the token
/// patterns.
pub open spec fn is_decimal_digit(c: char) -> bool {
    let u = c as u32;
    {
        ||| (0x30 <= u && u <= 0x39)
        ||| (0x660 <= u && u <= 0x669)
        ||| (0x6f0 <= u && u <= 0x6f9)
        ||| (0x7c0 <= u && u <= 0x7c9)
        ||| (0x966 <= u && u <= 0x96f)
        ||| (0x9e6 <= u && u <= 0x9ef)
        ||| (0xa66 <= u && u <= 0xa6f)
        ||| (0xae6 <= u && u <= 0xaef)
        ||| (0xb66 <= u && u <= 0xb6f)
        ||| (0xbe6 <= u && u <= 0xbef)
        ||| (0xc66 <= u && u <= 0xc6f)
        ||| (0xce6 <= u && u <= 0xcef)
        ||| (0xd66 <= u && u <= 0xd6f)
        ||| (0xde6 <= u && u <= 0xdef)
        ||| (0xe50 <= u && u <= 0xe59)
        ||| (0xed0 <= u && u <= 0xed9)
        ||| (0xf20 <= u && u <= 0xf29)
        ||| (0x1040 <= u && u <= 0x1049)
        ||| (0x1090 <= u && u <= 0x1099)
        ||| (0x17e0 <= u && u <= 0x17e9)
        ||| (0x1810 <= u && u <= 0x1819)
        ||| (0x1946 <= u && u <= 0x194f)
        ||| (0x19d0 <= u && u <= 0x19d9)
        ||| (0x1a80 <= u && u <= 0x1a89)
        ||| (0x1a90 <= u && u <= 0x1a99)
        ||| (0x1b50 <= u && u <= 0x1b59)
        ||| (0x1bb0 <= u && u <= 0x1bb9)
        ||| (0x1c40 <= u && u <= 0x1c49)
        ||| (0x1c50 <= u && u <= 0x1c59)
        ||| (0xa620 <= u && u <= 0xa629)
        ||| (0xa8d0 <= u && u <= 0xa8d9)
        ||| (0xa900 <= u && u <= 0xa909)
        ||| (0xa9d0 <= u && u <= 0xa9d9)
        ||| (0xa9f0 <= u && u <= 0xa9f9)
        ||| (0xaa50 <= u && u <= 0xaa59)
        ||| (0xabf0 <= u && u <= 0xabf9)
        ||| (0xff10 <= u && u <= 0xff19)
        ||| (0x104a0 <= u && u <= 0x104a9)
        ||| (0x10d30 <= u && u <= 0x10d39)
        ||| (0x11066 <= u && u <= 0x1106f)
        ||| (0x110f0 <= u && u <= 0x110f9)
        ||| (0x11136 <= u && u <= 0x1113f)
        ||| (0x111d0 <= u && u <= 0x111d9)
        ||| (0x112f0 <= u && u <= 0x112f9)
        ||| (0x11450 <= u && u <= 0x11459)
        ||| (0x114d0 <= u && u <= 0x114d9)
        ||| (0x11650 <= u && u <= 0x11659)
        ||| (0x116c0 <= u && u <= 0x116c9)
        ||| (0x11730 <= u && u <= 0x11739)
        ||| (0x118e0 <= u && u <= 0x118e9)
        ||| (0x11950 <= u && u <= 0x11959)
        ||| (0x11c50 <= u && u <= 0x11c59)
        ||| (0x11d50 <= u && u <= 0x11d59)
        ||| (0x11da0 <= u && u <= 0x11da9)
        ||| (0x11f50 <= u && u <= 0x11f59)
        ||| (0x16a60 <= u && u <= 0x16a69)
        ||| (0x16ac0 <= u && u <= 0x16ac9)
        ||| (0x16b50 <= u && u <= 0x16b59)
        ||| (0x1d7ce <= u && u <= 0x1d7ff)
        ||| (0x1e140 <= u && u <= 0x1e149)
        ||| (0x1e2f0 <= u && u <= 0x1e2f9)
        ||| (0x1e4f0 <= u && u <= 0x1e4f9)
        ||| (0x1e950 <= u && u <= 0x1e959)
        ||| (0x1fbf0 <= u && u <= 0x1fbf9)
    }
}

/// The classes of characters that the lexer takes in runs.
#[derive(Debug, Clone, Copy, PartialEq, Eq, Structural)]
pub enum CharClass {
    Blank,
    IdentContinue,
    Digit,
    LineBody,
}

/// Whether `c` belongs to the class `k`.
pub open spec fn in_class(c: char, k: CharClass) -> bool {
    match k {
        CharClass::Blank => is_blank(c),
        CharClass::IdentContinue => is_ident_continue(c),
        CharClass::Digit => is_decimal_digit(c),
        CharClass::LineBody => is_line_body(c),
    }
}

/// The end of the longest run of characters of class `k` that starts at
/// `i`: the first position at or after `i` whose character is not of the
/// class, or the end of the text.
pub open spec fn run_end(s: Seq<char>, i: int, k: CharClass) -> int
    decreases s.len() - i,
{
    if 0 <= i < s.len() && in_class(s[i], k) {
        run_end(s, i + 1, k)
    } else {
        i
    }
}

/// Scans the body of a string literal from `j`, just after its opening
/// quote. A backslash takes the next character with it, unless that is a
/// line feed or the text ends. Gives `(true, e)` when a closing quote ends
/// the literal at `e` (just after the quote), and `(false, e)` when the
/// literal cannot be closed: `e` is then where the scan stopped.
pub open spec fn string_end(s: Seq<char>, j: int) -> (bool, int)
    decreases s.len() - j,
{
    if j < 0 || j >= s.len() {
        (false, s.len() as int)
    } else if s[j] == '"' {
        (true, j + 1)
    } else if s[j] == '\\' {
        if j + 1 < s.len() && s[j + 1] != '\n' {
            string_end(s, j + 2)
        } else {
            (false, j + 1)
        }
    } else {
        string_end(s, j + 1)
    }
}

/// What the lexer does at one position: skip the characters up to an end,
/// take the characters up to an end as a token, or fail on the characters
/// up to an end.
pub enum Step {
    Skip(int),
    Emit(TokenType, int),
    Fail(int),
}

/// The end position of a step.
pub open spec fn step_end(st: Step) -> int {
    match st {
        Step::Skip(e) => e,
        Step::Emit(_, e) => e,
        Step::Fail(e) => e,
    }
}

/// The token type of a character that is a token by itself.
pub open spec fn single_char_token(c: char) -> Option<TokenType> {
    if c == '+' {
        Some(TokenType::Plus)
    } else if c == '-' {
        Some(TokenType::Minus)
    } else if c == '*' {
        Some(TokenType::Star)
    } else if c == '/' {
        Some(TokenType::Slash)
    } else if c == '%' {
        Some(TokenType::Percent)
    } else if c == '=' {
        Some(TokenType::Equal)
    } else if c == '!' {
        Some(TokenType::Bang)
    } else if c == '<' {
        Some(TokenType::Less)
    } else if c == '>' {
        Some(TokenType::Greater)
    } else if c == '(' {
        Some(TokenType::LeftParen)
    } else if c == ')' {
        Some(TokenType::RightParen)
    } else if c == '{' {
        Some(TokenType::LeftBrace)
    } else if c == '}' {
        Some(TokenType::RightBrace)
    } else if c == '[' {
        Some(TokenType::LeftBracket)
    } else if c == ']' {
        Some(TokenType::RightBracket)
    } else if c == ',' {
        Some(TokenType::Comma)
    } else if c == ';' {
        Some(TokenType::Semicolon)
    } else if c == ':' {
        Some(TokenType::Colon)
    } else if c == '.' {
        Some(TokenType::Dot)
    } else {
        None
    }
}

/// The token type of a pair of characters that is a token.
pub open spec fn two_char_token(c: char, d: char) -> Option<TokenType> {
    if c == '=' && d == '=' {
        Some(TokenType::EqualEqual)
    } else if c == '!' && d == '=' {
        Some(TokenType::NotEqual)
    } else if c == '<' && d == '=' {
        Some(TokenType::LessEqual)
    } else if c == '>' && d == '=' {
        Some(TokenType::GreaterEqual)
    } else if c == '&' && d == '&' {
        Some(TokenType::AndAnd)
    } else if c == '|' && d == '|' {
        Some(TokenType::OrOr)
    } else if c == '.' && d == '.' {
        Some(TokenType::DotDot)
    } else {
        None
    }
}

/// The step of the lexer at position `i` of `s` (longest match).
pub open spec fn scan_at(s: Seq<char>, i: int) -> Step
    recommends
        0 <= i < s.len(),
{
    let c = s[i];
    if is_blank(c) {
        Step::Skip(run_end(s, i, CharClass::Blank))
    } else if c == '/' && i + 1 < s.len() && s[i + 1] == '/' {
        Step::Skip(run_end(s, i + 2, CharClass::LineBody))
    } else if is_ident_start(c) {
        let e = run_end(s, i, CharClass::IdentContinue);
        Step::Emit(keyword_kind(s.subrange(i, e)), e)
    } else if is_decimal_digit(c) {
        let e = run_end(s, i, CharClass::Digit);
        if e + 1 < s.len() && s[e] == '.' && is_decimal_digit(s[e + 1]) {
            Step::Emit(TokenType::FloatLiteral, run_end(s, e + 1, CharClass::Digit))
        } else {
            Step::Emit(TokenType::IntegerLiteral, e)
        }
    } else if c == '"' {
        let (closed, e) = string_end(s, i + 1);
        if closed {
            Step::Emit(TokenType::StringLiteral, e)
        } else {
            Step::Fail(e)
        }
    } else if i + 1 < s.len() && two_char_token(c, s[i + 1]) is Some {
        Step::Emit(two_char_token(c, s[i + 1])->0, i + 2)
    } else if single_char_token(c) is Some {
        Step::Emit(single_char_token(c)->0, i + 1)
    } else {
        Step::Fail(i + 1)
    }
}

/// A run ends at or after its start, and within the text when it starts
/// within it.
pub proof fn lemma_run_end_bounds(s: Seq<char>, i: int, k: CharClass)
    requires
        0 <= i <= s.len(),
    ensures
        i <= run_end(s, i, k) <= s.len(),
        forall|j: int| i <= j < run_end(s, i, k) ==> in_class(#[trigger] s[j], k),
        run_end(s, i, k) < s.len() ==> !in_class(s[run_end(s, i, k)], k),
    decreases s.len() - i,
{
    if i < s.len() && in_class(s[i], k) {
        lemma_run_end_bounds(s, i + 1, k);
    }
}

/// The scan of a string body ends after its start and within the text.
pub proof fn lemma_string_end_bounds(s: Seq<char>, j: int)
    requires
        0 <= j <= s.len(),
    ensures
        j < string_end(s, j).1 <= s.len() || (j == s.len() && string_end(s, j).1 == s.len()),
    decreases s.len() - j,
{
    if j < s.len() && s[j] != '"' {
        if s[j] == '\\' {
            if j + 1 < s.len() && s[j + 1] != '\n' {
                lemma_string_end_bounds(s, j + 2);
            }
        } else {
            lemma_string_end_bounds(s, j + 1);
        }
    }
}

/// Every step moves forward and stays within the text.
pub proof fn lemma_scan_progress(s: Seq<char>, i: int)
    requires
        0 <= i < s.len(),
    ensures
        i < step_end(scan_at(s, i)) <= s.len(),
{
    let c = s[i];
    if is_blank(c) {
        lemma_run_end_bounds(s, i, CharClass::Blank);
    } else if c == '/' && i + 1 < s.len() && s[i + 1] == '/' {
        lemma_run_end_bounds(s, i + 2, CharClass::LineBody);
    } else if is_ident_start(c) {
        lemma_run_end_bounds(s, i, CharClass::IdentContinue);
    } else if is_decimal_digit(c) {
        let e = run_end(s, i, CharClass::Digit);
        lemma_run_end_bounds(s, i, CharClass::Digit);
        if e + 1 < s.len() {
            lemma_run_end_bounds(s, e + 1, CharClass::Digit);
        }
    } else if c == '"' {
        lemma_string_end_bounds(s, i + 1);
    }
}

/// A token as the lexer finds it: its type and the positions where its
/// characters start and end.
pub type RawToken = (TokenType, int, int);

/// The tokens of `s` from position `i` on, or the span of the characters
/// that start no token.
pub open spec fn lex_from(s: Seq<char>, i: int) -> Result<Seq<RawToken>, (int, int)>
    decreases s.len() - i,
{
    if i < 0 || i >= s.len() {
        Ok(seq![])
    } else {
        proof {
            lemma_scan_progress(s, i);
        }
        match scan_at(s, i) {
            Step::Skip(e) => lex_from(s, e),
            Step::Emit(t, e) => match lex_from(s, e) {
                Ok(rest) => Ok(seq![(t, i, e)] + rest),
                Err(x) => Err(x),
            },
            Step::Fail(e) => Err((i, e)),
        }
    }
}


/// Line and column (both counted from 1) of position `k` of `s`: a line
/// feed starts a new line, every other character moves one column on.
pub open spec fn line_col(s: Seq<char>, k: int) -> (nat, nat)
    decreases k,
{
    if k <= 0 {
        (1, 1)
    } else {
        let (l, c) = line_col(s, k - 1);
        if s[k - 1] == '\n' {
            (l + 1, 1)
        } else {
            (l, c + 1)
        }
    }
}

/// Byte offset of position `k` of `s` in its UTF-8 encoding.
pub open spec fn byte_offset(s: Seq<char>, k: int) -> nat {
    encode_utf8(s.take(k)).len()
}

/// The source location of position `k` of `s`.
pub open spec fn location_at(s: Seq<char>, k: int) -> SourceLocation {
    SourceLocation {
        line: line_col(s, k).0 as usize,
        column: line_col(s, k).1 as usize,
        offset: byte_offset(s, k) as usize,
    }
}

/// A text whose lines, columns and byte offsets fit in `usize`: this holds
/// of every string that fits in memory.
pub open spec fn lexable(s: Seq<char>) -> bool {
    s.len() < usize::MAX && encode_utf8(s).len() <= usize::MAX
}

/// The UTF-8 encoding of a concatenation is the concatenation of the
/// encodings.
pub proof fn lemma_encode_concat(a: Seq<char>, b: Seq<char>)
    ensures
        encode_utf8(a + b) == encode_utf8(a) + encode_utf8(b),
    decreases a.len(),
{
    if a.len() == 0 {
        assert(a + b =~= b);
        assert(encode_utf8(a) =~= Seq::<u8>::empty());
        assert(encode_utf8(a) + encode_utf8(b) =~= encode_utf8(b));
    } else {
        assert((a + b).drop_first() =~= a.drop_first() + b);
        assert((a + b)[0] == a[0]);
        lemma_encode_concat(a.drop_first(), b);
        assert(encode_utf8(a + b) =~= encode_utf8(a) + encode_utf8(b));
    }
}

/// One more character moves the byte offset by the width of its encoding,
/// and every byte offset lies within the encoding of the whole text.
pub proof fn lemma_byte_offset_step(s: Seq<char>, k: int)
    requires
        0 <= k < s.len(),
    ensures
        byte_offset(s, k + 1) == byte_offset(s, k) + encode_scalar(s[k] as u32).len(),
        byte_offset(s, k + 1) <= encode_utf8(s).len(),
{
    let c = s[k];
    assert(s.take(k + 1) =~= s.take(k) + seq![c]);
    lemma_encode_concat(s.take(k), seq![c]);
    assert(seq![c].drop_first() =~= Seq::<char>::empty());
    assert(encode_utf8(seq![c]) =~= encode_scalar(c as u32) + encode_utf8(Seq::<char>::empty()));
    assert(s =~= s.take(k + 1) + s.skip(k + 1));
    lemma_encode_concat(s.take(k + 1), s.skip(k + 1));
}

/// Lines and columns start at 1 and grow by at most one per character.
pub proof fn lemma_line_col_bounds(s: Seq<char>, k: int)
    requires
        0 <= k,
    ensures
        1 <= line_col(s, k).0 <= k + 1,
        1 <= line_col(s, k).1 <= k + 1,
    decreases k,
{
    if k > 0 {
        lemma_line_col_bounds(s, k - 1);
    }
}

/// The number of bytes in the UTF-8 encoding of `c`.
fn utf8_width(c: char) -> (w: usize)
    ensures
        w == encode_scalar(c as u32).len(),
        1 <= w <= 4,
{
    let u = c as u32;
    proof {
        char_is_scalar(c);
    }
    if u <= 0x7f {
        1
    } else if u <= 0x7ff {
        2
    } else if u <= 0xffff {
        3
    } else {
        4
    }
}

/// The location of position `to`, from that of position `from`.
fn advance(w: &Vec<char>, from: usize, to: usize, loc: SourceLocation) -> (r: SourceLocation)
    requires
        from <= to <= w@.len(),
        lexable(w@),
        loc == location_at(w@, from as int),
    ensures
        r == location_at(w@, to as int),
{
    let ghost s = w@;
    proof {
        lemma_line_col_bounds(s, from as int);
        if from > 0 {
            lemma_byte_offset_step(s, from - 1);
        } else {
            assert(s.take(0) =~= Seq::<char>::empty());
        }
    }
    let mut line = loc.line;
    let mut column = loc.column;
    let mut offset = loc.offset;
    let mut j = from;
    while j < to
        invariant
            s == w@,
            from <= j <= to <= s.len(),
            lexable(s),
            line == line_col(s, j as int).0,
            column == line_col(s, j as int).1,
            offset == byte_offset(s, j as int),
        decreases to - j,
    {
        proof {
            lemma_line_col_bounds(s, j as int);
            lemma_byte_offset_step(s, j as int);
        }
        if w[j] == '\n' {
            line = line + 1;
            column = 1;
        } else {
            column = column + 1;
        }
        offset = offset + utf8_width(w[j]);
        j = j + 1;
    }
    SourceLocation { line, column, offset }
}

/// Whether `c` belongs to the class `k`.
fn class_member(c: char, k: CharClass) -> (r: bool)
    ensures
        r == in_class(c, k),
{
    match k {
        CharClass::Blank => c == ' ' || c == '\t' || c == '\r' || c == '\n' || c == '\x0c',
        CharClass::IdentContinue => ident_start(c) || ('0' <= c && c <= '9'),
        CharClass::Digit => decimal_digit(c),
        CharClass::LineBody => c != '\r' && c != '\n',
    }
}

fn ident_start(c: char) -> (r: bool)
    ensures
        r == is_ident_start(c),
{
    ('a' <= c && c <= 'z') || ('A' <= c && c <= 'Z') || c == '_'
}

fn decimal_digit(c: char) -> (r: bool)
    ensures
        r == is_decimal_digit(c),
{
    let u = c as u32;
        (0x30 <= u && u <= 0x39)
        || (0x660 <= u && u <= 0x669)
        || (0x6f0 <= u && u <= 0x6f9)
        || (0x7c0 <= u && u <= 0x7c9)
        || (0x966 <= u && u <= 0x96f)
        || (0x9e6 <= u && u <= 0x9ef)
        || (0xa66 <= u && u <= 0xa6f)
        || (0xae6 <= u && u <= 0xaef)
        || (0xb66 <= u && u <= 0xb6f)
        || (0xbe6 <= u && u <= 0xbef)
        || (0xc66 <= u && u <= 0xc6f)
        || (0xce6 <= u && u <= 0xcef)
        || (0xd66 <= u && u <= 0xd6f)
        || (0xde6 <= u && u <= 0xdef)
        || (0xe50 <= u && u <= 0xe59)
        || (0xed0 <= u && u <= 0xed9)
        || (0xf20 <= u && u <= 0xf29)
        || (0x1040 <= u && u <= 0x1049)
        || (0x1090 <= u && u <= 0x1099)
        || (0x17e0 <= u && u <= 0x17e9)
        || (0x1810 <= u && u <= 0x1819)
        || (0x1946 <= u && u <= 0x194f)
        || (0x19d0 <= u && u <= 0x19d9)
        || (0x1a80 <= u && u <= 0x1a89)
        || (0x1a90 <= u && u <= 0x1a99)
        || (0x1b50 <= u && u <= 0x1b59)
        || (0x1bb0 <= u && u <= 0x1bb9)
        || (0x1c40 <= u && u <= 0x1c49)
        || (0x1c50 <= u && u <= 0x1c59)
        || (0xa620 <= u && u <= 0xa629)
        || (0xa8d0 <= u && u <= 0xa8d9)
        || (0xa900 <= u && u <= 0xa909)
        || (0xa9d0 <= u && u <= 0xa9d9)
        || (0xa9f0 <= u && u <= 0xa9f9)
        || (0xaa50 <= u && u <= 0xaa59)
        || (0xabf0 <= u && u <= 0xabf9)
        || (0xff10 <= u && u <= 0xff19)
        || (0x104a0 <= u && u <= 0x104a9)
        || (0x10d30 <= u && u <= 0x10d39)
        || (0x11066 <= u && u <= 0x1106f)
        || (0x110f0 <= u && u <= 0x110f9)
        || (0x11136 <= u && u <= 0x1113f)
        || (0x111d0 <= u && u <= 0x111d9)
        || (0x112f0 <= u && u <= 0x112f9)
        || (0x11450 <= u && u <= 0x11459)
        || (0x114d0 <= u && u <= 0x114d9)
        || (0x11650 <= u && u <= 0x11659)
        || (0x116c0 <= u && u <= 0x116c9)
        || (0x11730 <= u && u <= 0x11739)
        || (0x118e0 <= u && u <= 0x118e9)
        || (0x11950 <= u && u <= 0x11959)
        || (0x11c50 <= u && u <= 0x11c59)
        || (0x11d50 <= u && u <= 0x11d59)
        || (0x11da0 <= u && u <= 0x11da9)
        || (0x11f50 <= u && u <= 0x11f59)
        || (0x16a60 <= u && u <= 0x16a69)
        || (0x16ac0 <= u && u <= 0x16ac9)
        || (0x16b50 <= u && u <= 0x16b59)
        || (0x1d7ce <= u && u <= 0x1d7ff)
        || (0x1e140 <= u && u <= 0x1e149)
        || (0x1e2f0 <= u && u <= 0x1e2f9)
        || (0x1e4f0 <= u && u <= 0x1e4f9)
        || (0x1e950 <= u && u <= 0x1e959)
        || (0x1fbf0 <= u && u <= 0x1fbf9)
}

/// The end of the run of class `k` that starts at `i`.
fn run_end_exec(w: &Vec<char>, i: usize, k: CharClass) -> (e: usize)
    requires
        i <= w@.len(),
    ensures
        e == run_end(w@, i as int, k),
{
    let mut j = i;
    while j < w.len() && class_member(w[j], k)
        invariant
            i <= j <= w@.len(),
            run_end(w@, j as int, k) == run_end(w@, i as int, k),
        decreases w@.len() - j,
    {
        j = j + 1;
    }
    j
}

/// The scan of a string body from `j`.
fn string_end_exec(w: &Vec<char>, j: usize) -> (r: (bool, usize))
    requires
        j <= w@.len(),
    ensures
        r.0 == string_end(w@, j as int).0,
        r.1 == string_end(w@, j as int).1,
{
    let mut k = j;
    loop
        invariant
            j <= k <= w@.len(),
            string_end(w@, k as int) == string_end(w@, j as int),
        decreases w@.len() - k,
    {
        if k >= w.len() {
            return (false, w.len());
        }
        let c = w[k];
        if c == '"' {
            return (true, k + 1);
        }
        if c == '\\' {
            if k + 1 < w.len() && w[k + 1] != '\n' {
                k = k + 2;
            } else {
                return (false, k + 1);
            }
        } else {
            k = k + 1;
        }
    }
}

/// Whether the characters `w[start..end]` spell `lit`.
fn spells(w: &Vec<char>, start: usize, end: usize, lit: &str) -> (r: bool)
    requires
        start <= end <= w@.len(),
    ensures
        r == (w@.subrange(start as int, end as int) == lit@),
{
    let l = chars_of(lit);
    if end - start != l.len() {
        return false;
    }
    let mut k: usize = 0;
    while k < l.len()
        invariant
            l@ == lit@,
            start <= end <= w@.len(),
            end - start == l@.len(),
            k <= l@.len(),
            forall|m: int| 0 <= m < k ==> w@[start + m] == l@[m],
        decreases l@.len() - k,
    {
        if w[start + k] != l[k] {
            assert(w@.subrange(start as int, end as int)[k as int] != lit@[k as int]);
            return false;
        }
        k = k + 1;
    }
    assert(w@.subrange(start as int, end as int) =~= lit@);
    true
}

/// The token type of the word `w[start..end]`.
fn keyword_of(w: &Vec<char>, start: usize, end: usize) -> (t: TokenType)
    requires
        start <= end <= w@.len(),
    ensures
        t == keyword_kind(w@.subrange(start as int, end as int)),
{
    if spells(w, start, end, "fn") {
        TokenType::Fn
    } else if spells(w, start, end, "mut") {
        TokenType::Mut
    } else if spells(w, start, end, "let") {
        TokenType::Let
    } else if spells(w, start, end, "if") {
        TokenType::If
    } else if spells(w, start, end, "else") {
        TokenType::Else
    } else if spells(w, start, end, "for") {
        TokenType::For
    } else if spells(w, start, end, "while") {
        TokenType::While
    } else if spells(w, start, end, "struct") {
        TokenType::Struct
    } else if spells(w, start, end, "enum") {
        TokenType::Enum
    } else if spells(w, start, end, "unsafe") {
        TokenType::Unsafe
    } else if spells(w, start, end, "return") {
        TokenType::Return
    } else if spells(w, start, end, "true") {
        TokenType::True
    } else if spells(w, start, end, "false") {
        TokenType::False
    } else if spells(w, start, end, "seeAm") {
        TokenType::SeeAm
    } else if spells(w, start, end, "in") {
        TokenType::In
    } else {
        TokenType::Identifier
    }
}

fn single_char_exec(c: char) -> (r: Option<TokenType>)
    ensures
        r == single_char_token(c),
{
    if c == '+' {
        Some(TokenType::Plus)
    } else if c == '-' {
        Some(TokenType::Minus)
    } else if c == '*' {
        Some(TokenType::Star)
    } else if c == '/' {
        Some(TokenType::Slash)
    } else if c == '%' {
        Some(TokenType::Percent)
    } else if c == '=' {
        Some(TokenType::Equal)
    } else if c == '!' {
        Some(TokenType::Bang)
    } else if c == '<' {
        Some(TokenType::Less)
    } else if c == '>' {
        Some(TokenType::Greater)
    } else if c == '(' {
        Some(TokenType::LeftParen)
    } else if c == ')' {
        Some(TokenType::RightParen)
    } else if c == '{' {
        Some(TokenType::LeftBrace)
    } else if c == '}' {
        Some(TokenType::RightBrace)
    } else if c == '[' {
        Some(TokenType::LeftBracket)
    } else if c == ']' {
        Some(TokenType::RightBracket)
    } else if c == ',' {
        Some(TokenType::Comma)
    } else if c == ';' {
        Some(TokenType::Semicolon)
    } else if c == ':' {
        Some(TokenType::Colon)
    } else if c == '.' {
        Some(TokenType::Dot)
    } else {
        None
    }
}

fn two_char_exec(c: char, d: char) -> (r: Option<TokenType>)
    ensures
        r == two_char_token(c, d),
{
    if c == '=' && d == '=' {
        Some(TokenType::EqualEqual)
    } else if c == '!' && d == '=' {
        Some(TokenType::NotEqual)
    } else if c == '<' && d == '=' {
        Some(TokenType::LessEqual)
    } else if c == '>' && d == '=' {
        Some(TokenType::GreaterEqual)
    } else if c == '&' && d == '&' {
        Some(TokenType::AndAnd)
    } else if c == '|' && d == '|' {
        Some(TokenType::OrOr)
    } else if c == '.' && d == '.' {
        Some(TokenType::DotDot)
    } else {
        None
    }
}

/// A step of the lexer, as computed.
enum Scan {
    Skip(usize),
    Emit(TokenType, usize),
    Fail(usize),
}

spec fn scan_view(x: Scan) -> Step {
    match x {
        Scan::Skip(e) => Step::Skip(e as int),
        Scan::Emit(t, e) => Step::Emit(t, e as int),
        Scan::Fail(e) => Step::Fail(e as int),
    }
}

/// The step of the lexer at position `i`.
fn scan(w: &Vec<char>, i: usize) -> (r: Scan)
    requires
        i < w@.len() < usize::MAX,
    ensures
        scan_view(r) == scan_at(w@, i as int),
{
    let c = w[i];
    if class_member(c, CharClass::Blank) {
        Scan::Skip(run_end_exec(w, i, CharClass::Blank))
    } else if c == '/' && i < w.len() - 1 && w[i + 1] == '/' {
        Scan::Skip(run_end_exec(w, i + 2, CharClass::LineBody))
    } else if ident_start(c) {
        let e = run_end_exec(w, i, CharClass::IdentContinue);
        proof {
            lemma_run_end_bounds(w@, i as int, CharClass::IdentContinue);
        }
        Scan::Emit(keyword_of(w, i, e), e)
    } else if decimal_digit(c) {
        let e = run_end_exec(w, i, CharClass::Digit);
        proof {
            lemma_run_end_bounds(w@, i as int, CharClass::Digit);
        }
        if e + 1 < w.len() && w[e] == '.' && decimal_digit(w[e + 1]) {
            Scan::Emit(TokenType::FloatLiteral, run_end_exec(w, e + 1, CharClass::Digit))
        } else {
            Scan::Emit(TokenType::IntegerLiteral, e)
        }
    } else if c == '"' {
        let (closed, e) = string_end_exec(w, i + 1);
        if closed {
            Scan::Emit(TokenType::StringLiteral, e)
        } else {
            Scan::Fail(e)
        }
    } else {
        if i < w.len() - 1 {
            if let Some(t) = two_char_exec(c, w[i + 1]) {
                return Scan::Emit(t, i + 2);
            }
        }
        match single_char_exec(c) {
            Some(t) => Scan::Emit(t, i + 1),
            None => Scan::Fail(i + 1),
        }
    }
}


/// A token with its type, text and location.
#[derive(Debug, Clone)]
pub struct Token {
    pub token_type: TokenType,
    pub lexeme: String,
    pub location: SourceLocation,
}

/// A token as plain values.
pub struct TokenView {
    pub token_type: TokenType,
    pub lexeme: Seq<char>,
    pub location: SourceLocation,
}

impl View for Token {
    type V = TokenView;

    open spec fn view(&self) -> TokenView {
        TokenView { token_type: self.token_type, lexeme: self.lexeme@, location: self.location }
    }
}

/// The text of a token as `Token`'s display gives it:
/// `type 'lexeme' at line:column`.
pub open spec fn token_text(t: TokenView) -> Seq<char> {
    token_name(t.token_type) + " '"@ + t.lexeme + "' at "@ + decimal(t.location.line as nat) + ":"@
        + decimal(t.location.column as nat)
}

impl Token {
    /// Create a token.
    pub fn new(token_type: TokenType, lexeme: String, location: SourceLocation) -> (r: Self)
        ensures
            r@ == (TokenView { token_type, lexeme: lexeme@, location }),
    {
        Token { token_type, lexeme, location }
    }

    /// The token as text: `type 'lexeme' at line:column`.
    pub fn display(&self) -> (r: String)
        ensures
            r@ == token_text(self@),
    {
        let mut out = owned(self.token_type.name());
        append(&mut out, " '");
        append(&mut out, self.lexeme.as_str());
        append(&mut out, "' at ");
        push_decimal(&mut out, self.location.line as u64);
        append(&mut out, ":");
        push_decimal(&mut out, self.location.column as u64);
        assert(out@ =~= token_text(self@));
        out
    }
}

/// The token a raw token of `s` stands for.
pub open spec fn raw_token_view(s: Seq<char>, t: RawToken) -> TokenView {
    TokenView { token_type: t.0, lexeme: s.subrange(t.1, t.2), location: location_at(s, t.1) }
}

/// The end-of-file token of `s`: empty, at the end of the text.
pub open spec fn eof_token(s: Seq<char>) -> TokenView {
    TokenView { token_type: TokenType::Eof, lexeme: seq![], location: location_at(s, s.len() as int) }
}

/// The message of the error on characters that start no token.
pub open spec fn unexpected_message(lexeme: Seq<char>) -> Seq<char> {
    "Unexpected character: '"@ + lexeme + "'"@
}

/// What lexing `s` gives: its tokens followed by the end-of-file token, or
/// a lexical error at the line and column of the first characters that
/// start no token.
pub open spec fn lex_spec(s: Seq<char>) -> Result<Seq<TokenView>, ErrorView> {
    match lex_from(s, 0) {
        Ok(raw) => Ok(raw.map_values(|t: RawToken| raw_token_view(s, t)).push(eof_token(s))),
        Err((a, b)) => Err(
            ErrorView::LexError(
                line_col(s, a).0 as usize,
                line_col(s, a).1 as usize,
                unexpected_message(s.subrange(a, b)),
            ),
        ),
    }
}

/// A lexing result as plain values.
pub open spec fn tokens_result_view(r: OvieResult<Vec<Token>>) -> Result<Seq<TokenView>, ErrorView> {
    match r {
        Ok(v) => Ok(v@.map_values(|t: Token| t@)),
        Err(e) => Err(e@),
    }
}

/// The tokens already taken, before the tokens from a position on.
pub open spec fn prepend(acc: Seq<RawToken>, r: Result<Seq<RawToken>, (int, int)>) -> Result<
    Seq<RawToken>,
    (int, int),
> {
    match r {
        Ok(rest) => Ok(acc + rest),
        Err(x) => Err(x),
    }
}

proof fn lemma_prepend_emit(acc: Seq<RawToken>, x: RawToken, r: Result<Seq<RawToken>, (int, int)>)
    ensures
        prepend(
            acc,
            match r {
                Ok(rest) => Ok(seq![x] + rest),
                Err(y) => Err(y),
            },
        ) == prepend(acc.push(x), r),
{
    match r {
        Ok(rest) => {
            assert(acc + (seq![x] + rest) =~= acc.push(x) + rest);
        },
        Err(y) => {},
    }
}

/// The number of characters of `s` that start before byte `offset`.
pub open spec fn chars_before(s: Seq<char>, offset: int, k: int) -> int
    decreases s.len() - k,
{
    if 0 <= k < s.len() && byte_offset(s, k) < offset {
        chars_before(s, offset, k + 1)
    } else {
        k
    }
}

/// Lexer for tokenizing Ovie source code.
pub struct Lexer<'a> {
    source: &'a str,
    current_line: usize,
    current_column: usize,
    current_offset: usize,
}

impl<'a> Lexer<'a> {
    /// The text the lexer reads.
    pub closed spec fn source_text(&self) -> Seq<char> {
        self.source@
    }

    /// Create a new lexer for the given source code.
    pub fn new(source: &'a str) -> (r: Self)
        ensures
            r.source_text() == source@,
    {
        Lexer { source, current_line: 1, current_column: 1, current_offset: 0 }
    }

    /// Tokenize the entire source code: the tokens in order, then an
    /// end-of-file token; or the error on the first characters that start
    /// no token.
    pub fn tokenize(&mut self) -> (r: OvieResult<Vec<Token>>)
        requires
            lexable(old(self).source_text()),
        ensures
            final(self).source_text() == old(self).source_text(),
            tokens_result_view(r) == lex_spec(old(self).source_text()),
    {
        let w = chars_of(self.source);
        let ghost s = w@;
        let mut tokens: Vec<Token> = Vec::new();
        let ghost mut acc: Seq<RawToken> = seq![];
        let mut loc = SourceLocation { line: 1, column: 1, offset: 0 };
        proof {
            assert(s.take(0) =~= Seq::<char>::empty());
            assert(prepend(acc, lex_from(s, 0)) == lex_from(s, 0)) by {
                match lex_from(s, 0) {
                    Ok(rest) => {
                        assert(acc + rest =~= rest);
                    },
                    Err(x) => {},
                }
            }
        }
        let mut i: usize = 0;
        while i < w.len()
            invariant
                s == w@,
                s == self.source_text(),
                lexable(s),
                i <= s.len(),
                loc == location_at(s, i as int),
                tokens@.len() == acc.len(),
                forall|j: int| 0 <= j < acc.len() ==> (#[trigger] tokens@[j])@ == raw_token_view(s, acc[j]),
                lex_from(s, 0) == prepend(acc, lex_from(s, i as int)),
            decreases s.len() - i,
        {
            proof {
                lemma_scan_progress(s, i as int);
            }
            match scan(&w, i) {
                Scan::Skip(e) => {
                    loc = advance(&w, i, e, loc);
                    i = e;
                },
                Scan::Emit(t, e) => {
                    let lexeme = string_of_range(&w, i, e);
                    tokens.push(Token { token_type: t, lexeme, location: loc });
                    proof {
                        lemma_prepend_emit(acc, (t, i as int, e as int), lex_from(s, e as int));
                        acc = acc.push((t, i as int, e as int));
                    }
                    loc = advance(&w, i, e, loc);
                    i = e;
                },
                Scan::Fail(e) => {
                    let mut message = owned("Unexpected character: '");
                    let lexeme = string_of_range(&w, i, e);
                    append(&mut message, lexeme.as_str());
                    append(&mut message, "'");
                    proof {
                        lemma_line_col_bounds(s, i as int);
                        assert(message@ =~= unexpected_message(s.subrange(i as int, e as int)));
                    }
                    return Err(OvieError::lex_error(loc.line, loc.column, message));
                },
            }
        }
        let eof = Token { token_type: TokenType::Eof, lexeme: String::new(), location: loc };
        tokens.push(eof);
        proof {
            assert(acc + Seq::<RawToken>::empty() =~= acc);
            let expected = acc.map_values(|t: RawToken| raw_token_view(s, t)).push(eof_token(s));
            assert(tokens@.map_values(|t: Token| t@) =~= expected);
        }
        Ok(tokens)
    }

    /// The location of byte `offset` of the source: the line and column
    /// after the characters that start before that byte.
    pub fn calculate_location(&self, offset: usize) -> (r: SourceLocation)
        requires
            lexable(self.source_text()),
        ensures
            r == (SourceLocation {
                line: line_col(self.source_text(), chars_before(self.source_text(), offset as int, 0)).0 as usize,
                column: line_col(self.source_text(), chars_before(self.source_text(), offset as int, 0)).1 as usize,
                offset,
            }),
    {
        let w = chars_of(self.source);
        let ghost s = w@;
        let mut line: usize = 1;
        let mut column: usize = 1;
        let mut byte: usize = 0;
        let mut k: usize = 0;
        proof {
            assert(s.take(0) =~= Seq::<char>::empty());
        }
        while k < w.len() && byte < offset
            invariant
                s == w@,
                s == self.source_text(),
                lexable(s),
                k <= s.len(),
                chars_before(s, offset as int, k as int) == chars_before(s, offset as int, 0),
                line == line_col(s, k as int).0,
                column == line_col(s, k as int).1,
                byte == byte_offset(s, k as int),
            decreases s.len() - k,
        {
            proof {
                lemma_line_col_bounds(s, k as int);
                lemma_byte_offset_step(s, k as int);
            }
            if w[k] == '\n' {
                line = line + 1;
                column = 1;
            } else {
                column = column + 1;
            }
            byte = byte + utf8_width(w[k]);
            k = k + 1;
        }
        SourceLocation { line, column, offset }
    }

    /// Classify an identifier: the keyword it spells, or `Identifier`.
    pub fn classify_identifier(&self, lexeme: &str) -> (r: TokenType)
        ensures
            r == keyword_kind(lexeme@),
    {
        let w = chars_of(lexeme);
        assert(w@.subrange(0, w@.len() as int) =~= w@);
        keyword_of(&w, 0, w.len())
    }
}


/// A run of characters of one class that ends where the class ends.
pub proof fn lemma_run_to(s: Seq<char>, i: int, e: int, k: CharClass)
    requires
        0 <= i <= e <= s.len(),
        forall|j: int| i <= j < e ==> in_class(#[trigger] s[j], k),
        e == s.len() || !in_class(s[e], k),
    ensures
        run_end(s, i, k) == e,
    decreases e - i,
{
    if i < e {
        lemma_run_to(s, i + 1, e, k);
    }
}

/// The tokens from position `i` on start at or after `i`, are not empty
/// and end within the text.
pub proof fn lemma_lex_from_positions(s: Seq<char>, i: int)
    requires
        0 <= i <= s.len(),
    ensures
        lex_from(s, i) is Ok ==> forall|j: int|
            0 <= j < lex_from(s, i)->Ok_0.len() ==> i <= (#[trigger] lex_from(s, i)->Ok_0[j]).1
                < lex_from(s, i)->Ok_0[j].2 <= s.len(),
    decreases s.len() - i,
{
    if i < s.len() {
        lemma_scan_progress(s, i);
        match scan_at(s, i) {
            Step::Skip(e) => {
                lemma_lex_from_positions(s, e);
            },
            Step::Emit(t, e) => {
                lemma_lex_from_positions(s, e);
                if lex_from(s, e) is Ok {
                    let rest = lex_from(s, e)->Ok_0;
                    assert forall|j: int| 0 <= j < lex_from(s, i)->Ok_0.len() implies i <= (
                    #[trigger] lex_from(s, i)->Ok_0[j]).1 < lex_from(s, i)->Ok_0[j].2 <= s.len() by {
                        if j > 0 {
                            assert(lex_from(s, i)->Ok_0[j] == rest[j - 1]);
                        }
                    }
                }
            },
            Step::Fail(e) => {},
        }
    }
}

/// `calculate_location` on the byte offset of a character gives the
/// location of that character: the lexer places each token where
/// `calculate_location` places its first byte.
pub proof fn law_location_of_char_start(s: Seq<char>, a: int)
    requires
        0 <= a <= s.len(),
    ensures
        chars_before(s, byte_offset(s, a) as int, 0) == a,
{
    assert forall|k: int| 0 <= k < a implies byte_offset(s, k) < byte_offset(s, a) by {
        lemma_byte_offset_grows(s, k, a);
    }
    lemma_chars_before_from(s, a, 0);
}

proof fn lemma_byte_offset_grows(s: Seq<char>, k: int, a: int)
    requires
        0 <= k < a <= s.len(),
    ensures
        byte_offset(s, k) < byte_offset(s, a),
    decreases a - k,
{
    lemma_byte_offset_step(s, k);
    char_is_scalar(s[k]);
    assert(encode_scalar(s[k] as u32).len() >= 1);
    if k + 1 < a {
        lemma_byte_offset_grows(s, k + 1, a);
    }
}

proof fn lemma_chars_before_from(s: Seq<char>, a: int, k: int)
    requires
        0 <= k <= a <= s.len(),
        forall|m: int| 0 <= m < a ==> byte_offset(s, m) < byte_offset(s, a),
    ensures
        chars_before(s, byte_offset(s, a) as int, k) == a,
    decreases a - k,
{
    if k < a {
        lemma_chars_before_from(s, a, k + 1);
    }
}

/// Every token that lexing yields lies at line 1 or after and at column 1
/// or after.
pub proof fn law_token_locations_valid(s: Seq<char>)
    requires
        lexable(s),
        lex_spec(s) is Ok,
    ensures
        forall|j: int|
            0 <= j < lex_spec(s)->Ok_0.len() ==> (#[trigger] lex_spec(s)->Ok_0[j]).location.line >= 1
                && lex_spec(s)->Ok_0[j].location.column >= 1,
{
    lemma_lex_from_positions(s, 0);
    let raw = lex_from(s, 0)->Ok_0;
    let toks = lex_spec(s)->Ok_0;
    assert forall|j: int| 0 <= j < toks.len() implies (#[trigger] toks[j]).location.line >= 1
        && toks[j].location.column >= 1 by {
        let k = if j < raw.len() { raw[j].1 } else { s.len() as int };
        lemma_line_col_bounds(s, k);
    }
}

/// Lexing a text that is one token from its first to its last character.
proof fn lemma_single_token(s: Seq<char>, t: TokenType)
    requires
        s.len() > 0,
        scan_at(s, 0) == Step::Emit(t, s.len() as int),
    ensures
        lex_spec(s) == Ok::<Seq<TokenView>, ErrorView>(
            seq![TokenView { token_type: t, lexeme: s, location: location_at(s, 0) }, eof_token(s)],
        ),
{
    assert(lex_from(s, s.len() as int) == Ok::<Seq<RawToken>, (int, int)>(seq![]));
    assert(seq![(t, 0int, s.len() as int)] + Seq::<RawToken>::empty() =~= seq![(t, 0int, s.len() as int)]);
    assert(lex_from(s, 0) == Ok::<Seq<RawToken>, (int, int)>(seq![(t, 0int, s.len() as int)]));
    assert(s.subrange(0, s.len() as int) =~= s);
    let raw = seq![(t, 0int, s.len() as int)];
    assert(raw.map_values(|x: RawToken| raw_token_view(s, x)).push(eof_token(s)) =~= seq![
        TokenView { token_type: t, lexeme: s, location: location_at(s, 0) },
        eof_token(s),
    ]);
}

/// A word of letters, digits and underscores that starts with a letter or
/// an underscore lexes as one token, the keyword it spells or an
/// identifier, followed by the end of file.
pub proof fn law_word_is_one_token(s: Seq<char>)
    requires
        s.len() > 0,
        is_ident_start(s[0]),
        forall|j: int| 0 <= j < s.len() ==> is_ident_continue(#[trigger] s[j]),
    ensures
        lex_spec(s) == Ok::<Seq<TokenView>, ErrorView>(
            seq![
                TokenView { token_type: keyword_kind(s), lexeme: s, location: location_at(s, 0) },
                eof_token(s),
            ],
        ),
{
    lemma_run_to(s, 0, s.len() as int, CharClass::IdentContinue);
    assert(s.subrange(0, s.len() as int) =~= s);
    lemma_single_token(s, keyword_kind(s));
}

/// An identifier that is no keyword lexes as one `Identifier` token.
pub proof fn law_identifier_is_one_token(s: Seq<char>)
    requires
        s.len() > 0,
        is_ident_start(s[0]),
        forall|j: int| 0 <= j < s.len() ==> is_ident_continue(#[trigger] s[j]),
        keyword_kind(s) == TokenType::Identifier,
    ensures
        lex_spec(s) == Ok::<Seq<TokenView>, ErrorView>(
            seq![
                TokenView { token_type: TokenType::Identifier, lexeme: s, location: location_at(s, 0) },
                eof_token(s),
            ],
        ),
{
    law_word_is_one_token(s);
}

/// Each keyword lexes as one token of its own type (not `Identifier`).
pub proof fn law_keyword_is_one_token(s: Seq<char>)
    requires
        keyword_kind(s) != TokenType::Identifier,
    ensures
        lex_spec(s) == Ok::<Seq<TokenView>, ErrorView>(
            seq![
                TokenView { token_type: keyword_kind(s), lexeme: s, location: location_at(s, 0) },
                eof_token(s),
            ],
        ),
{
    reveal_strlit("fn");
    reveal_strlit("mut");
    reveal_strlit("let");
    reveal_strlit("if");
    reveal_strlit("else");
    reveal_strlit("for");
    reveal_strlit("while");
    reveal_strlit("struct");
    reveal_strlit("enum");
    reveal_strlit("unsafe");
    reveal_strlit("return");
    reveal_strlit("true");
    reveal_strlit("false");
    reveal_strlit("seeAm");
    reveal_strlit("in");
    assert(s.len() > 0 && is_ident_start(s[0]) && forall|j: int|
        0 <= j < s.len() ==> is_ident_continue(#[trigger] s[j]));
    law_word_is_one_token(s);
}

/// A run of decimal digits lexes as one `IntegerLiteral` token.
pub proof fn law_integer_is_one_token(s: Seq<char>)
    requires
        s.len() > 0,
        forall|j: int| 0 <= j < s.len() ==> is_decimal_digit(#[trigger] s[j]),
    ensures
        lex_spec(s) == Ok::<Seq<TokenView>, ErrorView>(
            seq![
                TokenView { token_type: TokenType::IntegerLiteral, lexeme: s, location: location_at(s, 0) },
                eof_token(s),
            ],
        ),
{
    lemma_run_to(s, 0, s.len() as int, CharClass::Digit);
    assert(is_decimal_digit(s[0]));
    lemma_single_token(s, TokenType::IntegerLiteral);
}

/// Digits, a dot at `p`, and digits again lex as one `FloatLiteral` token.
pub proof fn law_float_is_one_token(s: Seq<char>, p: int)
    requires
        0 < p < s.len() - 1,
        s[p] == '.',
        forall|j: int| 0 <= j < s.len() && j != p ==> is_decimal_digit(#[trigger] s[j]),
    ensures
        lex_spec(s) == Ok::<Seq<TokenView>, ErrorView>(
            seq![
                TokenView { token_type: TokenType::FloatLiteral, lexeme: s, location: location_at(s, 0) },
                eof_token(s),
            ],
        ),
{
    assert(is_decimal_digit(s[0]));
    assert(is_decimal_digit(s[p + 1]));
    assert(!is_decimal_digit(s[p]));
    lemma_run_to(s, 0, p, CharClass::Digit);
    lemma_run_to(s, p + 1, s.len() as int, CharClass::Digit);
    lemma_single_token(s, TokenType::FloatLiteral);
}

/// The body of a string literal: characters other than a quote or a
/// backslash, and pairs of a backslash and any character but a line feed.
pub open spec fn is_string_body(b: Seq<char>) -> bool
    decreases b.len(),
{
    if b.len() == 0 {
        true
    } else if b[0] == '\\' {
        b.len() >= 2 && b[1] != '\n' && is_string_body(b.subrange(2, b.len() as int))
    } else {
        b[0] != '"' && is_string_body(b.subrange(1, b.len() as int))
    }
}

/// A string literal: a quote, a string body and a quote.
pub open spec fn is_string_literal(s: Seq<char>) -> bool {
    s.len() >= 2 && s[0] == '"' && s[s.len() - 1] == '"' && is_string_body(s.subrange(1, s.len() - 1))
}

proof fn lemma_string_body_scan(s: Seq<char>, j: int)
    requires
        1 <= j <= s.len() - 1,
        s[s.len() - 1] == '"',
        is_string_body(s.subrange(j, s.len() - 1)),
    ensures
        string_end(s, j) == (true, s.len() as int),
    decreases s.len() - j,
{
    let b = s.subrange(j, s.len() - 1);
    if j < s.len() - 1 {
        if s[j] == '\\' {
            assert(b.subrange(2, b.len() as int) =~= s.subrange(j + 2, s.len() - 1));
            lemma_string_body_scan(s, j + 2);
        } else {
            assert(b.subrange(1, b.len() as int) =~= s.subrange(j + 1, s.len() - 1));
            lemma_string_body_scan(s, j + 1);
        }
    }
}

/// A string literal lexes as one `StringLiteral` token.
pub proof fn law_string_is_one_token(s: Seq<char>)
    requires
        is_string_literal(s),
    ensures
        lex_spec(s) == Ok::<Seq<TokenView>, ErrorView>(
            seq![
                TokenView { token_type: TokenType::StringLiteral, lexeme: s, location: location_at(s, 0) },
                eof_token(s),
            ],
        ),
{
    lemma_string_body_scan(s, 1);
    lemma_single_token(s, TokenType::StringLiteral);
}

/// A text made only of ASCII letters.
pub open spec fn is_letters(w: Seq<char>) -> bool {
    w.len() > 0 && forall|j: int| 0 <= j < w.len() ==> ('a' <= #[trigger] w[j] && w[j] <= 'z') || ('A' <= w[j]
        && w[j] <= 'Z')
}

/// A text made only of white space.
pub open spec fn is_blanks(w: Seq<char>) -> bool {
    w.len() > 0 && forall|j: int| 0 <= j < w.len() ==> is_blank(#[trigger] w[j])
}

/// A line comment: `//` and then anything but a carriage return or a line
/// feed.
pub open spec fn is_line_comment(c: Seq<char>) -> bool {
    c.len() >= 2 && c[0] == '/' && c[1] == '/' && forall|j: int| 2 <= j < c.len() ==> is_line_body(#[trigger] c[j])
}

/// White space around a word is skipped: the word is the only token.
pub proof fn law_whitespace_is_skipped(a: Seq<char>, w: Seq<char>, b: Seq<char>)
    requires
        is_blanks(a),
        is_letters(w),
        is_blanks(b),
    ensures
        lex_spec(a + w + b) is Ok,
        lex_spec(a + w + b)->Ok_0.len() == 2,
        lex_spec(a + w + b)->Ok_0[0].lexeme == w,
        lex_spec(a + w + b)->Ok_0[1].token_type == TokenType::Eof,
{
    let s = a + w + b;
    let p = a.len() as int;
    let q = p + w.len();
    assert forall|j: int| 0 <= j < p implies in_class(#[trigger] s[j], CharClass::Blank) by {
        assert(s[j] == a[j]);
    }
    assert(s[p] == w[0]);
    lemma_run_to(s, 0, p, CharClass::Blank);
    assert forall|j: int| p <= j < q implies in_class(#[trigger] s[j], CharClass::IdentContinue) by {
        assert(s[j] == w[j - p]);
    }
    assert(s[q] == b[0]);
    lemma_run_to(s, p, q, CharClass::IdentContinue);
    assert forall|j: int| q <= j < s.len() implies in_class(#[trigger] s[j], CharClass::Blank) by {
        assert(s[j] == b[j - q]);
    }
    lemma_run_to(s, q, s.len() as int, CharClass::Blank);
    assert(s.subrange(p, q) =~= w);
    let t = keyword_kind(w);
    assert(lex_from(s, s.len() as int) == Ok::<Seq<RawToken>, (int, int)>(seq![]));
    assert(lex_from(s, q) == Ok::<Seq<RawToken>, (int, int)>(seq![]));
    assert(seq![(t, p, q)] + Seq::<RawToken>::empty() =~= seq![(t, p, q)]);
    assert(lex_from(s, p) == Ok::<Seq<RawToken>, (int, int)>(seq![(t, p, q)]));
    assert(lex_from(s, 0) == Ok::<Seq<RawToken>, (int, int)>(seq![(t, p, q)]));
}

/// A comment line is skipped: the word on the next line is the only
/// token.
pub proof fn law_comment_is_skipped(c: Seq<char>, w: Seq<char>)
    requires
        is_line_comment(c),
        is_letters(w),
    ensures
        lex_spec(c + seq!['\n'] + w) is Ok,
        lex_spec(c + seq!['\n'] + w)->Ok_0.len() == 2,
        lex_spec(c + seq!['\n'] + w)->Ok_0[0].lexeme == w,
        lex_spec(c + seq!['\n'] + w)->Ok_0[1].token_type == TokenType::Eof,
{
    let s = c + seq!['\n'] + w;
    let p = c.len() as int;
    assert(s[0] == '/' && s[1] == '/');
    assert forall|j: int| 2 <= j < p implies in_class(#[trigger] s[j], CharClass::LineBody) by {
        assert(s[j] == c[j]);
    }
    assert(s[p] == '\n');
    lemma_run_to(s, 2, p, CharClass::LineBody);
    assert(s[p + 1] == w[0]);
    lemma_run_to(s, p, p + 1, CharClass::Blank);
    assert forall|j: int| p + 1 <= j < s.len() implies in_class(#[trigger] s[j], CharClass::IdentContinue) by {
        assert(s[j] == w[j - p - 1]);
    }
    lemma_run_to(s, p + 1, s.len() as int, CharClass::IdentContinue);
    assert(s.subrange(p + 1, s.len() as int) =~= w);
    let t = keyword_kind(w);
    assert(lex_from(s, s.len() as int) == Ok::<Seq<RawToken>, (int, int)>(seq![]));
    assert(seq![(t, p + 1, s.len() as int)] + Seq::<RawToken>::empty() =~= seq![(t, p + 1, s.len() as int)]);
    assert(lex_from(s, p + 1) == Ok::<Seq<RawToken>, (int, int)>(seq![(t, p + 1, s.len() as int)]));
    assert(lex_from(s, p) == Ok::<Seq<RawToken>, (int, int)>(seq![(t, p + 1, s.len() as int)]));
    assert(lex_from(s, 0) == Ok::<Seq<RawToken>, (int, int)>(seq![(t, p + 1, s.len() as int)]));
}


/// A character that is a token by itself is lexed as the token whose name
/// is that character (`{` as `{`, `(` as `(`, and so on), and a pair of
/// characters that is a token as the token whose name is that pair.
pub proof fn law_symbol_tokens_are_named_by_their_text(c: char, d: char)
    ensures
        single_char_token(c) is Some ==> token_name(single_char_token(c)->0) == seq![c],
        two_char_token(c, d) is Some ==> token_name(two_char_token(c, d)->0) == seq![c, d],
{
    if c == '+' {
        reveal_strlit("+");
        assert(token_name(single_char_token(c)->0) =~= seq![c]);
    } else if c == '-' {
        reveal_strlit("-");
        assert(token_name(single_char_token(c)->0) =~= seq![c]);
    } else if c == '*' {
        reveal_strlit("*");
        assert(token_name(single_char_token(c)->0) =~= seq![c]);
    } else if c == '/' {
        reveal_strlit("/");
        assert(token_name(single_char_token(c)->0) =~= seq![c]);
    } else if c == '%' {
        reveal_strlit("%");
        assert(token_name(single_char_token(c)->0) =~= seq![c]);
    } else if c == '=' {
        reveal_strlit("=");
        assert(token_name(single_char_token(c)->0) =~= seq![c]);
    } else if c == '!' {
        reveal_strlit("!");
        assert(token_name(single_char_token(c)->0) =~= seq![c]);
    } else if c == '<' {
        reveal_strlit("<");
        assert(token_name(single_char_token(c)->0) =~= seq![c]);
    } else if c == '>' {
        reveal_strlit(">");
        assert(token_name(single_char_token(c)->0) =~= seq![c]);
    } else if c == '(' {
        reveal_strlit("(");
        assert(token_name(single_char_token(c)->0) =~= seq![c]);
    } else if c == ')' {
        reveal_strlit(")");
        assert(token_name(single_char_token(c)->0) =~= seq![c]);
    } else if c == '{' {
        reveal_strlit("{");
        assert(token_name(single_char_token(c)->0) =~= seq![c]);
    } else if c == '}' {
        reveal_strlit("}");
        assert(token_name(single_char_token(c)->0) =~= seq![c]);
    } else if c == '[' {
        reveal_strlit("[");
        assert(token_name(single_char_token(c)->0) =~= seq![c]);
    } else if c == ']' {
        reveal_strlit("]");
        assert(token_name(single_char_token(c)->0) =~= seq![c]);
    } else if c == ',' {
        reveal_strlit(",");
        assert(token_name(single_char_token(c)->0) =~= seq![c]);
    } else if c == ';' {
        reveal_strlit(";");
        assert(token_name(single_char_token(c)->0) =~= seq![c]);
    } else if c == ':' {
        reveal_strlit(":");
        assert(token_name(single_char_token(c)->0) =~= seq![c]);
    } else if c == '.' {
        reveal_strlit(".");
        assert(token_name(single_char_token(c)->0) =~= seq![c]);
    }
    if c == '=' && d == '=' {
        reveal_strlit("==");
        assert(token_name(two_char_token(c, d)->0) =~= seq![c, d]);
    } else if c == '!' && d == '=' {
        reveal_strlit("!=");
        assert(token_name(two_char_token(c, d)->0) =~= seq![c, d]);
    } else if c == '<' && d == '=' {
        reveal_strlit("<=");
        assert(token_name(two_char_token(c, d)->0) =~= seq![c, d]);
    } else if c == '>' && d == '=' {
        reveal_strlit(">=");
        assert(token_name(two_char_token(c, d)->0) =~= seq![c, d]);
    } else if c == '&' && d == '&' {
        reveal_strlit("&&");
        assert(token_name(two_char_token(c, d)->0) =~= seq![c, d]);
    } else if c == '|' && d == '|' {
        reveal_strlit("||");
        assert(token_name(two_char_token(c, d)->0) =~= seq![c, d]);
    } else if c == '.' && d == '.' {
        reveal_strlit("..");
        assert(token_name(two_char_token(c, d)->0) =~= seq![c, d]);
    }
}


/// A word lexed as a keyword is lexed as the keyword whose name is that
/// word (`if` as `if`, `fn` as `fn`, and so on).
pub proof fn law_keywords_are_named_by_their_text(w: Seq<char>)
    ensures
        keyword_kind(w) != TokenType::Identifier ==> token_name(keyword_kind(w)) == w,
{
    if w == "fn"@ {
        reveal_strlit("fn");
    } else if w == "mut"@ {
        reveal_strlit("mut");
    } else if w == "let"@ {
        reveal_strlit("let");
    } else if w == "if"@ {
        reveal_strlit("if");
    } else if w == "else"@ {
        reveal_strlit("else");
    } else if w == "for"@ {
        reveal_strlit("for");
    } else if w == "while"@ {
        reveal_strlit("while");
    } else if w == "struct"@ {
        reveal_strlit("struct");
    } else if w == "enum"@ {
        reveal_strlit("enum");
    } else if w == "unsafe"@ {
        reveal_strlit("unsafe");
    } else if w == "return"@ {
        reveal_strlit("return");
    } else if w == "true"@ {
        reveal_strlit("true");
    } else if w == "false"@ {
        reveal_strlit("false");
    } else if w == "seeAm"@ {
        reveal_strlit("seeAm");
    } else if w == "in"@ {
        reveal_strlit("in");
    }
}

} // verus!
