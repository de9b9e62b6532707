use oviec::error::{OvieError, SourceLocation};
use oviec::lexer::{Lexer, Token, TokenType};

fn lex(source: &str) -> Vec<Token> {
    let mut lexer = Lexer::new(source);
    lexer.tokenize().unwrap()
}

#[test]
fn test_simple_tokens() {
    let mut lexer = Lexer::new("seeAm \"hello\"");
    let tokens = lexer.tokenize().unwrap();

    assert_eq!(tokens.len(), 3); // seeAm, string, EOF
    assert_eq!(tokens[0].token_type, TokenType::SeeAm);
    assert_eq!(tokens[1].token_type, TokenType::StringLiteral);
    assert_eq!(tokens[2].token_type, TokenType::Eof);
}

#[test]
fn test_keywords() {
    let mut lexer = Lexer::new("fn mut if else for while struct enum unsafe return true false seeAm");
    let tokens = lexer.tokenize().unwrap();

    let expected = vec![
        TokenType::Fn,
        TokenType::Mut,
        TokenType::If,
        TokenType::Else,
        TokenType::For,
        TokenType::While,
        TokenType::Struct,
        TokenType::Enum,
        TokenType::Unsafe,
        TokenType::Return,
        TokenType::True,
        TokenType::False,
        TokenType::SeeAm,
        TokenType::Eof,
    ];

    for (i, expected_type) in expected.iter().enumerate() {
        assert_eq!(tokens[i].token_type, *expected_type);
    }
}

#[test]
fn test_operators() {
    let mut lexer = Lexer::new("+ - * / % == != < <= > >= && || ! =");
    let tokens = lexer.tokenize().unwrap();

    let expected = vec![
        TokenType::Plus,
        TokenType::Minus,
        TokenType::Star,
        TokenType::Slash,
        TokenType::Percent,
        TokenType::EqualEqual,
        TokenType::NotEqual,
        TokenType::Less,
        TokenType::LessEqual,
        TokenType::Greater,
        TokenType::GreaterEqual,
        TokenType::AndAnd,
        TokenType::OrOr,
        TokenType::Bang,
        TokenType::Equal,
        TokenType::Eof,
    ];

    for (i, expected_type) in expected.iter().enumerate() {
        assert_eq!(tokens[i].token_type, *expected_type);
    }
}

#[test]
fn test_numbers() {
    let mut lexer = Lexer::new("42 3.14 0 123.456");
    let tokens = lexer.tokenize().unwrap();

    assert_eq!(tokens[0].token_type, TokenType::IntegerLiteral);
    assert_eq!(tokens[0].lexeme, "42");

    assert_eq!(tokens[1].token_type, TokenType::FloatLiteral);
    assert_eq!(tokens[1].lexeme, "3.14");

    assert_eq!(tokens[2].token_type, TokenType::IntegerLiteral);
    assert_eq!(tokens[2].lexeme, "0");

    assert_eq!(tokens[3].token_type, TokenType::FloatLiteral);
    assert_eq!(tokens[3].lexeme, "123.456");
}

#[test]
fn test_strings() {
    let mut lexer = Lexer::new(r#""hello" "world with spaces" "escaped \"quote\"" "#);
    let tokens = lexer.tokenize().unwrap();

    assert_eq!(tokens[0].token_type, TokenType::StringLiteral);
    assert_eq!(tokens[0].lexeme, r#""hello""#);

    assert_eq!(tokens[1].token_type, TokenType::StringLiteral);
    assert_eq!(tokens[1].lexeme, r#""world with spaces""#);

    assert_eq!(tokens[2].token_type, TokenType::StringLiteral);
    assert_eq!(tokens[2].lexeme, r#""escaped \"quote\"""#);
}

#[test]
fn test_identifiers() {
    let mut lexer = Lexer::new("variable_name camelCase PascalCase _underscore name123");
    let tokens = lexer.tokenize().unwrap();

    for i in 0..5 {
        assert_eq!(tokens[i].token_type, TokenType::Identifier);
    }

    assert_eq!(tokens[0].lexeme, "variable_name");
    assert_eq!(tokens[1].lexeme, "camelCase");
    assert_eq!(tokens[2].lexeme, "PascalCase");
    assert_eq!(tokens[3].lexeme, "_underscore");
    assert_eq!(tokens[4].lexeme, "name123");
}

#[test]
fn test_hello_world() {
    let mut lexer = Lexer::new(r#"seeAm "Hello, World!";"#);
    let tokens = lexer.tokenize().unwrap();

    assert_eq!(tokens.len(), 4); // seeAm, string, semicolon, EOF
    assert_eq!(tokens[0].token_type, TokenType::SeeAm);
    assert_eq!(tokens[1].token_type, TokenType::StringLiteral);
    assert_eq!(tokens[1].lexeme, r#""Hello, World!""#);
    assert_eq!(tokens[2].token_type, TokenType::Semicolon);
    assert_eq!(tokens[3].token_type, TokenType::Eof);
}

#[test]
fn identifier_alone_is_one_token() {
    for word in ["x", "variable_name", "_", "a1_b2", "fnord", "iff", "letter"] {
        let tokens = lex(word);
        assert_eq!(tokens.len(), 2);
        assert_eq!(tokens[0].token_type, TokenType::Identifier);
        assert_eq!(tokens[0].lexeme, word);
        assert_eq!(tokens[1].token_type, TokenType::Eof);
        assert_eq!(tokens[1].lexeme, "");
    }
}

#[test]
fn keyword_alone_is_one_token() {
    let cases = [
        ("fn", TokenType::Fn),
        ("mut", TokenType::Mut),
        ("let", TokenType::Let),
        ("if", TokenType::If),
        ("else", TokenType::Else),
        ("for", TokenType::For),
        ("while", TokenType::While),
        ("struct", TokenType::Struct),
        ("enum", TokenType::Enum),
        ("unsafe", TokenType::Unsafe),
        ("return", TokenType::Return),
        ("true", TokenType::True),
        ("false", TokenType::False),
        ("seeAm", TokenType::SeeAm),
        ("in", TokenType::In),
    ];
    for (word, kind) in cases {
        let tokens = lex(word);
        assert_eq!(tokens.len(), 2);
        assert_eq!(tokens[0].token_type, kind);
        assert_ne!(tokens[0].token_type, TokenType::Identifier);
        assert_eq!(tokens[0].lexeme, word);
        assert_eq!(tokens[1].token_type, TokenType::Eof);
    }
}

#[test]
fn literals_alone_are_one_token() {
    let cases = [
        ("0", TokenType::IntegerLiteral),
        ("007", TokenType::IntegerLiteral),
        ("\u{0663}\u{0664}", TokenType::IntegerLiteral),
        ("1.0", TokenType::FloatLiteral),
        ("12.345", TokenType::FloatLiteral),
        ("\"\"", TokenType::StringLiteral),
        ("\"a\\nb\"", TokenType::StringLiteral),
        ("\"line\nbreak\"", TokenType::StringLiteral),
        ("\"\\\\\"", TokenType::StringLiteral),
    ];
    for (text, kind) in cases {
        let tokens = lex(text);
        assert_eq!(tokens.len(), 2, "{}", text);
        assert_eq!(tokens[0].token_type, kind);
        assert_eq!(tokens[0].lexeme, text);
        assert_eq!(tokens[1].token_type, TokenType::Eof);
    }
}

#[test]
fn whitespace_and_comments_are_skipped() {
    let tokens = lex(" \t\r\n hello \n\t");
    assert_eq!(tokens.len(), 2);
    assert_eq!(tokens[0].lexeme, "hello");
    assert_eq!(tokens[1].token_type, TokenType::Eof);

    let tokens = lex("// a comment with symbols @#$\nworld");
    assert_eq!(tokens.len(), 2);
    assert_eq!(tokens[0].lexeme, "world");
    assert_eq!(tokens[0].location, SourceLocation::new(2, 1, 30));

    let tokens = lex("a // trailing comment");
    assert_eq!(tokens.len(), 2);
    assert_eq!(tokens[0].lexeme, "a");
}

#[test]
fn longest_match_rules() {
    let tokens = lex("1..2 a.b 3.x ... x/y");
    let kinds: Vec<TokenType> = tokens.iter().map(|t| t.token_type).collect();
    assert_eq!(
        kinds,
        vec![
            TokenType::IntegerLiteral,
            TokenType::DotDot,
            TokenType::IntegerLiteral,
            TokenType::Identifier,
            TokenType::Dot,
            TokenType::Identifier,
            TokenType::IntegerLiteral,
            TokenType::Dot,
            TokenType::Identifier,
            TokenType::DotDot,
            TokenType::Dot,
            TokenType::Identifier,
            TokenType::Slash,
            TokenType::Identifier,
            TokenType::Eof,
        ]
    );
    let tokens = lex("123abc fnx");
    assert_eq!(tokens[0].lexeme, "123");
    assert_eq!(tokens[1].lexeme, "abc");
    assert_eq!(tokens[2].token_type, TokenType::Identifier);
    assert_eq!(tokens[2].lexeme, "fnx");
}

#[test]
fn token_locations() {
    let tokens = lex("let x = 1;\n  y");
    assert_eq!(tokens[0].location, SourceLocation::new(1, 1, 0));
    assert_eq!(tokens[1].location, SourceLocation::new(1, 5, 4));
    assert_eq!(tokens[4].location, SourceLocation::new(1, 10, 9));
    assert_eq!(tokens[5].location, SourceLocation::new(2, 3, 13));
    assert_eq!(tokens[6].token_type, TokenType::Eof);
    assert_eq!(tokens[6].location, SourceLocation::new(2, 4, 14));

    // multi-byte characters inside a string move the byte offset further
    let tokens = lex("\"\u{00e9}\u{4e16}\" z");
    assert_eq!(tokens[1].location, SourceLocation::new(1, 6, 8));
}

#[test]
fn calculate_location_matches_token_locations() {
    let source = "fn main() {\n  seeAm \"\u{00e9}\";\n}";
    let lexer = Lexer::new(source);
    let tokens = Lexer::new(source).tokenize().unwrap();
    for t in &tokens {
        assert_eq!(lexer.calculate_location(t.location.offset), t.location);
    }
    let end = lexer.calculate_location(source.len());
    assert_eq!(end, tokens[tokens.len() - 1].location);
}

#[test]
fn unexpected_characters_are_errors() {
    let cases = [
        ("a @ b", 1, 3, "Unexpected character: '@'"),
        ("x\n  #", 2, 3, "Unexpected character: '#'"),
        ("a & b", 1, 3, "Unexpected character: '&'"),
        ("a | b", 1, 3, "Unexpected character: '|'"),
        ("\u{00e9}", 1, 1, "Unexpected character: '\u{00e9}'"),
        ("x \"open", 1, 3, "Unexpected character: '\"open'"),
        ("\"ab\\\ncd\"", 1, 1, "Unexpected character: '\"ab\\'"),
    ];
    for (source, line, column, message) in cases {
        let mut lexer = Lexer::new(source);
        match lexer.tokenize() {
            Err(OvieError::LexError { line: l, column: c, message: m }) => {
                assert_eq!((l, c), (line, column), "{}", source);
                assert_eq!(m, message);
            }
            other => panic!("unexpected result for {:?}: {:?}", source, other),
        }
    }
}

#[test]
fn classify_identifier_maps_keywords() {
    let lexer = Lexer::new("");
    assert_eq!(lexer.classify_identifier("fn"), TokenType::Fn);
    assert_eq!(lexer.classify_identifier("in"), TokenType::In);
    assert_eq!(lexer.classify_identifier("let"), TokenType::Let);
    assert_eq!(lexer.classify_identifier("seeAm"), TokenType::SeeAm);
    assert_eq!(lexer.classify_identifier("seeam"), TokenType::Identifier);
    assert_eq!(lexer.classify_identifier(""), TokenType::Identifier);
}

#[test]
fn empty_source_gives_only_eof() {
    let tokens = lex("");
    assert_eq!(tokens.len(), 1);
    assert_eq!(tokens[0].token_type, TokenType::Eof);
    assert_eq!(tokens[0].location, SourceLocation::new(1, 1, 0));
}

#[test]
fn token_display_and_names() {
    let tokens = lex("seeAm x");
    assert_eq!(tokens[0].display(), "seeAm 'seeAm' at 1:1");
    assert_eq!(tokens[1].display(), "identifier 'x' at 1:7");
    assert_eq!(TokenType::DotDot.name(), "..");
    assert_eq!(TokenType::Eof.name(), "EOF");
    let t = Token::new(TokenType::Plus, String::from("+"), SourceLocation::new(3, 4, 5));
    assert_eq!(t.display(), "+ '+' at 3:4");
}
