use assassin::parser::{tokenize, try_tokenize, Token, TokenizerError};

fn name(s: &str) -> Token {
    Token::Name(s.to_string())
}

#[test]
fn empty_line_has_no_tokens() {
    assert_eq!(try_tokenize(""), Ok(vec![]));
    assert_eq!(tokenize(""), Vec::<Token>::new());
}

#[test]
fn leading_white_space_gives_empty() {
    assert_eq!(
        try_tokenize("  LDA #$1F ; load"),
        Ok(vec![Token::Empty, name("LDA"), Token::Hash, Token::Unsigned(31), Token::Comment(" load".to_string())])
    );
    assert_eq!(try_tokenize("\tNOP"), Ok(vec![Token::Empty, name("NOP")]));
    assert_eq!(try_tokenize("   "), Ok(vec![Token::Empty]));
}

#[test]
fn tokenize_gives_the_tokens_of_a_line_that_splits() {
    assert_eq!(tokenize("x: NOP"), vec![name("x"), Token::Colon, name("NOP")]);
}

#[test]
fn label_line() {
    assert_eq!(
        try_tokenize("start: ORG 1024"),
        Ok(vec![name("start"), Token::Colon, name("ORG"), Token::Unsigned(1024)])
    );
    assert_eq!(try_tokenize("a  b"), Ok(vec![name("a"), name("b")]));
    assert_eq!(try_tokenize("_x_1 y2"), Ok(vec![name("_x_1"), name("y2")]));
}

#[test]
fn number_literals() {
    assert_eq!(try_tokenize("65535"), Ok(vec![Token::Unsigned(65535)]));
    assert_eq!(try_tokenize("007"), Ok(vec![Token::Unsigned(7)]));
    assert_eq!(try_tokenize("$ff $FF"), Ok(vec![Token::Unsigned(255), Token::Unsigned(255)]));
    assert_eq!(try_tokenize("@101"), Ok(vec![Token::Unsigned(5)]));
    assert_eq!(try_tokenize("'A'"), Ok(vec![Token::Unsigned(65)]));
    assert_eq!(try_tokenize("'''"), Ok(vec![Token::Unsigned(39)]));
    assert_eq!(try_tokenize("'€'"), Ok(vec![Token::Unsigned(0x20AC)]));
}

#[test]
fn string_literals() {
    assert_eq!(try_tokenize("\"hi there\""), Ok(vec![Token::String("hi there".to_string())]));
    assert_eq!(try_tokenize("\"abc"), Ok(vec![Token::String("abc".to_string())]));
    assert_eq!(
        try_tokenize("\"a\",1"),
        Ok(vec![Token::String("a".to_string()), Token::Comma, Token::Unsigned(1)])
    );
}

#[test]
fn symbols() {
    assert_eq!(
        try_tokenize("+-*/%&|^!<>(),:#"),
        Ok(vec![
            Token::Plus,
            Token::Minus,
            Token::Mul,
            Token::Div,
            Token::Mod,
            Token::And,
            Token::Or,
            Token::Xor,
            Token::Not,
            Token::LessThan,
            Token::GreaterThan,
            Token::OpenParen,
            Token::CloseParen,
            Token::Comma,
            Token::Colon,
            Token::Hash,
        ])
    );
}

#[test]
fn comment_takes_the_rest_of_the_line() {
    assert_eq!(try_tokenize(";x ; \"y"), Ok(vec![Token::Comment("x ; \"y".to_string())]));
    assert_eq!(try_tokenize("a;"), Ok(vec![name("a"), Token::Comment(String::new())]));
}

#[test]
fn names_continue_with_unicode_alphanumerics() {
    assert_eq!(try_tokenize("né"), Ok(vec![name("né")]));
}

#[test]
fn invalid_numbers() {
    assert_eq!(try_tokenize("12ab"), Err(TokenizerError::InvalidDecimal));
    assert_eq!(try_tokenize("70000"), Err(TokenizerError::InvalidDecimal));
    assert_eq!(try_tokenize("1_0"), Err(TokenizerError::InvalidDecimal));
    assert_eq!(try_tokenize("$G"), Err(TokenizerError::InvalidHexadecimal));
    assert_eq!(try_tokenize("$"), Err(TokenizerError::InvalidHexadecimal));
    assert_eq!(try_tokenize("$10000"), Err(TokenizerError::InvalidHexadecimal));
    assert_eq!(try_tokenize("@2"), Err(TokenizerError::InvalidBinary));
}

#[test]
fn invalid_characters() {
    assert_eq!(try_tokenize("["), Err(TokenizerError::UnexpectedCharacter('[')));
    assert_eq!(try_tokenize("a = 1"), Err(TokenizerError::UnexpectedCharacter('=')));
    assert_eq!(try_tokenize("é"), Err(TokenizerError::UnexpectedCharacter('é')));
    assert_eq!(try_tokenize("'A"), Err(TokenizerError::UnterminatedChar));
    assert_eq!(try_tokenize("'AB'"), Err(TokenizerError::UnterminatedChar));
    assert_eq!(try_tokenize("'"), Err(TokenizerError::UnterminatedChar));
}

#[test]
fn comment_is_last_and_empty_is_first() {
    for line in ["  LDA #1 ; c", "x: ; y", "\t;", "a b c"] {
        let ts = tokenize(line);
        for (k, t) in ts.iter().enumerate() {
            if let Token::Comment(_) = t {
                assert_eq!(k, ts.len() - 1);
            }
            if let Token::Empty = t {
                assert_eq!(k, 0);
            }
        }
    }
}
