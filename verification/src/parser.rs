//! The tokenizer: one source line to a sequence of tokens.
use vstd::prelude::*;
use crate::text::{alphanumeric_flags, classify};

verus! {

/// A lexical token of an assembly source line.
#[derive(Debug, PartialEq, Eq)]
pub enum Token {
    /// The line starts with white space: it has no label.
    Empty,
    Name(String),
    Unsigned(u16),
    String(String),
    Colon,
    Comma,
    Hash,
    OpenParen,
    CloseParen,
    OpenBracket,
    CloseBracket,
    LessThan,
    GreaterThan,
    Plus,
    Minus,
    Mul,
    Div,
    Mod,
    And,
    Or,
    Xor,
    Not,
    /// The rest of the line after a `;`.
    Comment(String),
}

/// A token with its strings taken as character sequences.
pub enum SpecToken {
    Empty,
    Name(Seq<char>),
    Unsigned(u16),
    String(Seq<char>),
    Colon,
    Comma,
    Hash,
    OpenParen,
    CloseParen,
    OpenBracket,
    CloseBracket,
    LessThan,
    GreaterThan,
    Plus,
    Minus,
    Mul,
    Div,
    Mod,
    And,
    Or,
    Xor,
    Not,
    Comment(Seq<char>),
}

impl View for Token {
    type V = SpecToken;

    open spec fn view(&self) -> SpecToken {
        match self {
            Token::Empty => SpecToken::Empty,
            Token::Name(s) => SpecToken::Name(s@),
            Token::Unsigned(v) => SpecToken::Unsigned(*v),
            Token::String(s) => SpecToken::String(s@),
            Token::Colon => SpecToken::Colon,
            Token::Comma => SpecToken::Comma,
            Token::Hash => SpecToken::Hash,
            Token::OpenParen => SpecToken::OpenParen,
            Token::CloseParen => SpecToken::CloseParen,
            Token::OpenBracket => SpecToken::OpenBracket,
            Token::CloseBracket => SpecToken::CloseBracket,
            Token::LessThan => SpecToken::LessThan,
            Token::GreaterThan => SpecToken::GreaterThan,
            Token::Plus => SpecToken::Plus,
            Token::Minus => SpecToken::Minus,
            Token::Mul => SpecToken::Mul,
            Token::Div => SpecToken::Div,
            Token::Mod => SpecToken::Mod,
            Token::And => SpecToken::And,
            Token::Or => SpecToken::Or,
            Token::Xor => SpecToken::Xor,
            Token::Not => SpecToken::Not,
            Token::Comment(s) => SpecToken::Comment(s@),
        }
    }
}

/// Why a line cannot be split into tokens.
#[derive(Debug, Clone, Copy, PartialEq, Eq, Structural)]
pub enum TokenizerError {
    /// A character that starts no token.
    UnexpectedCharacter(char),
    UnterminatedString,
    /// A `'` that is not followed by a character and a closing `'`.
    UnterminatedChar,
    /// A decimal literal that is not a number below 65536.
    InvalidDecimal,
    /// A `$` literal that is not a hexadecimal number below 65536.
    InvalidHexadecimal,
    /// A `@` literal that is not a binary number below 65536.
    InvalidBinary,
}

/// The tokens of a sequence, each taken by its view.
pub open spec fn token_views(ts: Seq<Token>) -> Seq<SpecToken> {
    ts.map_values(|t: Token| t@)
}

/// Whether a character is an ASCII letter.
pub open spec fn is_ascii_letter(c: char) -> bool {
    ('a' <= c && c <= 'z') || ('A' <= c && c <= 'Z')
}

/// Whether a character is an ASCII decimal digit.
pub open spec fn is_ascii_digit(c: char) -> bool {
    '0' <= c && c <= '9'
}

/// The value of a digit in a radix, if it is one: `0`-`9`, then letters of
/// either case from 10 on.
pub open spec fn digit_value(c: char, radix: nat) -> Option<nat> {
    let v: int = if is_ascii_digit(c) {
        c as int - '0' as int
    } else if 'a' <= c && c <= 'z' {
        c as int - 'a' as int + 10
    } else if 'A' <= c && c <= 'Z' {
        c as int - 'A' as int + 10
    } else {
        36
    };
    if v < radix {
        Some(v as nat)
    } else {
        None
    }
}

/// The number that a string of digits denotes, if every character is a
/// digit of the radix.
pub open spec fn digits_value(s: Seq<char>, radix: nat) -> Option<nat>
    decreases s.len(),
{
    if s.len() == 0 {
        Some(0)
    } else {
        match (digits_value(s.drop_last(), radix), digit_value(s.last(), radix)) {
            (Some(v), Some(d)) => Some(v * radix + d),
            _ => None,
        }
    }
}

/// A non-empty string of digits whose number fits in 16 bits.
pub open spec fn parse_radix(s: Seq<char>, radix: nat) -> Option<u16> {
    if s.len() == 0 {
        None
    } else {
        match digits_value(s, radix) {
            Some(v) => if v <= 0xFFFF {
                Some(v as u16)
            } else {
                None
            },
            None => None,
        }
    }
}

/// Whether the character at `i` continues a name or a number: it is
/// alphanumeric (as `alnum` records) or `_`.
pub open spec fn continues(s: Seq<char>, alnum: Seq<bool>, i: int) -> bool {
    alnum[i] || s[i] == '_'
}

/// The end of the run of continuing characters that starts at `i`.
pub open spec fn run_end(s: Seq<char>, alnum: Seq<bool>, i: int) -> int
    decreases s.len() - i,
{
    if i < 0 || i >= s.len() || !continues(s, alnum, i) {
        i
    } else {
        run_end(s, alnum, i + 1)
    }
}

/// The index of the first `"` at or after `i`, or the length of the line.
pub open spec fn quote_end(s: Seq<char>, i: int) -> int
    decreases s.len() - i,
{
    if i < 0 || i >= s.len() || s[i] == '"' {
        i
    } else {
        quote_end(s, i + 1)
    }
}

/// The token of a one-character symbol.
pub open spec fn symbol(c: char) -> Option<SpecToken> {
    if c == ',' {
        Some(SpecToken::Comma)
    } else if c == ':' {
        Some(SpecToken::Colon)
    } else if c == '#' {
        Some(SpecToken::Hash)
    } else if c == '(' {
        Some(SpecToken::OpenParen)
    } else if c == ')' {
        Some(SpecToken::CloseParen)
    } else if c == '+' {
        Some(SpecToken::Plus)
    } else if c == '-' {
        Some(SpecToken::Minus)
    } else if c == '*' {
        Some(SpecToken::Mul)
    } else if c == '/' {
        Some(SpecToken::Div)
    } else if c == '%' {
        Some(SpecToken::Mod)
    } else if c == '&' {
        Some(SpecToken::And)
    } else if c == '|' {
        Some(SpecToken::Or)
    } else if c == '^' {
        Some(SpecToken::Xor)
    } else if c == '!' {
        Some(SpecToken::Not)
    } else if c == '<' {
        Some(SpecToken::LessThan)
    } else if c == '>' {
        Some(SpecToken::GreaterThan)
    } else {
        None
    }
}

/// A token in front of the tokens of the rest of a line.
pub open spec fn cons(t: SpecToken, rest: Result<Seq<SpecToken>, TokenizerError>) -> Result<
    Seq<SpecToken>,
    TokenizerError,
> {
    match rest {
        Ok(ts) => Ok(seq![t] + ts),
        Err(e) => Err(e),
    }
}

/// Tokens in front of the tokens of the rest of a line.
pub open spec fn prepend(p: Seq<SpecToken>, rest: Result<Seq<SpecToken>, TokenizerError>) -> Result<
    Seq<SpecToken>,
    TokenizerError,
> {
    match rest {
        Ok(ts) => Ok(p + ts),
        Err(e) => Err(e),
    }
}

/// A run of name characters ends at or after its start, and within the
/// line.
pub proof fn lemma_run_end(s: Seq<char>, alnum: Seq<bool>, i: int)
    requires
        0 <= i,
    ensures
        i <= run_end(s, alnum, i),
        i <= s.len() ==> run_end(s, alnum, i) <= s.len(),
    decreases s.len() - i,
{
    if i < s.len() && continues(s, alnum, i) {
        lemma_run_end(s, alnum, i + 1);
    }
}

/// The closing quote of a string literal is at or after its start, within
/// the line, and is a `"` where the line has one.
pub proof fn lemma_quote_end(s: Seq<char>, i: int)
    requires
        0 <= i,
    ensures
        i <= quote_end(s, i),
        i <= s.len() ==> quote_end(s, i) <= s.len(),
        quote_end(s, i) < s.len() ==> s[quote_end(s, i)] == '"',
    decreases s.len() - i,
{
    if i < s.len() && s[i] != '"' {
        lemma_quote_end(s, i + 1);
    }
}

/// The tokens of the line `s` from index `i` on; `alnum` records which
/// characters are alphanumeric. A leading white space gives `Empty`;
/// white space elsewhere separates tokens.
pub open spec fn scan(s: Seq<char>, alnum: Seq<bool>, i: int) -> Result<Seq<SpecToken>, TokenizerError>
    decreases s.len() - i,
{
    if i < 0 || i >= s.len() {
        Ok(seq![])
    } else {
        let c = s[i];
        if c == ' ' || c == '\t' {
            if i == 0 {
                cons(SpecToken::Empty, scan(s, alnum, i + 1))
            } else {
                scan(s, alnum, i + 1)
            }
        } else if c == ';' {
            Ok(seq![SpecToken::Comment(s.subrange(i + 1, s.len() as int))])
        } else if is_ascii_letter(c) || c == '_' {
            proof {
                lemma_run_end(s, alnum, i + 1);
            }
            let j = run_end(s, alnum, i + 1);
            cons(SpecToken::Name(s.subrange(i, j)), scan(s, alnum, j))
        } else if is_ascii_digit(c) || c == '$' || c == '@' {
            proof {
                lemma_run_end(s, alnum, i + 1);
            }
            let j = run_end(s, alnum, i + 1);
            let (digits, radix, err) = if c == '$' {
                (s.subrange(i + 1, j), 16nat, TokenizerError::InvalidHexadecimal)
            } else if c == '@' {
                (s.subrange(i + 1, j), 2nat, TokenizerError::InvalidBinary)
            } else {
                (s.subrange(i, j), 10nat, TokenizerError::InvalidDecimal)
            };
            match parse_radix(digits, radix) {
                Some(v) => cons(SpecToken::Unsigned(v), scan(s, alnum, j)),
                None => Err(err),
            }
        } else if c == '"' {
            proof {
                lemma_quote_end(s, i + 1);
            }
            let j = quote_end(s, i + 1);
            let next = if j < s.len() {
                j + 1
            } else {
                j
            };
            cons(SpecToken::String(s.subrange(i + 1, j)), scan(s, alnum, next))
        } else if c == '\'' {
            if i + 2 < s.len() && s[i + 2] == '\'' {
                cons(SpecToken::Unsigned((s[i + 1] as u32) as u16), scan(s, alnum, i + 3))
            } else {
                Err(TokenizerError::UnterminatedChar)
            }
        } else {
            match symbol(c) {
                Some(t) => cons(t, scan(s, alnum, i + 1)),
                None => Err(TokenizerError::UnexpectedCharacter(c)),
            }
        }
    }
}

/// Tokens in front of a token in front of the rest are the longer prefix in
/// front of the rest.
proof fn lemma_prepend_cons(p: Seq<SpecToken>, t: SpecToken, r: Result<Seq<SpecToken>, TokenizerError>)
    ensures
        prepend(p, cons(t, r)) == prepend(p.push(t), r),
{
    if let Ok(ts) = r {
        assert(p + (seq![t] + ts) =~= p.push(t) + ts);
    }
}

/// A string of digits that has a value has it no smaller than each of its
/// prefixes, which have values too.
proof fn lemma_digits_prefix(s: Seq<char>, radix: nat, k: int)
    requires
        radix >= 1,
        0 <= k <= s.len(),
        digits_value(s, radix) is Some,
    ensures
        digits_value(s.take(k), radix) is Some,
        digits_value(s.take(k), radix)->Some_0 <= digits_value(s, radix)->Some_0,
    decreases s.len(),
{
    if k == s.len() {
        assert(s.take(k) =~= s);
    } else {
        let t = s.drop_last();
        let v = digits_value(t, radix)->Some_0;
        let d = digit_value(s.last(), radix)->Some_0;
        assert(v <= v * radix + d) by (nonlinear_arith)
            requires
                radix >= 1,
        ;
        lemma_digits_prefix(t, radix, k);
        assert(t.take(k) =~= s.take(k));
    }
}

/// The characters of a string slice, one by one.
fn chars_of(s: &str) -> (v: Vec<char>)
    ensures
        v@ == s@,
{
    let n = s.unicode_len();
    let mut v: Vec<char> = Vec::new();
    let mut i: usize = 0;
    while i < n
        invariant
            n == s@.len(),
            i <= n,
            v@ == s@.take(i as int),
        decreases n - i,
    {
        v.push(s.get_char(i));
        i = i + 1;
        assert(v@ =~= s@.take(i as int));
    }
    assert(s@.take(n as int) =~= s@);
    v
}

/// The value of a digit in a radix of at most 36.
fn digit(c: char, radix: u32) -> (r: Option<u32>)
    requires
        2 <= radix <= 36,
    ensures
        match r {
            Some(d) => digit_value(c, radix as nat) == Some(d as nat),
            None => digit_value(c, radix as nat) is None,
        },
{
    let code = c as u32;
    let v: u32 = if '0' <= c && c <= '9' {
        code - ('0' as u32)
    } else if 'a' <= c && c <= 'z' {
        code - ('a' as u32) + 10
    } else if 'A' <= c && c <= 'Z' {
        code - ('A' as u32) + 10
    } else {
        36
    };
    if v < radix {
        Some(v)
    } else {
        None
    }
}

/// The number that `chars[start..end]` denotes in a radix, if it is a
/// non-empty string of digits with a value below 65536.
fn parse_number(chars: &Vec<char>, start: usize, end: usize, radix: u32) -> (r: Option<u16>)
    requires
        start <= end <= chars@.len(),
        2 <= radix <= 16,
    ensures
        r == parse_radix(chars@.subrange(start as int, end as int), radix as nat),
{
    let ghost s = chars@.subrange(start as int, end as int);
    if start == end {
        return None;
    }
    let mut acc: u32 = 0;
    let mut i: usize = start;
    while i < end
        invariant
            start <= i <= end <= chars@.len(),
            2 <= radix <= 16,
            s == chars@.subrange(start as int, end as int),
            acc <= 0xFFFF,
            digits_value(s.take(i - start), radix as nat) == Some(acc as nat),
        decreases end - i,
    {
        let ghost t = s.take(i + 1 - start);
        assert(t.drop_last() =~= s.take(i - start));
        assert(t.last() == chars@[i as int]);
        match digit(chars[i], radix) {
            None => {
                proof {
                    if digits_value(s, radix as nat) is Some {
                        lemma_digits_prefix(s, radix as nat, i + 1 - start);
                    }
                }
                return None;
            },
            Some(d) => {
                assert(acc * radix + d <= 0xFFFF * 16 + 15) by (nonlinear_arith)
                    requires
                        acc <= 0xFFFF,
                        radix <= 16,
                        d < radix,
                ;
                acc = acc * radix + d;
                if acc > 0xFFFF {
                    proof {
                        if digits_value(s, radix as nat) is Some {
                            lemma_digits_prefix(s, radix as nat, i + 1 - start);
                        }
                    }
                    return None;
                }
            },
        }
        i = i + 1;
    }
    assert(s.take(end - start) =~= s);
    Some(acc as u16)
}

/// The end of the run of name characters from `start` on.
fn run_end_exec(chars: &Vec<char>, alnum: &[bool], start: usize) -> (j: usize)
    requires
        chars@.len() == alnum@.len(),
        start <= chars@.len(),
    ensures
        j == run_end(chars@, alnum@, start as int),
        start <= j <= chars@.len(),
{
    let n = chars.len();
    let mut j = start;
    while j < n && (alnum[j] || chars[j] == '_')
        invariant
            n == chars@.len(),
            n == alnum@.len(),
            start <= j <= n,
            run_end(chars@, alnum@, j as int) == run_end(chars@, alnum@, start as int),
        decreases n - j,
    {
        j = j + 1;
    }
    j
}

/// The index of the first `"` from `start` on, or the line's length.
fn quote_end_exec(chars: &Vec<char>, start: usize) -> (j: usize)
    requires
        start <= chars@.len(),
    ensures
        j == quote_end(chars@, start as int),
        start <= j <= chars@.len(),
{
    let n = chars.len();
    let mut j = start;
    while j < n && chars[j] != '"'
        invariant
            n == chars@.len(),
            start <= j <= n,
            quote_end(chars@, j as int) == quote_end(chars@, start as int),
        decreases n - j,
    {
        j = j + 1;
    }
    j
}

/// The token of a one-character symbol.
fn symbol_token(c: char) -> (r: Option<Token>)
    ensures
        match r {
            Some(t) => symbol(c) == Some(t@),
            None => symbol(c) is None,
        },
{
    if c == ',' {
        Some(Token::Comma)
    } else if c == ':' {
        Some(Token::Colon)
    } else if c == '#' {
        Some(Token::Hash)
    } else if c == '(' {
        Some(Token::OpenParen)
    } else if c == ')' {
        Some(Token::CloseParen)
    } else if c == '+' {
        Some(Token::Plus)
    } else if c == '-' {
        Some(Token::Minus)
    } else if c == '*' {
        Some(Token::Mul)
    } else if c == '/' {
        Some(Token::Div)
    } else if c == '%' {
        Some(Token::Mod)
    } else if c == '&' {
        Some(Token::And)
    } else if c == '|' {
        Some(Token::Or)
    } else if c == '^' {
        Some(Token::Xor)
    } else if c == '!' {
        Some(Token::Not)
    } else if c == '<' {
        Some(Token::LessThan)
    } else if c == '>' {
        Some(Token::GreaterThan)
    } else {
        None
    }
}

/// Whether a tokenizer result is the one that `scan` gives.
pub open spec fn tokenized_as(r: Result<Vec<Token>, TokenizerError>, expected: Result<Seq<SpecToken>, TokenizerError>) -> bool {
    match r {
        Ok(ts) => expected == Ok::<Seq<SpecToken>, TokenizerError>(token_views(ts@)),
        Err(e) => expected == Err::<Seq<SpecToken>, TokenizerError>(e),
    }
}

/// Splits a line into tokens, given which of its characters are
/// alphanumeric.
pub fn tokenize_classified(line: &str, alnum: &[bool]) -> (r: Result<Vec<Token>, TokenizerError>)
    requires
        alnum@.len() == line@.len(),
    ensures
        tokenized_as(r, scan(line@, alnum@, 0)),
{
    let ghost s = line@;
    let ghost a = alnum@;
    let chars = chars_of(line);
    let n = chars.len();
    let mut tokens: Vec<Token> = Vec::new();
    let mut i: usize = 0;
    while i < n
        invariant
            chars@ == s,
            s == line@,
            a == alnum@,
            a.len() == n,
            n == s.len(),
            i <= n,
            scan(s, a, 0) == prepend(token_views(tokens@), scan(s, a, i as int)),
            i > 0 ==> tokens@.len() > 0,
        decreases n - i,
    {
        let ghost before = token_views(tokens@);
        let c = chars[i];
        if c == ' ' || c == '\t' {
            if tokens.len() == 0 {
                tokens.push(Token::Empty);
                proof {
                    assert(token_views(tokens@) =~= before.push(SpecToken::Empty));
                    lemma_prepend_cons(before, SpecToken::Empty, scan(s, a, i + 1));
                }
            }
            i = i + 1;
        } else if c == ';' {
            let text = String::from_str(line.substring_char(i + 1, n));
            let tok = Token::Comment(text);
            tokens.push(tok);
            proof {
                assert(token_views(tokens@) =~= before.push(tok@));
                lemma_prepend_cons(before, tok@, scan(s, a, n as int));
            }
            i = n;
        } else if ('a' <= c && c <= 'z') || ('A' <= c && c <= 'Z') || c == '_' {
            let j = run_end_exec(&chars, alnum, i + 1);
            let text = String::from_str(line.substring_char(i, j));
            let tok = Token::Name(text);
            tokens.push(tok);
            proof {
                assert(token_views(tokens@) =~= before.push(tok@));
                lemma_prepend_cons(before, tok@, scan(s, a, j as int));
            }
            i = j;
        } else if ('0' <= c && c <= '9') || c == '$' || c == '@' {
            let j = run_end_exec(&chars, alnum, i + 1);
            let parsed = if c == '$' {
                parse_number(&chars, i + 1, j, 16)
            } else if c == '@' {
                parse_number(&chars, i + 1, j, 2)
            } else {
                parse_number(&chars, i, j, 10)
            };
            match parsed {
                Some(v) => {
                    let tok = Token::Unsigned(v);
                    tokens.push(tok);
                    proof {
                        assert(token_views(tokens@) =~= before.push(tok@));
                        lemma_prepend_cons(before, tok@, scan(s, a, j as int));
                    }
                    i = j;
                },
                None => {
                    if c == '$' {
                        return Err(TokenizerError::InvalidHexadecimal);
                    } else if c == '@' {
                        return Err(TokenizerError::InvalidBinary);
                    } else {
                        return Err(TokenizerError::InvalidDecimal);
                    }
                },
            }
        } else if c == '"' {
            let j = quote_end_exec(&chars, i + 1);
            let text = String::from_str(line.substring_char(i + 1, j));
            let tok = Token::String(text);
            tokens.push(tok);
            let next = if j < n {
                j + 1
            } else {
                j
            };
            proof {
                assert(token_views(tokens@) =~= before.push(tok@));
                lemma_prepend_cons(before, tok@, scan(s, a, next as int));
            }
            i = next;
        } else if c == '\'' {
            if n - i > 2 && chars[i + 2] == '\'' {
                let tok = Token::Unsigned((chars[i + 1] as u32) as u16);
                tokens.push(tok);
                proof {
                    assert(token_views(tokens@) =~= before.push(tok@));
                    lemma_prepend_cons(before, tok@, scan(s, a, i + 3));
                }
                i = i + 3;
            } else {
                return Err(TokenizerError::UnterminatedChar);
            }
        } else {
            match symbol_token(c) {
                Some(tok) => {
                    tokens.push(tok);
                    proof {
                        assert(token_views(tokens@) =~= before.push(tok@));
                        lemma_prepend_cons(before, tok@, scan(s, a, i + 1));
                    }
                    i = i + 1;
                },
                None => {
                    return Err(TokenizerError::UnexpectedCharacter(c));
                },
            }
        }
    }
    assert(token_views(tokens@) + seq![] =~= token_views(tokens@));
    Ok(tokens)
}

/// Splits a source line into tokens. The line must be one that splits:
/// where it does not, the program stops (see `try_tokenize`).
pub fn tokenize(line: &str) -> (r: Vec<Token>)
    requires
        scan(line@, alphanumeric_flags(line@), 0) is Ok,
    ensures
        scan(line@, alphanumeric_flags(line@), 0) == Ok::<Seq<SpecToken>, TokenizerError>(token_views(r@)),
{
    let flags = classify(line);
    match tokenize_classified(line, flags.as_slice()) {
        Ok(tokens) => tokens,
        Err(_) => {
            assert(false);
            Vec::new()
        },
    }
}

/// Splits a source line into tokens, or says why it does not split.
pub fn try_tokenize(line: &str) -> (r: Result<Vec<Token>, TokenizerError>)
    ensures
        tokenized_as(r, scan(line@, alphanumeric_flags(line@), 0)),
{
    let flags = classify(line);
    match tokenize_classified(line, flags.as_slice()) {
        Ok(_) => Ok(tokenize(line)),
        Err(e) => Err(e),
    }
}

/// Whether the tokens of a line are in the shape that the recogniser
/// expects: a comment only as the last token, `Empty` only as the first.
pub open spec fn well_placed(ts: Seq<SpecToken>) -> bool {
    &&& forall|k: int| 0 <= k < ts.len() - 1 ==> !(#[trigger] ts[k] is Comment)
    &&& forall|k: int| 0 < k < ts.len() ==> !(#[trigger] ts[k] is Empty)
}

proof fn lemma_scan_shape(s: Seq<char>, a: Seq<bool>, i: int)
    requires
        0 <= i,
    ensures
        scan(s, a, i) matches Ok(ts) ==> {
            &&& well_placed(ts)
            &&& (ts.len() > 0 && ts[0] is Empty) ==> i == 0
        },
    decreases s.len() - i,
{
    if i < s.len() {
        let c = s[i];
        if c == ' ' || c == '\t' {
            lemma_scan_shape(s, a, i + 1);
        } else if c == ';' {
        } else if is_ascii_letter(c) || c == '_' || is_ascii_digit(c) || c == '$' || c == '@' {
            lemma_run_end(s, a, i + 1);
            lemma_scan_shape(s, a, run_end(s, a, i + 1));
        } else if c == '"' {
            lemma_quote_end(s, i + 1);
            let j = quote_end(s, i + 1);
            lemma_scan_shape(s, a, if j < s.len() { j + 1 } else { j });
        } else if c == '\'' {
            if i + 2 < s.len() {
                lemma_scan_shape(s, a, i + 3);
            }
        } else {
            lemma_scan_shape(s, a, i + 1);
        }
    }
}

/// The tokens of a line have a comment only as their last token and
/// `Empty` only as their first; a line that starts with white space has
/// `Empty` as its first token.
pub proof fn law_token_order(line: Seq<char>, alnum: Seq<bool>)
    ensures
        scan(line, alnum, 0) matches Ok(ts) ==> {
            &&& well_placed(ts)
            &&& (line.len() > 0 && (line[0] == ' ' || line[0] == '\t')) ==> ts.len() > 0 && ts[0] is Empty
        },
{
    lemma_scan_shape(line, alnum, 0);
}


/// Runs over lines on which the same characters continue names end at the
/// same place.
proof fn lemma_run_end_same(s: Seq<char>, t: Seq<char>, a: Seq<bool>, i: int)
    requires
        0 <= i,
        s.len() == t.len(),
        forall|x: int| i <= x < s.len() ==> continues(s, a, x) == continues(t, a, x),
    ensures
        run_end(s, a, i) == run_end(t, a, i),
    decreases s.len() - i,
{
    if i < s.len() && continues(s, a, i) {
        lemma_run_end_same(s, t, a, i + 1);
    }
}

/// A run stops at the first character that does not continue it.
proof fn lemma_run_end_stops(s: Seq<char>, a: Seq<bool>, i: int, k: int)
    requires
        0 <= i <= k < s.len(),
        !continues(s, a, k),
    ensures
        run_end(s, a, i) <= k,
    decreases k - i,
{
    if i < k && continues(s, a, i) {
        lemma_run_end_stops(s, a, i + 1, k);
    }
}

/// The closing quote is found at the same place on lines that have their
/// quotes at the same places from the start of the search on.
proof fn lemma_quote_end_same(s: Seq<char>, t: Seq<char>, i: int)
    requires
        0 <= i,
        s.len() == t.len(),
        forall|x: int| i <= x < s.len() ==> (s[x] == '"') == (t[x] == '"'),
    ensures
        quote_end(s, i) == quote_end(t, i),
    decreases s.len() - i,
{
    if i < s.len() && s[i] != '"' {
        lemma_quote_end_same(s, t, i + 1);
    }
}

/// Whether the tokenizer, walking the line from `i`, comes to `k` between
/// tokens: `k` is not inside a name, a number, a string, a character
/// literal or a comment.
pub open spec fn between_tokens(s: Seq<char>, alnum: Seq<bool>, i: int, k: int) -> bool
    decreases s.len() - i,
{
    if i < 0 || i >= s.len() || i > k {
        false
    } else if i == k {
        true
    } else {
        let c = s[i];
        if c == ';' {
            false
        } else if is_ascii_letter(c) || c == '_' || is_ascii_digit(c) || c == '$' || c == '@' {
            proof {
                lemma_run_end(s, alnum, i + 1);
            }
            between_tokens(s, alnum, run_end(s, alnum, i + 1), k)
        } else if c == '"' {
            proof {
                lemma_quote_end(s, i + 1);
            }
            let j = quote_end(s, i + 1);
            between_tokens(s, alnum, if j < s.len() { j + 1 } else { j }, k)
        } else if c == '\'' {
            if i + 2 < s.len() {
                between_tokens(s, alnum, i + 3, k)
            } else {
                false
            }
        } else {
            between_tokens(s, alnum, i + 1, k)
        }
    }
}

/// Lines that differ in one white-space character, which stands between
/// tokens, give the same tokens from any index on.
proof fn lemma_scan_white_space(s: Seq<char>, t: Seq<char>, a: Seq<bool>, k: int, i: int)
    requires
        0 <= i,
        0 <= k < s.len(),
        s.len() == t.len(),
        a.len() == s.len(),
        forall|x: int| 0 <= x < s.len() && x != k ==> s[x] == t[x],
        s[k] == ' ' || s[k] == '\t',
        t[k] == ' ' || t[k] == '\t',
        !a[k],
        i > k || between_tokens(s, a, i, k),
    ensures
        scan(s, a, i) == scan(t, a, i),
    decreases s.len() - i,
{
    if i < s.len() {
        let c = s[i];
        assert forall|x: int| 0 <= x < s.len() implies continues(s, a, x) == continues(t, a, x) by {
            if x != k {
                assert(s[x] == t[x]);
            }
        }
        if i == k || c == ' ' || c == '\t' {
            lemma_scan_white_space(s, t, a, k, i + 1);
        } else if c == ';' {
            assert(s.subrange(i + 1, s.len() as int) =~= t.subrange(i + 1, t.len() as int));
        } else if is_ascii_letter(c) || c == '_' || is_ascii_digit(c) || c == '$' || c == '@' {
            lemma_run_end(s, a, i + 1);
            lemma_run_end_same(s, t, a, i + 1);
            let j = run_end(s, a, i + 1);
            if i < k {
                lemma_between_tokens_bounds(s, a, j, k);
            }
            assert(s.subrange(i, j) =~= t.subrange(i, j));
            assert(s.subrange(i + 1, j) =~= t.subrange(i + 1, j));
            lemma_scan_white_space(s, t, a, k, j);
        } else if c == '"' {
            lemma_quote_end(s, i + 1);
            assert forall|x: int| i + 1 <= x < s.len() implies (s[x] == '"') == (t[x] == '"') by {
                if x != k {
                    assert(s[x] == t[x]);
                }
            }
            lemma_quote_end_same(s, t, i + 1);
            let j = quote_end(s, i + 1);
            if i < k {
                lemma_between_tokens_bounds(s, a, if j < s.len() { j + 1 } else { j }, k);
            }
            assert(s.subrange(i + 1, j) =~= t.subrange(i + 1, j));
            lemma_scan_white_space(s, t, a, k, if j < s.len() { j + 1 } else { j });
        } else if c == '\'' {
            if i + 2 < s.len() {
                if i < k {
                    lemma_between_tokens_bounds(s, a, i + 3, k);
                }
                lemma_scan_white_space(s, t, a, k, i + 3);
            }
        } else {
            lemma_scan_white_space(s, t, a, k, i + 1);
        }
    }
}

/// A tab is white space wherever a space is: a space or a tab that stands
/// between tokens (not inside a name, number, string, character literal
/// or comment) may be replaced by a space or a tab, and the line gives the
/// same tokens, or the same error.
pub proof fn law_tab_is_space(line: Seq<char>, k: int, c: char)
    requires
        line[k] == ' ' || line[k] == '\t',
        c == ' ' || c == '\t',
        between_tokens(line, alphanumeric_flags(line), 0, k),
    ensures
        scan(line.update(k, c), alphanumeric_flags(line.update(k, c)), 0) == scan(
            line,
            alphanumeric_flags(line),
            0,
        ),
{
    let t = line.update(k, c);
    let a = alphanumeric_flags(line);
    lemma_between_tokens_bounds(line, a, 0, k);
    assert(alphanumeric_flags(t) =~= a);
    lemma_scan_white_space(line, t, a, k, 0);
}

proof fn lemma_between_tokens_bounds(s: Seq<char>, a: Seq<bool>, i: int, k: int)
    requires
        between_tokens(s, a, i, k),
    ensures
        0 <= i <= k < s.len(),
    decreases s.len() - i,
{
    if i < k {
        let c = s[i];
        if is_ascii_letter(c) || c == '_' || is_ascii_digit(c) || c == '$' || c == '@' {
            lemma_run_end(s, a, i + 1);
            lemma_between_tokens_bounds(s, a, run_end(s, a, i + 1), k);
        } else if c == '"' {
            lemma_quote_end(s, i + 1);
            let j = quote_end(s, i + 1);
            lemma_between_tokens_bounds(s, a, if j < s.len() { j + 1 } else { j }, k);
        } else if c == '\'' {
            lemma_between_tokens_bounds(s, a, i + 3, k);
        } else if c != ';' {
            lemma_between_tokens_bounds(s, a, i + 1, k);
        }
    }
}

} // verus!
