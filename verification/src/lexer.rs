//! The lexer: turns source text into a sequence of located tokens.
//!
//! The accepted alphabet is: decimal digits (runs form unsigned integer
//! literals, whose value wraps modulo 2^32), ASCII letters (runs form bare
//! symbol atoms), the single-character operators `+ - * / % < = > & | ! ^`,
//! the delimiters `' . ( )`, and the whitespace characters space, newline
//! and tab. Any other character is an invalid-character error.
//!
//! `lex_spec` is the mathematical definition of the token stream; `lex` is
//! proved to return exactly the tokens (and the error) that it prescribes.
use vstd::prelude::*;
use vstd::string::StrSliceExecFns;
use crate::{Annot, Loc};
use crate::token::{Token, TokV};

verus! {

#[derive(Debug, Clone, Copy, PartialEq, Eq, Hash, Structural)]
pub enum LexErrorKind {
    InvalidChar(char),
    Eof,
}

pub type LexError = Annot<LexErrorKind>;

impl LexError {
    pub fn invalid_char(c: char, loc: Loc) -> (r: Self)
        ensures
            r.value == LexErrorKind::InvalidChar(c),
            r.loc == loc,
    {
        LexError::new(LexErrorKind::InvalidChar(c), loc)
    }

    pub fn eof(loc: Loc) -> (r: Self)
        ensures
            r.value == LexErrorKind::Eof,
            r.loc == loc,
    {
        LexError::new(LexErrorKind::Eof, loc)
    }
}

pub open spec fn is_space_c(c: char) -> bool {
    c == ' ' || c == '\n' || c == '\t'
}

pub open spec fn is_digit_c(c: char) -> bool {
    48 <= c as u32 <= 57
}

pub open spec fn is_letter_c(c: char) -> bool {
    (65 <= c as u32 <= 90) || (97 <= c as u32 <= 122)
}

/// The first position at or after `pos` that does not hold a whitespace
/// character (or the end of the text).
pub open spec fn scan_spaces(s: Seq<char>, pos: int) -> int
    decreases s.len() - pos,
{
    if 0 <= pos < s.len() && is_space_c(s[pos]) {
        scan_spaces(s, pos + 1)
    } else {
        pos
    }
}

/// The first position at or after `pos` that does not hold a digit.
pub open spec fn scan_digits(s: Seq<char>, pos: int) -> int
    decreases s.len() - pos,
{
    if 0 <= pos < s.len() && is_digit_c(s[pos]) {
        scan_digits(s, pos + 1)
    } else {
        pos
    }
}

/// The first position at or after `pos` that does not hold a letter.
pub open spec fn scan_letters(s: Seq<char>, pos: int) -> int
    decreases s.len() - pos,
{
    if 0 <= pos < s.len() && is_letter_c(s[pos]) {
        scan_letters(s, pos + 1)
    } else {
        pos
    }
}

pub proof fn lemma_scan_spaces(s: Seq<char>, pos: int)
    requires
        0 <= pos <= s.len(),
    ensures
        pos <= scan_spaces(s, pos) <= s.len(),
        forall|j: int| pos <= j < scan_spaces(s, pos) ==> is_space_c(s[j]),
        scan_spaces(s, pos) < s.len() ==> !is_space_c(s[scan_spaces(s, pos)]),
    decreases s.len() - pos,
{
    if pos < s.len() && is_space_c(s[pos]) {
        lemma_scan_spaces(s, pos + 1);
    }
}

pub proof fn lemma_scan_digits(s: Seq<char>, pos: int)
    requires
        0 <= pos <= s.len(),
    ensures
        pos <= scan_digits(s, pos) <= s.len(),
        forall|j: int| pos <= j < scan_digits(s, pos) ==> is_digit_c(s[j]),
        scan_digits(s, pos) < s.len() ==> !is_digit_c(s[scan_digits(s, pos)]),
    decreases s.len() - pos,
{
    if pos < s.len() && is_digit_c(s[pos]) {
        lemma_scan_digits(s, pos + 1);
    }
}

pub proof fn lemma_scan_letters(s: Seq<char>, pos: int)
    requires
        0 <= pos <= s.len(),
    ensures
        pos <= scan_letters(s, pos) <= s.len(),
        forall|j: int| pos <= j < scan_letters(s, pos) ==> is_letter_c(s[j]),
        scan_letters(s, pos) < s.len() ==> !is_letter_c(s[scan_letters(s, pos)]),
    decreases s.len() - pos,
{
    if pos < s.len() && is_letter_c(s[pos]) {
        lemma_scan_letters(s, pos + 1);
    }
}

pub open spec fn digit_val(c: char) -> u32 {
    (c as u32 - 48) as u32
}

/// The value of a run of digit characters, most significant first,
/// accumulated with wrapping 32-bit arithmetic.
pub open spec fn digits_value(s: Seq<char>) -> u32
    decreases s.len(),
{
    if s.len() == 0 {
        0u32
    } else {
        vstd::wrapping::u32_specs::wrapping_add(
            vstd::wrapping::u32_specs::wrapping_mul(digits_value(s.drop_last()), 10),
            digit_val(s.last()),
        )
    }
}

/// The token that a single operator or delimiter character stands for,
/// or `None` when the character is not in the accepted alphabet.
pub open spec fn char_token(c: char) -> Option<TokV> {
    if c == '+' {
        Some(TokV::Plus)
    } else if c == '-' {
        Some(TokV::Minus)
    } else if c == '*' {
        Some(TokV::Asterisk)
    } else if c == '/' {
        Some(TokV::Slash)
    } else if c == '<' {
        Some(TokV::Less)
    } else if c == '=' {
        Some(TokV::Equal)
    } else if c == '>' {
        Some(TokV::Greater)
    } else if c == '&' {
        Some(TokV::And)
    } else if c == '|' {
        Some(TokV::Or)
    } else if c == '!' {
        Some(TokV::Not)
    } else if c == '^' {
        Some(TokV::Xor)
    } else if c == '%' {
        Some(TokV::Percent)
    } else if c == '\'' {
        Some(TokV::Quote)
    } else if c == '.' {
        Some(TokV::Dot)
    } else if c == '(' {
        Some(TokV::LParen)
    } else if c == ')' {
        Some(TokV::RParen)
    } else {
        None
    }
}

/// The token stream of the text from position `pos` on: whitespace is
/// skipped, digit runs become number tokens, letter runs become symbol
/// tokens, alphabet characters become their tokens, and anything else is
/// an invalid-character error.
pub open spec fn lex_spec(s: Seq<char>, pos: int) -> Result<Seq<TokV>, LexErrorKind>
    decreases s.len() - pos,
    via lex_spec_dec
{
    if !(0 <= pos < s.len()) {
        Ok(Seq::empty())
    } else {
        let c = s[pos];
        if is_space_c(c) {
            lex_spec(s, scan_spaces(s, pos))
        } else if is_digit_c(c) {
            let end = scan_digits(s, pos);
            match lex_spec(s, end) {
                Ok(ts) => Ok(seq![TokV::Number(digits_value(s.subrange(pos, end)))] + ts),
                Err(e) => Err(e),
            }
        } else if is_letter_c(c) {
            let end = scan_letters(s, pos);
            match lex_spec(s, end) {
                Ok(ts) => Ok(seq![TokV::Symbol(s.subrange(pos, end))] + ts),
                Err(e) => Err(e),
            }
        } else {
            match char_token(c) {
                Some(t) => match lex_spec(s, pos + 1) {
                    Ok(ts) => Ok(seq![t] + ts),
                    Err(e) => Err(e),
                },
                None => Err(LexErrorKind::InvalidChar(c)),
            }
        }
    }
}

#[via_fn]
proof fn lex_spec_dec(s: Seq<char>, pos: int) {
    if 0 <= pos < s.len() {
        lemma_scan_spaces(s, pos + 1);
        lemma_scan_digits(s, pos + 1);
        lemma_scan_letters(s, pos + 1);
    }
}

/// The views of a token vector, in order.
pub open spec fn token_views(ts: Seq<Token>) -> Seq<TokV> {
    ts.map_values(|t: Token| t@)
}

/// Consume one expected character: end of input gives an end-of-file
/// error, a different character an invalid-character error.
fn consume_char(input: &str, pos: usize, n: usize, c: char) -> (r: Result<usize, LexError>)
    requires
        n == input@.len(),
    ensures
        match r {
            Ok(end) => pos < input@.len() && input@[pos as int] == c && end == pos + 1,
            Err(e) => if pos >= input@.len() {
                e.value == LexErrorKind::Eof
            } else {
                input@[pos as int] != c && e.value == LexErrorKind::InvalidChar(input@[pos as int])
            },
        },
{
    if pos >= n {
        return Err(LexError::eof(Loc(pos, pos)));
    }
    let d = input.get_char(pos);
    if d == c {
        Ok(pos + 1)
    } else {
        Err(LexError::invalid_char(d, Loc(pos, pos + 1)))
    }
}

/// Lex a run of digit characters starting at `pos` into a number token.
fn lex_number(input: &str, pos: usize, n: usize) -> (r: (Token, usize))
    requires
        n == input@.len(),
        pos < input@.len(),
        is_digit_c(input@[pos as int]),
    ensures
        r.1 == scan_digits(input@, pos as int),
        pos < r.1 <= input@.len(),
        r.0@ == TokV::Number(digits_value(input@.subrange(pos as int, r.1 as int))),
{
    proof {
        lemma_scan_digits(input@, pos as int);
    }
    let ghost s = input@;
    let mut end: usize = pos;
    let mut value: u32 = 0;
    loop
        invariant
            n == s.len(),
            s == input@,
            pos <= end <= s.len(),
            scan_digits(s, pos as int) == scan_digits(s, end as int),
            value == digits_value(s.subrange(pos as int, end as int)),
        ensures
            pos <= end <= s.len(),
            scan_digits(s, pos as int) == scan_digits(s, end as int),
            value == digits_value(s.subrange(pos as int, end as int)),
            end == s.len() || !is_digit_c(s[end as int]),
        decreases s.len() - end,
    {
        if end >= n {
            break;
        }
        let c = input.get_char(end);
        if !(c as u32 >= 48 && c as u32 <= 57) {
            break;
        }
        let d: u32 = c as u32 - 48;
        proof {
            assert(s.subrange(pos as int, end + 1).drop_last() =~= s.subrange(
                pos as int,
                end as int,
            ));
            assert(s.subrange(pos as int, end + 1).last() == s[end as int]);
        }
        value = value.wrapping_mul(10).wrapping_add(d);
        end = end + 1;
    }
    proof {
        assert(scan_digits(s, end as int) == end);
        lemma_scan_digits(s, pos as int);
    }
    (Token::number(value, Loc(pos, end)), end)
}

/// Lex a run of letter characters starting at `pos` into a symbol token.
fn lex_symbol(input: &str, pos: usize, n: usize) -> (r: (Token, usize))
    requires
        n == input@.len(),
        pos < input@.len(),
        is_letter_c(input@[pos as int]),
    ensures
        r.1 == scan_letters(input@, pos as int),
        pos < r.1 <= input@.len(),
        r.0@ == TokV::Symbol(input@.subrange(pos as int, r.1 as int)),
{
    proof {
        lemma_scan_letters(input@, pos as int);
    }
    let ghost s = input@;
    let mut end: usize = pos;
    loop
        invariant
            n == s.len(),
            s == input@,
            pos <= end <= s.len(),
            scan_letters(s, pos as int) == scan_letters(s, end as int),
        ensures
            pos <= end <= s.len(),
            scan_letters(s, pos as int) == scan_letters(s, end as int),
            end == s.len() || !is_letter_c(s[end as int]),
        decreases s.len() - end,
    {
        if end >= n {
            break;
        }
        let c = input.get_char(end);
        if !((c as u32 >= 65 && c as u32 <= 90) || (c as u32 >= 97 && c as u32 <= 122)) {
            break;
        }
        end = end + 1;
    }
    proof {
        assert(scan_letters(s, end as int) == end);
        lemma_scan_letters(s, pos as int);
    }
    let text = input.substring_char(pos, end).to_owned();
    (Token::symbol(text, Loc(pos, end)), end)
}

/// Advance past a run of whitespace characters.
fn skip_spaces(input: &str, pos: usize, n: usize) -> (r: usize)
    requires
        n == input@.len(),
        pos <= input@.len(),
    ensures
        r == scan_spaces(input@, pos as int),
        pos <= r <= input@.len(),
{
    let ghost s = input@;
    let mut end: usize = pos;
    loop
        invariant
            n == s.len(),
            s == input@,
            pos <= end <= s.len(),
            scan_spaces(s, pos as int) == scan_spaces(s, end as int),
        ensures
            pos <= end <= s.len(),
            scan_spaces(s, pos as int) == scan_spaces(s, end as int),
            end == s.len() || !is_space_c(s[end as int]),
        decreases s.len() - end,
    {
        if end >= n {
            break;
        }
        let c = input.get_char(end);
        if !(c == ' ' || c == '\n' || c == '\t') {
            break;
        }
        end = end + 1;
    }
    proof {
        assert(scan_spaces(s, end as int) == end);
        lemma_scan_spaces(s, pos as int);
    }
    end
}

/// Lex the whole text, returning exactly the tokens of `lex_spec`.
pub fn lex(input: &str) -> (r: Result<Vec<Token>, LexError>)
    ensures
        match r {
            Ok(ts) => lex_spec(input@, 0) == Ok::<Seq<TokV>, LexErrorKind>(token_views(ts@)),
            Err(e) => lex_spec(input@, 0) == Err::<Seq<TokV>, LexErrorKind>(e.value),
        },
{
    let ghost s = input@;
    let n: usize = input.unicode_len();
    let mut tokens: Vec<Token> = Vec::new();
    let mut pos: usize = 0;
    proof {
        assert(token_views(tokens@) =~= Seq::<TokV>::empty());
    }
    while pos < n
        invariant
            n == s.len(),
            s == input@,
            pos <= n,
            lex_spec(s, 0) == (match lex_spec(s, pos as int) {
                Ok(ts) => Ok::<Seq<TokV>, LexErrorKind>(token_views(tokens@) + ts),
                Err(e) => Err::<Seq<TokV>, LexErrorKind>(e),
            }),
        decreases n - pos,
    {
        let c = input.get_char(pos);
        let u = c as u32;
        let ghost toks0 = tokens@;
        let ghost pos0 = pos as int;
        if c == ' ' || c == '\n' || c == '\t' {
            pos = skip_spaces(input, pos, n);
            proof {
                lemma_scan_spaces(s, pos0 + 1);
                assert(scan_spaces(s, pos0) == scan_spaces(s, pos0 + 1));
            }
        } else if u >= 48 && u <= 57 {
            let (tok, end) = lex_number(input, pos, n);
            tokens.push(tok);
            pos = end;
            proof {
                assert(token_views(tokens@) =~= token_views(toks0) + seq![tokens@.last()@]);
                assert forall|ts: Seq<TokV>|
                    token_views(toks0) + (seq![TokV::Number(
                        digits_value(s.subrange(pos0, scan_digits(s, pos0))),
                    )] + ts) =~= token_views(tokens@) + ts by {}
            }
        } else if (u >= 65 && u <= 90) || (u >= 97 && u <= 122) {
            let (tok, end) = lex_symbol(input, pos, n);
            tokens.push(tok);
            pos = end;
            proof {
                assert(token_views(tokens@) =~= token_views(toks0) + seq![tokens@.last()@]);
                assert forall|ts: Seq<TokV>|
                    token_views(toks0) + (seq![TokV::Symbol(
                        s.subrange(pos0, scan_letters(s, pos0)),
                    )] + ts) =~= token_views(tokens@) + ts by {}
            }
        } else {
            let step: Result<(Token, usize), LexError> = if c == '+' {
                match consume_char(input, pos, n, '+') {
                    Ok(end) => Ok((Token::plus(Loc(pos, end)), end)),
                    Err(e) => Err(e),
                }
            } else if c == '-' {
                match consume_char(input, pos, n, '-') {
                    Ok(end) => Ok((Token::minus(Loc(pos, end)), end)),
                    Err(e) => Err(e),
                }
            } else if c == '*' {
                match consume_char(input, pos, n, '*') {
                    Ok(end) => Ok((Token::asterisk(Loc(pos, end)), end)),
                    Err(e) => Err(e),
                }
            } else if c == '/' {
                match consume_char(input, pos, n, '/') {
                    Ok(end) => Ok((Token::slash(Loc(pos, end)), end)),
                    Err(e) => Err(e),
                }
            } else if c == '<' {
                match consume_char(input, pos, n, '<') {
                    Ok(end) => Ok((Token::less(Loc(pos, end)), end)),
                    Err(e) => Err(e),
                }
            } else if c == '=' {
                match consume_char(input, pos, n, '=') {
                    Ok(end) => Ok((Token::equal(Loc(pos, end)), end)),
                    Err(e) => Err(e),
                }
            } else if c == '>' {
                match consume_char(input, pos, n, '>') {
                    Ok(end) => Ok((Token::greater(Loc(pos, end)), end)),
                    Err(e) => Err(e),
                }
            } else if c == '&' {
                match consume_char(input, pos, n, '&') {
                    Ok(end) => Ok((Token::and(Loc(pos, end)), end)),
                    Err(e) => Err(e),
                }
            } else if c == '|' {
                match consume_char(input, pos, n, '|') {
                    Ok(end) => Ok((Token::or(Loc(pos, end)), end)),
                    Err(e) => Err(e),
                }
            } else if c == '!' {
                match consume_char(input, pos, n, '!') {
                    Ok(end) => Ok((Token::not(Loc(pos, end)), end)),
                    Err(e) => Err(e),
                }
            } else if c == '^' {
                match consume_char(input, pos, n, '^') {
                    Ok(end) => Ok((Token::xor(Loc(pos, end)), end)),
                    Err(e) => Err(e),
                }
            } else if c == '%' {
                match consume_char(input, pos, n, '%') {
                    Ok(end) => Ok((Token::percent(Loc(pos, end)), end)),
                    Err(e) => Err(e),
                }
            } else if c == '\'' {
                match consume_char(input, pos, n, '\'') {
                    Ok(end) => Ok((Token::quote(Loc(pos, end)), end)),
                    Err(e) => Err(e),
                }
            } else if c == '.' {
                match consume_char(input, pos, n, '.') {
                    Ok(end) => Ok((Token::dot(Loc(pos, end)), end)),
                    Err(e) => Err(e),
                }
            } else if c == '(' {
                match consume_char(input, pos, n, '(') {
                    Ok(end) => Ok((Token::lparen(Loc(pos, end)), end)),
                    Err(e) => Err(e),
                }
            } else if c == ')' {
                match consume_char(input, pos, n, ')') {
                    Ok(end) => Ok((Token::rparen(Loc(pos, end)), end)),
                    Err(e) => Err(e),
                }
            } else {
                Err(LexError::invalid_char(c, Loc(pos, pos + 1)))
            };
            match step {
                Ok((tok, end)) => {
                    tokens.push(tok);
                    pos = end;
                    proof {
                        assert(token_views(tokens@) =~= token_views(toks0) + seq![
                            tokens@.last()@,
                        ]);
                        assert forall|ts: Seq<TokV>|
                            token_views(toks0) + (seq![char_token(c)->Some_0] + ts)
                                =~= token_views(tokens@) + ts by {}
                    }
                },
                Err(e) => {
                    return Err(e);
                },
            }
        }
    }
    proof {
        assert(token_views(tokens@) + Seq::<TokV>::empty() =~= token_views(tokens@));
    }
    Ok(tokens)
}

} // verus!
