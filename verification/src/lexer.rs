//! Lexical analysis: preprocessed source text to a flat token sequence.
//!
//! The lexer scans left to right with maximal munch. An identifier or
//! keyword run starts with an ASCII letter or underscore and continues with
//! ASCII letters, digits or underscores; a digit run is a maximal span of
//! ASCII digits, and a digit run immediately followed by a letter is an
//! invalid identifier. Whitespace is skipped; any other character but the
//! recognized punctuation and operator marks aborts lexing at once.

use vstd::prelude::*;

use crate::errors::LexError;
use crate::token::Token;
use crate::token::TokenV;
use crate::token::tokens_view;

verus! {

/// An ASCII letter.
pub open spec fn is_letter(c: char) -> bool {
    (97 <= c as u32 && c as u32 <= 122) || (65 <= c as u32 && c as u32 <= 90)
}

/// An ASCII digit.
pub open spec fn is_digit(c: char) -> bool {
    48 <= c as u32 && c as u32 <= 57
}

/// A character that may open an identifier or keyword run.
pub open spec fn is_ident_start(c: char) -> bool {
    is_letter(c) || c == '_'
}

/// A character that may continue an identifier or keyword run.
pub open spec fn is_ident_char(c: char) -> bool {
    is_letter(c) || is_digit(c) || c == '_'
}

/// ASCII whitespace.
pub open spec fn is_space(c: char) -> bool {
    c == ' ' || c == '\t' || c == '\n' || c == '\r' || c == '\x0b' || c == '\x0c'
}

/// The first position at or after `i` whose character fails `p` (or the end
/// of the sequence): the end of the maximal run of `p`-characters at `i`.
pub open spec fn run_end(s: Seq<char>, i: int, p: spec_fn(char) -> bool) -> int
    decreases s.len() - i,
{
    if i < 0 || i >= s.len() {
        i
    } else if p(s[i]) {
        run_end(s, i + 1, p)
    } else {
        i
    }
}

pub proof fn lemma_run_end(s: Seq<char>, i: int, p: spec_fn(char) -> bool)
    requires
        0 <= i <= s.len(),
    ensures
        i <= run_end(s, i, p) <= s.len(),
        forall|k: int| i <= k < run_end(s, i, p) ==> p(s[k]),
        run_end(s, i, p) < s.len() ==> !p(s[run_end(s, i, p)]),
    decreases s.len() - i,
{
    if i < s.len() && p(s[i]) {
        lemma_run_end(s, i + 1, p);
    }
}

/// The numeric value of a digit character.
pub open spec fn digit_val(c: char) -> nat {
    (c as u32 - 48) as nat
}

/// The value of a sequence of decimal digits, most significant first.
pub open spec fn val_of_digits(s: Seq<char>) -> nat
    decreases s.len(),
{
    if s.len() == 0 {
        0
    } else {
        val_of_digits(s.drop_last()) * 10 + digit_val(s.last())
    }
}

/// The token of an identifier or keyword run: one of the reserved words if
/// the run matches it exactly, else an identifier carrying the run.
pub open spec fn classify_word(w: Seq<char>) -> TokenV {
    if w == "int"@ {
        TokenV::Int
    } else if w == "void"@ {
        TokenV::Void
    } else if w == "return"@ {
        TokenV::Return
    } else {
        TokenV::Identifier(w)
    }
}

/// Prepends already-produced tokens to the outcome of lexing a remainder.
pub open spec fn lex_prepend(ts: Seq<TokenV>, r: Result<Seq<TokenV>, LexError>) -> Result<
    Seq<TokenV>,
    LexError,
> {
    match r {
        Ok(rest) => Ok(ts + rest),
        Err(e) => Err(e),
    }
}

/// One token followed by the outcome of lexing the remainder.
pub open spec fn lex_cons(t: TokenV, r: Result<Seq<TokenV>, LexError>) -> Result<
    Seq<TokenV>,
    LexError,
> {
    lex_prepend(seq![t], r)
}

/// The tokens of `s` from position `i` on, or the first lexical error.
pub open spec fn spec_lex_from(s: Seq<char>, i: int) -> Result<Seq<TokenV>, LexError>
    decreases s.len() - i,
    via spec_lex_from_decreases
{
    if i < 0 || i >= s.len() {
        Ok(seq![])
    } else {
        let c = s[i];
        if c == '(' {
            lex_cons(TokenV::OpenParen, spec_lex_from(s, i + 1))
        } else if c == ')' {
            lex_cons(TokenV::CloseParen, spec_lex_from(s, i + 1))
        } else if c == ';' {
            lex_cons(TokenV::Semicolon, spec_lex_from(s, i + 1))
        } else if c == '{' {
            lex_cons(TokenV::OpenBrace, spec_lex_from(s, i + 1))
        } else if c == '}' {
            lex_cons(TokenV::CloseBrace, spec_lex_from(s, i + 1))
        } else if c == '-' {
            lex_cons(TokenV::Negate, spec_lex_from(s, i + 1))
        } else if c == '~' {
            lex_cons(TokenV::BitFlip, spec_lex_from(s, i + 1))
        } else if is_ident_start(c) {
            let j = run_end(s, i, |c: char| is_ident_char(c));
            lex_cons(classify_word(s.subrange(i, j)), spec_lex_from(s, j))
        } else if is_digit(c) {
            let j = run_end(s, i, |c: char| is_digit(c));
            if j < s.len() && is_letter(s[j]) {
                Err(LexError::InvalidIdentifier)
            } else if val_of_digits(s.subrange(i, j)) > u64::MAX {
                Err(LexError::IntegerTooLarge)
            } else {
                lex_cons(
                    TokenV::Integer(val_of_digits(s.subrange(i, j)) as u64),
                    spec_lex_from(s, j),
                )
            }
        } else if is_space(c) {
            spec_lex_from(s, i + 1)
        } else {
            Err(LexError::InvalidToken)
        }
    }
}

#[via_fn]
proof fn spec_lex_from_decreases(s: Seq<char>, i: int) {
    if 0 <= i < s.len() {
        lemma_run_end(s, i, |c: char| is_ident_char(c));
        lemma_run_end(s, i, |c: char| is_digit(c));
    }
}

/// The token sequence of `s`, or the first lexical error.
pub open spec fn spec_lex(s: Seq<char>) -> Result<Seq<TokenV>, LexError> {
    spec_lex_from(s, 0)
}

/// The lexer: holds the preprocessed source and converts it to tokens.
pub struct Lexer {
    pp_source: String,
}

impl View for Lexer {
    type V = Seq<char>;

    closed spec fn view(&self) -> Seq<char> {
        self.pp_source@
    }
}

pub(crate) fn is_ident_start_char(c: char) -> (r: bool)
    ensures
        r == is_ident_start(c),
{
    let u = c as u32;
    (97 <= u && u <= 122) || (65 <= u && u <= 90) || c == '_'
}

pub(crate) fn is_ident_char_char(c: char) -> (r: bool)
    ensures
        r == is_ident_char(c),
{
    let u = c as u32;
    (97 <= u && u <= 122) || (65 <= u && u <= 90) || (48 <= u && u <= 57) || c == '_'
}

pub(crate) fn is_digit_char(c: char) -> (r: bool)
    ensures
        r == is_digit(c),
{
    let u = c as u32;
    48 <= u && u <= 57
}

pub(crate) fn is_letter_char(c: char) -> (r: bool)
    ensures
        r == is_letter(c),
{
    let u = c as u32;
    (97 <= u && u <= 122) || (65 <= u && u <= 90)
}

pub(crate) fn is_space_char(c: char) -> (r: bool)
    ensures
        r == is_space(c),
{
    c == ' ' || c == '\t' || c == '\n' || c == '\r' || c == '\x0b' || c == '\x0c'
}

proof fn lemma_tokens_view_push(tokens: Seq<Token>, t: Token)
    ensures
        tokens_view(tokens.push(t)) == tokens_view(tokens).push(t@),
{
    assert(tokens_view(tokens.push(t)) =~= tokens_view(tokens).push(t@));
}

/// Appends the token covering `s[i..j]` and maintains the relation between
/// the tokens produced so far and the lexing of the rest.
fn push_token(t: Token, tokens: &mut Vec<Token>, Ghost(s): Ghost<Seq<char>>, Ghost(i): Ghost<int>, Ghost(
    j,
): Ghost<int>)
    requires
        0 <= i <= j <= s.len(),
        spec_lex_from(s, i) == lex_cons(t@, spec_lex_from(s, j)),
        spec_lex_from(s, 0) == lex_prepend(tokens_view(old(tokens)@), spec_lex_from(s, i)),
    ensures
        final(tokens)@ == old(tokens)@.push(t),
        spec_lex_from(s, 0) == lex_prepend(tokens_view(final(tokens)@), spec_lex_from(s, j)),
{
    proof {
        lemma_tokens_view_push(tokens@, t);
        match spec_lex_from(s, j) {
            Ok(rest) => {
                assert(tokens_view(tokens@) + (seq![t@] + rest) =~= tokens_view(tokens@).push(t@)
                    + rest);
            },
            Err(_) => {},
        }
    }
    tokens.push(t);
}

impl Lexer {
    /// A lexer over the given preprocessed source text.
    pub fn new(pp_source_: String) -> (r: Self)
        ensures
            r@ == pp_source_@,
    {
        Self { pp_source: pp_source_ }
    }

    /// Scans the whole source and returns its tokens, or the first lexical
    /// error.
    pub fn lex(&mut self) -> (r: Result<Vec<Token>, LexError>)
        ensures
            final(self)@ == old(self)@,
            match spec_lex(old(self)@) {
                Ok(ts) => r matches Ok(tokens) && tokens_view(tokens@) == ts,
                Err(e) => r matches Err(got) && got == e,
            },
    {
        let src: &str = self.pp_source.as_str();
        let ghost s = src@;
        let n = src.unicode_len();
        let mut tokens: Vec<Token> = Vec::new();
        let mut i: usize = 0;
        while i < n
            invariant
                src@ == s,
                old(self)@ == s,
                n == s.len(),
                i <= n,
                spec_lex_from(s, 0) == lex_prepend(tokens_view(tokens@), spec_lex_from(s, i as int)),
            decreases n - i,
        {
            let c = src.get_char(i);
            if c == '(' {
                push_token(Token::OpenParen, &mut tokens, Ghost(s), Ghost(i as int), Ghost(i + 1));
                i += 1;
            } else if c == ')' {
                push_token(Token::CloseParen, &mut tokens, Ghost(s), Ghost(i as int), Ghost(i + 1));
                i += 1;
            } else if c == ';' {
                push_token(Token::Semicolon, &mut tokens, Ghost(s), Ghost(i as int), Ghost(i + 1));
                i += 1;
            } else if c == '{' {
                push_token(Token::OpenBrace, &mut tokens, Ghost(s), Ghost(i as int), Ghost(i + 1));
                i += 1;
            } else if c == '}' {
                push_token(Token::CloseBrace, &mut tokens, Ghost(s), Ghost(i as int), Ghost(i + 1));
                i += 1;
            } else if c == '-' {
                push_token(Token::Negate, &mut tokens, Ghost(s), Ghost(i as int), Ghost(i + 1));
                i += 1;
            } else if c == '~' {
                push_token(Token::BitFlip, &mut tokens, Ghost(s), Ghost(i as int), Ghost(i + 1));
                i += 1;
            } else if is_ident_start_char(c) {
                let ghost p = |c: char| is_ident_char(c);
                let mut j = i;
                while j < n && is_ident_char_char(src.get_char(j))
                    invariant
                        src@ == s,
                        n == s.len(),
                        i <= j <= n,
                        run_end(s, i as int, p) == run_end(s, j as int, p),
                        p == (|c: char| is_ident_char(c)),
                    decreases n - j,
                {
                    j += 1;
                }
                proof {
                    assert(run_end(s, j as int, p) == j);
                    lemma_run_end(s, i as int, p);
                }
                let word = src.substring_char(i, j);
                let t = if crate::text::str_eq(word, "int") {
                    Token::Int
                } else if crate::text::str_eq(word, "void") {
                    Token::Void
                } else if crate::text::str_eq(word, "return") {
                    Token::Return
                } else {
                    Token::Identifier(word.to_owned())
                };
                proof {
                    assert(t@ == classify_word(s.subrange(i as int, j as int)));
                }
                push_token(t, &mut tokens, Ghost(s), Ghost(i as int), Ghost(j as int));
                i = j;
            } else if is_digit_char(c) {
                let ghost p = |c: char| is_digit(c);
                let mut j = i;
                let mut acc: u64 = 0;
                let mut overflowed = false;
                while j < n && is_digit_char(src.get_char(j))
                    invariant
                        src@ == s,
                        n == s.len(),
                        i <= j <= n,
                        run_end(s, i as int, p) == run_end(s, j as int, p),
                        p == (|c: char| is_digit(c)),
                        !overflowed ==> acc == val_of_digits(s.subrange(i as int, j as int)),
                        overflowed ==> val_of_digits(s.subrange(i as int, j as int)) > u64::MAX,
                    decreases n - j,
                {
                    let cj = src.get_char(j);
                    let d = (cj as u32 - 48) as u64;
                    proof {
                        assert(s.subrange(i as int, j + 1).drop_last() =~= s.subrange(
                            i as int,
                            j as int,
                        ));
                        assert(val_of_digits(s.subrange(i as int, j + 1)) == val_of_digits(
                            s.subrange(i as int, j as int),
                        ) * 10 + digit_val(s[j as int]));
                    }
                    if overflowed {
                        // the run value only grows with further digits
                    } else if acc > (u64::MAX - d) / 10 {
                        overflowed = true;
                        proof {
                            assert(acc * 10 + d > u64::MAX) by (nonlinear_arith)
                                requires
                                    acc > (u64::MAX - d) / 10,
                                    d <= 9,
                            ;
                        }
                    } else {
                        proof {
                            assert(acc * 10 + d <= u64::MAX) by (nonlinear_arith)
                                requires
                                    acc <= (u64::MAX - d) / 10,
                                    d <= 9,
                            ;
                        }
                        acc = acc * 10 + d;
                    }
                    j += 1;
                }
                proof {
                    assert(run_end(s, j as int, p) == j);
                    lemma_run_end(s, i as int, p);
                }
                if j < n && is_letter_char(src.get_char(j)) {
                    return Err(LexError::InvalidIdentifier);
                }
                if overflowed {
                    return Err(LexError::IntegerTooLarge);
                }
                push_token(Token::Integer(acc), &mut tokens, Ghost(s), Ghost(i as int), Ghost(
                    j as int,
                ));
                i = j;
            } else if is_space_char(c) {
                i += 1;
            } else {
                return Err(LexError::InvalidToken);
            }
        }
        proof {
            assert(tokens_view(tokens@) + seq![] =~= tokens_view(tokens@));
        }
        Ok(tokens)
    }

}

} // verus!
