//! A small standalone parser for identifiers, in the remaining-input style:
//! each function consumes a prefix of its input and returns the rest
//! together with what it matched, or an error carrying the input it could
//! not match.

use vstd::prelude::*;

use crate::lexer::is_ident_char;
use crate::lexer::is_ident_char_char;
use crate::lexer::is_letter;
use crate::lexer::is_letter_char;
use crate::lexer::lemma_run_end;
use crate::lexer::run_end;

verus! {

/// An identifier, carrying its name.
#[derive(Debug)]
pub struct IdentifierToken {
    pub name: String,
}

impl PartialEq for IdentifierToken {
    fn eq(&self, other: &Self) -> (r: bool) {
        self.name == other.name
    }
}

impl Eq for IdentifierToken {
}

impl vstd::std_specs::cmp::PartialEqSpecImpl for IdentifierToken {
    open spec fn obeys_eq_spec() -> bool {
        true
    }

    open spec fn eq_spec(&self, other: &Self) -> bool {
        self.name@ == other.name@
    }
}

/// A failure to match, carrying the input at which matching failed.
#[derive(Debug)]
pub struct IdentifierError {
    pub input: String,
}

/// How many characters the first-character parser consumes from `s`: a
/// maximal run of ASCII letters if there is one, else a single leading
/// underscore; zero means it fails.
pub open spec fn first_char_len(s: Seq<char>) -> int {
    let j = run_end(s, 0, |c: char| is_letter(c));
    if j > 0 {
        j
    } else if s.len() > 0 && s[0] == '_' {
        1
    } else {
        0
    }
}

/// How many characters the remaining-characters parser consumes from `s`
/// starting at `i`: the maximal run of ASCII letters, digits and
/// underscores.
pub open spec fn rest_len(s: Seq<char>, i: int) -> int {
    run_end(s, i, |c: char| is_ident_char(c)) - i
}

proof fn lemma_run_end_shift(s: Seq<char>, d: int, i: int, p: spec_fn(char) -> bool)
    requires
        0 <= d,
        0 <= i,
        d + i <= s.len(),
    ensures
        run_end(s, d + i, p) == d + run_end(s.skip(d), i, p),
    decreases s.len() - d - i,
{
    if d + i < s.len() && p(s[d + i]) {
        assert(s.skip(d)[i] == s[d + i]);
        lemma_run_end_shift(s, d, i + 1, p);
    }
}

/// Matches one or more ASCII letters, or a single underscore, at the head
/// of the input; returns the remaining input and the matched prefix.
pub fn parse_identifier_first_char(input: &str) -> (r: Result<(&str, &str), IdentifierError>)
    ensures
        ({
            let k = first_char_len(input@);
            if k > 0 {
                r matches Ok(p) && p.0@ == input@.skip(k) && p.1@ == input@.take(k)
            } else {
                r matches Err(e) && e.input@ == input@
            }
        }),
{
    let ghost s = input@;
    let ghost p = |c: char| is_letter(c);
    let n = input.unicode_len();
    let mut j: usize = 0;
    while j < n && is_letter_char(input.get_char(j))
        invariant
            input@ == s,
            n == s.len(),
            j <= n,
            run_end(s, 0, p) == run_end(s, j as int, p),
            p == (|c: char| is_letter(c)),
        decreases n - j,
    {
        j += 1;
    }
    proof {
        assert(run_end(s, j as int, p) == j);
    }
    if j > 0 {
        Ok((input.substring_char(j, n), input.substring_char(0, j)))
    } else if n > 0 && input.get_char(0) == '_' {
        Ok((input.substring_char(1, n), input.substring_char(0, 1)))
    } else {
        Err(IdentifierError { input: input.to_owned() })
    }
}

/// Matches a possibly empty maximal run of ASCII letters, digits and
/// underscores at the head of the input; returns the remaining input and
/// the matched prefix. This parser never fails.
pub fn parse_identifier_remaining_chars(input: &str) -> (r: Result<
    (&str, &str),
    IdentifierError,
>)
    ensures
        ({
            let k = rest_len(input@, 0);
            r matches Ok(p) && p.0@ == input@.skip(k) && p.1@ == input@.take(k)
        }),
{
    let ghost s = input@;
    let ghost p = |c: char| is_ident_char(c);
    let n = input.unicode_len();
    let mut j: usize = 0;
    while j < n && is_ident_char_char(input.get_char(j))
        invariant
            input@ == s,
            n == s.len(),
            j <= n,
            run_end(s, 0, p) == run_end(s, j as int, p),
            p == (|c: char| is_ident_char(c)),
        decreases n - j,
    {
        j += 1;
    }
    proof {
        assert(run_end(s, j as int, p) == j);
    }
    Ok((input.substring_char(j, n), input.substring_char(0, j)))
}

impl IdentifierToken {
    /// Matches a whole identifier at the head of the input: a first
    /// character that is a letter or underscore (a leading letter run may
    /// span several letters), then every following letter, digit or
    /// underscore. Returns the remaining input and the identifier, or an
    /// error carrying the whole input if it starts with neither a letter
    /// nor an underscore.
    pub fn parse(input: &str) -> (r: Result<(&str, IdentifierToken), IdentifierError>)
        ensures
            ({
                let k = first_char_len(input@);
                let m = k + rest_len(input@, k);
                if k > 0 {
                    r matches Ok(p) && p.0@ == input@.skip(m) && p.1.name@ == input@.take(m)
                } else {
                    r matches Err(e) && e.input@ == input@
                }
            }),
    {
        let ghost s = input@;
        let n = input.unicode_len();
        let first = parse_identifier_first_char(input);
        match first {
            Ok((rem1, _matched1)) => {
                let ghost k = first_char_len(s);
                proof {
                    lemma_run_end(s, 0, |c: char| is_letter(c));
                }
                let j1 = n - rem1.unicode_len();
                proof {
                    assert(rem1@.len() == s.skip(k).len());
                    assert(j1 == k);
                }
                let rest = parse_identifier_remaining_chars(rem1);
                match rest {
                    Ok((rem2, matched2)) => {
                        let m2 = matched2.unicode_len();
                        proof {
                            lemma_run_end_shift(s, k, 0, |c: char| is_ident_char(c));
                            lemma_run_end(s, k, |c: char| is_ident_char(c));
                            assert(rest_len(rem1@, 0) == rest_len(s, k));
                            assert(rem2@ =~= s.skip(k + rest_len(s, k)));
                        }
                        let name = input.substring_char(0, j1 + m2);
                        proof {
                            assert(name@ == s.take(k + rest_len(s, k)));
                        }
                        Ok((rem2, IdentifierToken { name: name.to_owned() }))
                    },
                    Err(e) => Err(e),
                }
            },
            Err(e) => Err(e),
        }
    }
}

} // verus!
