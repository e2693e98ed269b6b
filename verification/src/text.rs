//! Small verified text utilities shared by the pipeline: string equality,
//! find-and-replace over character sequences, and decimal rendering of
//! integers (used for temporary names, immediates and stack offsets).

use vstd::prelude::*;

verus! {

/// Every non-overlapping occurrence of `from` in `s`, scanning left to
/// right, replaced by `to`. For an empty `from` the sequence is unchanged.
pub open spec fn spec_replace(s: Seq<char>, from: Seq<char>, to: Seq<char>) -> Seq<char>
    decreases s.len(),
{
    if from.len() == 0 || s.len() < from.len() {
        s
    } else if s.take(from.len() as int) == from {
        to + spec_replace(s.skip(from.len() as int), from, to)
    } else {
        seq![s[0]] + spec_replace(s.skip(1), from, to)
    }
}

/// The decimal digits of `n`, most significant first.
pub open spec fn dec_digits(n: nat) -> Seq<char>
    decreases n,
{
    if n < 10 {
        seq![digit_char(n)]
    } else {
        dec_digits(n / 10) + seq![digit_char(n % 10)]
    }
}

/// The character for a single decimal digit.
pub open spec fn digit_char(d: nat) -> char {
    if d == 0 {
        '0'
    } else if d == 1 {
        '1'
    } else if d == 2 {
        '2'
    } else if d == 3 {
        '3'
    } else if d == 4 {
        '4'
    } else if d == 5 {
        '5'
    } else if d == 6 {
        '6'
    } else if d == 7 {
        '7'
    } else if d == 8 {
        '8'
    } else {
        '9'
    }
}

/// The decimal rendering of a signed value: a minus sign followed by the
/// digits of the magnitude, or just the digits.
pub open spec fn dec_digits_i64(v: int) -> Seq<char> {
    if v < 0 {
        seq!['-'] + dec_digits((-v) as nat)
    } else {
        dec_digits(v as nat)
    }
}

/// A decimal rendering has at least one digit, and more than one exactly
/// for values of ten and above.
pub proof fn lemma_dec_digits_len(n: nat)
    ensures
        dec_digits(n).len() >= 1,
        n < 10 ==> dec_digits(n).len() == 1,
        n >= 10 ==> dec_digits(n).len() >= 2,
    decreases n,
{
    if n >= 10 {
        lemma_dec_digits_len(n / 10);
    }
}

/// Two distinct values never render to the same digits.
pub proof fn lemma_dec_digits_injective(a: nat, b: nat)
    ensures
        dec_digits(a) == dec_digits(b) ==> a == b,
    decreases a,
{
    if dec_digits(a) == dec_digits(b) {
        lemma_dec_digits_len(a);
        lemma_dec_digits_len(b);
        if a < 10 && b < 10 {
            assert(dec_digits(a)[0] == digit_char(a));
            assert(dec_digits(b)[0] == digit_char(b));
            assert(a == b);
        } else if a >= 10 && b >= 10 {
            let pa = dec_digits(a / 10);
            let pb = dec_digits(b / 10);
            assert(dec_digits(a) == pa + seq![digit_char(a % 10)]);
            assert(dec_digits(b) == pb + seq![digit_char(b % 10)]);
            assert(pa.len() == pb.len());
            assert(pa =~= dec_digits(a).take(pa.len() as int));
            assert(pb =~= dec_digits(b).take(pb.len() as int));
            assert(dec_digits(a)[pa.len() as int] == digit_char(a % 10));
            assert(dec_digits(b)[pb.len() as int] == digit_char(b % 10));
            assert(a % 10 == b % 10);
            lemma_dec_digits_injective(a / 10, b / 10);
        }
    }
}

/// Character-for-character equality of two string slices.
pub fn str_eq(a: &str, b: &str) -> (r: bool)
    ensures
        r == (a@ == b@),
{
    let a_len = a.unicode_len();
    let b_len = b.unicode_len();
    if a_len != b_len {
        proof {
            assert(a@.len() != b@.len());
        }
        return false;
    }
    let mut i: usize = 0;
    while i < a_len
        invariant
            a_len == a@.len(),
            b_len == b@.len(),
            a_len == b_len,
            i <= a_len,
            forall|k: int| 0 <= k < i ==> a@[k] == b@[k],
        decreases a_len - i,
    {
        if a.get_char(i) != b.get_char(i) {
            return false;
        }
        i += 1;
    }
    proof {
        assert(a@ =~= b@);
    }
    true
}

/// Replaces every non-overlapping occurrence of `from` in `s` by `to`,
/// scanning left to right.
pub fn replace_str(s: &str, from: &str, to: &str) -> (r: String)
    requires
        from@.len() >= 1,
    ensures
        r@ == spec_replace(s@, from@, to@),
    decreases s@.len(),
{
    let n = s.unicode_len();
    let m = from.unicode_len();
    if n < m {
        return s.to_owned();
    }
    if str_eq(s.substring_char(0, m), from) {
        proof {
            assert(s@.take(m as int) == from@);
        }
        let rest = replace_str(s.substring_char(m, n), from, to);
        let mut r = to.to_owned();
        r.append(rest.as_str());
        proof {
            assert(s@.subrange(m as int, n as int) == s@.skip(m as int));
        }
        r
    } else {
        proof {
            assert(s@.subrange(0, m as int) == s@.take(m as int));
        }
        let mut r = s.substring_char(0, 1).to_owned();
        let rest = replace_str(s.substring_char(1, n), from, to);
        r.append(rest.as_str());
        proof {
            assert(s@.subrange(0, 1) =~= seq![s@[0]]);
            assert(s@.subrange(1, n as int) == s@.skip(1));
        }
        r
    }
}

/// Appends the decimal digits of `n` to `out`.
pub fn push_decimal(out: &mut String, n: u64)
    ensures
        final(out)@ == old(out)@ + dec_digits(n as nat),
    decreases n,
{
    if n >= 10 {
        push_decimal(out, n / 10);
    }
    let d = n % 10;
    match d {
        0 => out.append("0"),
        1 => out.append("1"),
        2 => out.append("2"),
        3 => out.append("3"),
        4 => out.append("4"),
        5 => out.append("5"),
        6 => out.append("6"),
        7 => out.append("7"),
        8 => out.append("8"),
        _ => out.append("9"),
    }
    proof {
        reveal_strlit("0");
        reveal_strlit("1");
        reveal_strlit("2");
        reveal_strlit("3");
        reveal_strlit("4");
        reveal_strlit("5");
        reveal_strlit("6");
        reveal_strlit("7");
        reveal_strlit("8");
        reveal_strlit("9");
        if n < 10 {
            assert(out@ =~= old(out)@ + dec_digits(n as nat));
        } else {
            assert(dec_digits(n as nat) == dec_digits(n as nat / 10) + seq![
                digit_char(n as nat % 10),
            ]);
            assert(out@ =~= old(out)@ + dec_digits(n as nat));
        }
    }
}

/// Appends the decimal rendering of a signed value to `out`.
pub fn push_decimal_i64(out: &mut String, v: i64)
    ensures
        final(out)@ == old(out)@ + dec_digits_i64(v as int),
    decreases v,
{
    if v < 0 {
        out.append("-");
        let mag: u64 = if v == i64::MIN {
            9223372036854775808u64
        } else {
            (-v) as u64
        };
        proof {
            reveal_strlit("-");
            assert(mag as nat == (-(v as int)) as nat);
        }
        push_decimal(out, mag);
        proof {
            assert(out@ =~= old(out)@ + dec_digits_i64(v as int));
        }
    } else {
        push_decimal(out, v as u64);
    }
}

} // verus!
