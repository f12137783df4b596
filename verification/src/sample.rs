//! Parsing of recorded sample tokens.
//!
//! A recorded shot stores every number as a decimal-string token. A series
//! token is an optionally signed decimal (`-?digits(.digits)?`) and is read
//! into a fixed-point `i64` counting millionths; fractional digits beyond the
//! sixth are ignored. A clock token is an unsigned decimal integer read into
//! a `u64`. A token that does not fit its grammar, or whose value does not
//! fit the target type, is a `MalformedSample`.

use vstd::prelude::*;
use vstd::string::StrSliceExecFns;

use crate::error::ShotError;

verus! {

/// Largest integer part a series token may carry, in whole recorded units.
pub const INT_LIMIT: i64 = 999_999_999;

/// Strict upper bound on the magnitude of any parsed sample, in millionths.
pub const SAMPLE_LIMIT: i64 = 1_000_000_000_000_000;

pub open spec fn is_digit(c: char) -> bool {
    48 <= c as u32 <= 57
}

pub open spec fn digit_val(c: char) -> int {
    c as u32 - 48
}

pub open spec fn is_dot(c: char) -> bool {
    c as u32 == 46
}

pub open spec fn is_minus(c: char) -> bool {
    c as u32 == 45
}

pub open spec fn all_digits(s: Seq<char>) -> bool {
    forall|i: int| 0 <= i < s.len() ==> is_digit(#[trigger] s[i])
}

/// Value of a digit string read in base 10; 0 for the empty string.
pub open spec fn digits_val(s: Seq<char>) -> int
    decreases s.len(),
{
    if s.len() == 0 {
        0
    } else {
        digits_val(s.drop_last()) * 10 + digit_val(s.last())
    }
}

/// Index of the first dot in `s`, or `s.len()` if there is none.
pub open spec fn dot_pos(s: Seq<char>) -> int
    decreases s.len(),
{
    if s.len() == 0 {
        0
    } else if is_dot(s[0]) {
        0
    } else {
        1 + dot_pos(s.drop_first())
    }
}

/// The digits before the first dot of an unsigned token.
pub open spec fn int_part(s: Seq<char>) -> Seq<char> {
    s.take(dot_pos(s))
}

/// The digits after the first dot of an unsigned token; empty without a dot.
pub open spec fn frac_part(s: Seq<char>) -> Seq<char> {
    if dot_pos(s) == s.len() {
        Seq::empty()
    } else {
        s.skip(dot_pos(s) + 1)
    }
}

/// An unsigned series token: one or more integer digits, then optionally a
/// dot followed by one or more fraction digits, with the integer part small
/// enough for fixed point.
pub open spec fn is_unsigned_token(s: Seq<char>) -> bool {
    &&& dot_pos(s) >= 1
    &&& all_digits(int_part(s))
    &&& digits_val(int_part(s)) <= INT_LIMIT
    &&& (dot_pos(s) < s.len() ==> frac_part(s).len() >= 1 && all_digits(frac_part(s)))
}

/// Fraction digits scaled to millionths; digits beyond the sixth are ignored.
pub open spec fn frac_val(fr: Seq<char>) -> int {
    if fr.len() == 0 {
        0
    } else if fr.len() == 1 {
        digits_val(fr) * 100_000
    } else if fr.len() == 2 {
        digits_val(fr) * 10_000
    } else if fr.len() == 3 {
        digits_val(fr) * 1_000
    } else if fr.len() == 4 {
        digits_val(fr) * 100
    } else if fr.len() == 5 {
        digits_val(fr) * 10
    } else {
        digits_val(fr.take(6))
    }
}

/// Value of an unsigned token in millionths.
pub open spec fn unsigned_value(s: Seq<char>) -> int {
    digits_val(int_part(s)) * 1_000_000 + frac_val(frac_part(s))
}

/// The token with a leading minus sign removed.
pub open spec fn token_body(s: Seq<char>) -> Seq<char> {
    if s.len() > 0 && is_minus(s[0]) {
        s.drop_first()
    } else {
        s
    }
}

/// A well-formed series token: an unsigned token with an optional sign.
pub open spec fn is_sample_token(s: Seq<char>) -> bool {
    is_unsigned_token(token_body(s))
}

/// Fixed-point value of a series token, in millionths.
pub open spec fn sample_value(s: Seq<char>) -> int {
    if s.len() > 0 && is_minus(s[0]) {
        -unsigned_value(token_body(s))
    } else {
        unsigned_value(s)
    }
}

/// A well-formed clock token: one or more digits whose value fits a `u64`.
pub open spec fn is_clock_token(s: Seq<char>) -> bool {
    &&& s.len() >= 1
    &&& all_digits(s)
    &&& digits_val(s) <= u64::MAX
}

proof fn lemma_digits_val_nonneg(s: Seq<char>)
    requires
        all_digits(s),
    ensures
        digits_val(s) >= 0,
    decreases s.len(),
{
    if s.len() > 0 {
        assert(all_digits(s.drop_last()));
        lemma_digits_val_nonneg(s.drop_last());
    }
}

/// Reading further digits never decreases the value already read.
proof fn lemma_digits_val_prefix_le(s: Seq<char>, j: int)
    requires
        all_digits(s),
        0 <= j <= s.len(),
    ensures
        digits_val(s.take(j)) <= digits_val(s),
    decreases s.len(),
{
    if j == s.len() {
        assert(s.take(j) =~= s);
    } else {
        let dl = s.drop_last();
        assert(all_digits(dl));
        lemma_digits_val_prefix_le(dl, j);
        assert(s.take(j) =~= dl.take(j));
        lemma_digits_val_nonneg(dl);
    }
}

/// A scan that saw no dot before position `p`, and a dot at `p` if `p` is in
/// bounds, found exactly the first dot.
proof fn lemma_dot_pos_at(s: Seq<char>, p: int)
    requires
        0 <= p <= s.len(),
        forall|j: int| 0 <= j < p ==> !is_dot(#[trigger] s[j]),
        p < s.len() ==> is_dot(s[p]),
    ensures
        dot_pos(s) == p,
    decreases p,
{
    if p > 0 {
        let t = s.drop_first();
        assert(forall|j: int| 0 <= j < p - 1 ==> !is_dot(#[trigger] t[j]));
        lemma_dot_pos_at(t, p - 1);
    }
}

/// Appending one digit multiplies the value read so far by ten.
proof fn lemma_digits_val_step(s: Seq<char>, a: int, i: int)
    requires
        0 <= a <= i < s.len(),
    ensures
        digits_val(s.subrange(a, i + 1)) == digits_val(s.subrange(a, i)) * 10 + digit_val(s[i]),
{
    let full = s.subrange(a, i + 1);
    assert(full.drop_last() =~= s.subrange(a, i));
    assert(full.last() == s[i]);
}

/// Reads an optionally signed decimal token into fixed point (millionths).
///
/// Succeeds exactly on well-formed series tokens and then returns the token's
/// fixed-point value, whose magnitude is below `SAMPLE_LIMIT`.
#[verifier::loop_isolation(false)]
#[verifier::rlimit(80)]
pub fn parse_sample(s: &str) -> (r: Result<i64, ShotError>)
    ensures
        r is Ok <==> is_sample_token(s@),
        r is Ok ==> r->Ok_0 == sample_value(s@),
        r is Ok ==> -SAMPLE_LIMIT < r->Ok_0 < SAMPLE_LIMIT,
        r is Err ==> r->Err_0 == ShotError::MalformedSample,
{
    let n = s.unicode_len();
    let neg = n >= 1 && (s.get_char(0) as u32) == 45;
    let start: usize = if neg { 1 } else { 0 };
    let ghost u = token_body(s@);
    proof {
        assert(u =~= s@.skip(start as int));
    }

    // Find the first dot at or after the sign.
    let mut dot: usize = start;
    let mut found_dot = false;
    while dot < n && !found_dot
        invariant
            start <= dot <= n,
            forall|j: int| start <= j < dot ==> !is_dot(#[trigger] s@[j]),
            found_dot ==> dot < n && is_dot(s@[dot as int]),
        decreases n - dot, 1int - (if found_dot { 1int } else { 0int }),
    {
        if (s.get_char(dot) as u32) == 46 {
            found_dot = true;
        } else {
            dot += 1;
        }
    }
    proof {
        assert(forall|j: int| 0 <= j < dot - start ==> !is_dot(#[trigger] u[j]));
        lemma_dot_pos_at(u, dot - start);
    }

    if dot == start {
        // Empty integer part: no digit before the dot or the end.
        return Err(ShotError::MalformedSample);
    }

    // Integer digits.
    let mut acc: i64 = 0;
    let mut i: usize = start;
    while i < dot
        invariant
            start <= i <= dot <= n,
            n == s@.len(),
            forall|j: int| start <= j < i ==> is_digit(#[trigger] s@[j]),
            acc == digits_val(s@.subrange(start as int, i as int)),
            0 <= acc <= INT_LIMIT,
        decreases dot - i,
    {
        let cv = s.get_char(i) as u32;
        if !(48 <= cv && cv <= 57) {
            proof {
                assert(int_part(u) =~= s@.subrange(start as int, dot as int));
                assert(!is_digit(int_part(u)[i - start]));
            }
            return Err(ShotError::MalformedSample);
        }
        let d = (cv - 48) as i64;
        proof {
            lemma_digits_val_step(s@, start as int, i as int);
        }
        let next = acc * 10 + d;
        if next > INT_LIMIT {
            proof {
                let ip = int_part(u);
                assert(ip =~= s@.subrange(start as int, dot as int));
                if all_digits(ip) {
                    assert(ip.take(i + 1 - start) =~= s@.subrange(start as int, i + 1));
                    lemma_digits_val_prefix_le(ip, i + 1 - start);
                }
            }
            return Err(ShotError::MalformedSample);
        }
        acc = next;
        i += 1;
    }
    proof {
        assert(int_part(u) =~= s@.subrange(start as int, dot as int));
    }

    // Fraction digits: everything past the dot, millionths from the first six.
    let mut frac: i64 = 0;
    if dot < n {
        if dot + 1 == n {
            // A dot with nothing after it.
            proof {
                assert(frac_part(u).len() == 0);
            }
            return Err(ShotError::MalformedSample);
        }
        let mut facc: i64 = 0;
        let mut j: usize = dot + 1;
        while j < n
            invariant
                dot + 1 <= j <= n,
                n == s@.len(),
                dot + 1 < n,
                forall|k: int| dot + 1 <= k < j ==> is_digit(#[trigger] s@[k]),
                j <= dot + 7 ==> facc == digits_val(s@.subrange(dot + 1, j as int)),
                j > dot + 7 ==> facc == digits_val(s@.subrange(dot + 1, dot + 7)),
                0 <= facc <= 999_999,
            decreases n - j,
        {
            let cv = s.get_char(j) as u32;
            if !(48 <= cv && cv <= 57) {
                proof {
                    assert(frac_part(u) =~= s@.subrange(dot + 1, n as int));
                    assert(!is_digit(frac_part(u)[j - (dot + 1)]));
                }
                return Err(ShotError::MalformedSample);
            }
            if j - dot < 7 {
                let d = (cv - 48) as i64;
                proof {
                    lemma_digits_val_step(s@, dot + 1, j as int);
                    if j - (dot + 1) == 0 {
                        assert(s@.subrange(dot + 1, dot + 1) =~= Seq::<char>::empty());
                    }
                    lemma_digits_val_nonneg(s@.subrange(dot + 1, j as int));
                    assert(facc <= 99_999) by {
                        lemma_digits_val_small(s@.subrange(dot + 1, j as int));
                    }
                }
                facc = facc * 10 + d;
            }
            j += 1;
        }
        proof {
            let fr = frac_part(u);
            assert(fr =~= s@.subrange(dot + 1, n as int));
            if n >= dot + 7 {
                assert(fr.take(6) =~= s@.subrange(dot + 1, dot + 7));
            }
        }
        let flen = n - dot - 1;
        frac = if flen == 1 {
            facc * 100_000
        } else if flen == 2 {
            facc * 10_000
        } else if flen == 3 {
            facc * 1_000
        } else if flen == 4 {
            facc * 100
        } else if flen == 5 {
            facc * 10
        } else {
            facc
        };
        proof {
            if flen <= 5 {
                lemma_digits_val_small(s@.subrange(dot + 1, n as int));
            }
            assert(frac == frac_val(frac_part(u)));
            assert(0 <= frac <= 999_999);
        }
    }

    let value = acc * 1_000_000 + frac;
    proof {
        assert(value == unsigned_value(u));
    }
    if neg {
        Ok(-value)
    } else {
        Ok(value)
    }
}

/// A digit string of at most five digits reads below 100,000.
proof fn lemma_digits_val_small(s: Seq<char>)
    requires
        all_digits(s),
        s.len() <= 5,
    ensures
        digits_val(s) < 100_000,
        digits_val(s) * 10 + 9 < 1_000_000,
        s.len() <= 4 ==> digits_val(s) < 10_000,
        s.len() <= 3 ==> digits_val(s) < 1_000,
        s.len() <= 2 ==> digits_val(s) < 100,
        s.len() <= 1 ==> digits_val(s) < 10,
    decreases s.len(),
{
    if s.len() > 0 {
        assert(all_digits(s.drop_last()));
        lemma_digits_val_small(s.drop_last());
    }
}

/// Reads an unsigned decimal token into a `u64`.
///
/// Succeeds exactly on well-formed clock tokens and then returns their value.
#[verifier::loop_isolation(false)]
pub fn parse_clock(s: &str) -> (r: Result<u64, ShotError>)
    ensures
        r is Ok <==> is_clock_token(s@),
        r is Ok ==> r->Ok_0 == digits_val(s@),
        r is Err ==> r->Err_0 == ShotError::MalformedSample,
{
    let n = s.unicode_len();
    if n == 0 {
        return Err(ShotError::MalformedSample);
    }
    let mut acc: u64 = 0;
    let mut i: usize = 0;
    while i < n
        invariant
            0 <= i <= n,
            n == s@.len(),
            forall|j: int| 0 <= j < i ==> is_digit(#[trigger] s@[j]),
            acc == digits_val(s@.subrange(0, i as int)),
        decreases n - i,
    {
        let cv = s.get_char(i) as u32;
        if !(48 <= cv && cv <= 57) {
            return Err(ShotError::MalformedSample);
        }
        let d = (cv - 48) as u64;
        proof {
            lemma_digits_val_step(s@, 0, i as int);
        }
        let high = acc.checked_mul(10);
        let next = match high {
            Some(h) => h.checked_add(d),
            None => None,
        };
        match next {
            Some(v) => {
                acc = v;
            },
            None => {
                proof {
                    if all_digits(s@) {
                        assert(s@.take(i + 1) =~= s@.subrange(0, i + 1));
                        lemma_digits_val_prefix_le(s@, i + 1);
                    }
                }
                return Err(ShotError::MalformedSample);
            },
        }
        i += 1;
    }
    proof {
        assert(s@.subrange(0, n as int) =~= s@);
    }
    Ok(acc)
}

} // verus!
