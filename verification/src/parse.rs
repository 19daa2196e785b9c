//! Parsing text as a 64-bit signed integer.
//!
//! The accepted form is an optional `+` or `-` sign followed by one or more
//! ASCII decimal digits, nothing else, and a value that fits in `i64`.

use vstd::prelude::*;

verus! {

/// Whether a character is an ASCII decimal digit.
pub open spec fn is_digit(c: char) -> bool {
    48 <= c as u32 <= 57
}

/// The numeric value of an ASCII decimal digit.
pub open spec fn digit_val(c: char) -> int {
    c as u32 - 48
}

/// Whether every character of the sequence is an ASCII decimal digit.
pub open spec fn all_digits(s: Seq<char>) -> bool {
    forall|i: int| 0 <= i < s.len() ==> is_digit(#[trigger] s[i])
}

/// The unsigned value of a digit sequence read in base ten.
pub open spec fn digits_value(s: Seq<char>) -> int
    decreases s.len(),
{
    if s.len() == 0 {
        0
    } else {
        digits_value(s.drop_last()) * 10 + digit_val(s.last())
    }
}

/// What [`parse_i64`] yields: the signed base-ten value of the text, or
/// `None` when the text is not an optionally signed digit string or its
/// value does not fit in `i64`.
pub open spec fn parse_i64_spec(s: Seq<char>) -> Option<int> {
    let neg = s.len() > 0 && s[0] == '-';
    let signed = s.len() > 0 && (s[0] == '-' || s[0] == '+');
    let digits = if signed {
        s.subrange(1, s.len() as int)
    } else {
        s
    };
    if digits.len() > 0 && all_digits(digits) {
        let v = if neg {
            -digits_value(digits)
        } else {
            digits_value(digits)
        };
        if i64::MIN <= v <= i64::MAX {
            Some(v)
        } else {
            None
        }
    } else {
        None
    }
}

proof fn lemma_digits_value_nonneg(s: Seq<char>)
    requires
        all_digits(s),
    ensures
        digits_value(s) >= 0,
    decreases s.len(),
{
    if s.len() > 0 {
        assert(all_digits(s.drop_last()));
        lemma_digits_value_nonneg(s.drop_last());
    }
}

/// Reading one more digit multiplies the prefix value by ten and adds it.
proof fn lemma_digits_value_step(s: Seq<char>, k: int)
    requires
        0 <= k < s.len(),
    ensures
        digits_value(s.take(k + 1)) == digits_value(s.take(k)) * 10 + digit_val(s[k]),
{
    assert(s.take(k + 1).drop_last() =~= s.take(k));
    assert(s.take(k + 1).last() == s[k]);
}

/// A digit string is worth at least any of its prefixes.
proof fn lemma_digits_value_mono(s: Seq<char>, k: int)
    requires
        all_digits(s),
        0 <= k <= s.len(),
    ensures
        digits_value(s) >= digits_value(s.take(k)),
    decreases s.len() - k,
{
    if k == s.len() {
        assert(s.take(k) =~= s);
    } else {
        assert(all_digits(s.take(k)));
        lemma_digits_value_nonneg(s.take(k));
        lemma_digits_value_step(s, k);
        lemma_digits_value_mono(s, k + 1);
    }
}

/// Parse the text as a signed 64-bit integer, exactly as
/// [`parse_i64_spec`] defines it.
#[verifier::loop_isolation(false)]
pub fn parse_i64(s: &str) -> (r: Option<i64>)
    ensures
        match r {
            Some(v) => parse_i64_spec(s@) == Some(v as int),
            None => parse_i64_spec(s@) is None,
        },
{
    let n = s.unicode_len();
    if n == 0 {
        return None;
    }
    let c0 = s.get_char(0);
    let neg = c0 == '-';
    let start: usize = if c0 == '-' || c0 == '+' {
        1
    } else {
        0
    };
    let ghost digits = s@.subrange(start as int, n as int);
    proof {
        if start == 0 {
            assert(digits =~= s@);
        }
    }
    if start == n {
        return None;
    }

    // Accumulate the magnitude negatively so that `i64::MIN` is reachable.
    let mut acc: i64 = 0;
    let mut i = start;
    while i < n
        invariant
            start <= i <= n,
            n == s@.len(),
            start == 1 ==> (s@[0] == '-' || s@[0] == '+'),
            start == 0 ==> !(s@[0] == '-' || s@[0] == '+'),
            neg == (s@[0] == '-'),
            digits == s@.subrange(start as int, n as int),
            forall|j: int| 0 <= j < i - start ==> is_digit(#[trigger] digits[j]),
            acc <= 0,
            acc as int == -digits_value(digits.take(i - start)),
        decreases n - i,
    {
        let c = s.get_char(i);
        let u = c as u32;
        if u < 48 || u > 57 {
            assert(!is_digit(digits[i - start]));
            assert(!all_digits(digits));
            return None;
        }
        let d = (u - 48) as i64;
        proof {
            lemma_digits_value_step(digits, i - start);
        }
        let scaled = match acc.checked_mul(10) {
            Some(a) => a,
            None => {
                proof {
                    overflow_means_no_parse(s@, digits, i - start, acc as int, d as int, neg);
                }
                return None;
            },
        };
        acc = match scaled.checked_sub(d) {
            Some(a) => a,
            None => {
                proof {
                    overflow_means_no_parse(s@, digits, i - start, acc as int, d as int, neg);
                }
                return None;
            },
        };
        i = i + 1;
    }
    proof {
        assert(digits.take(n - start) =~= digits);
        assert(all_digits(digits));
    }
    if neg {
        Some(acc)
    } else {
        if acc == i64::MIN {
            return None;
        }
        Some(-acc)
    }
}

/// When the accumulator can no longer take a digit, the full digit string is
/// out of `i64` range, so the parse yields nothing.
proof fn overflow_means_no_parse(s: Seq<char>, digits: Seq<char>, k: int, acc: int, d: int, neg: bool)
    requires
        0 <= k < digits.len(),
        digits.len() > 0,
        s.len() > 0,
        neg == (s[0] == '-'),
        (s[0] == '-' || s[0] == '+') ==> digits == s.subrange(1, s.len() as int),
        !(s[0] == '-' || s[0] == '+') ==> digits == s,
        is_digit(digits[k]),
        acc == -digits_value(digits.take(k)),
        acc * 10 - d < i64::MIN,
        d == digit_val(digits[k]),
    ensures
        parse_i64_spec(s) is None,
{
    if all_digits(digits) {
        lemma_digits_value_step(digits, k);
        assert(digits_value(digits.take(k + 1)) == -acc * 10 + d);
        lemma_digits_value_mono(digits, k + 1);
        assert(digits_value(digits) > i64::MAX);
    }
}

} // verus!
