//! Parsing a channel identifier: the destination of the delivery loop
//! is a signed 64-bit integer written in decimal, handed over as an
//! environment string.

use vstd::prelude::*;
use vstd::string::StrSliceExecFns;

verus! {

/// `c` is a decimal digit character.
pub open spec fn spec_is_digit(c: char) -> bool {
    '0' <= c && c <= '9'
}

/// The numeric value of a digit character.
pub open spec fn spec_digit_val(c: char) -> int {
    c as int - '0' as int
}

/// Every character of `s` is a decimal digit.
pub open spec fn spec_all_digits(s: Seq<char>) -> bool {
    forall|i: int| 0 <= i < s.len() ==> spec_is_digit(#[trigger] s[i])
}

/// The unsigned value of a digit string, most significant digit first.
pub open spec fn spec_digits_val(s: Seq<char>) -> int
    decreases s.len(),
{
    if s.len() == 0 {
        0
    } else {
        spec_digits_val(s.drop_last()) * 10 + spec_digit_val(s.last())
    }
}

/// Whether `s` opens with a minus sign.
pub open spec fn spec_is_negative(s: Seq<char>) -> bool {
    s.len() > 0 && s[0] == '-'
}

/// The digit part of `s`: everything after a leading `+` or `-`.
pub open spec fn spec_digit_part(s: Seq<char>) -> Seq<char> {
    if s.len() > 0 && (s[0] == '-' || s[0] == '+') {
        s.subrange(1, s.len() as int)
    } else {
        s
    }
}

/// The signed value `s` denotes when well formed: an optional sign,
/// then one or more digits.
pub open spec fn spec_denoted_val(s: Seq<char>) -> int {
    if spec_is_negative(s) {
        -spec_digits_val(spec_digit_part(s))
    } else {
        spec_digits_val(spec_digit_part(s))
    }
}

/// What parsing `s` as a signed 64-bit decimal integer yields: the
/// denoted value when `s` is an optional sign followed by one or more
/// digits and the value fits; nothing otherwise.
pub open spec fn spec_parse_i64(s: Seq<char>) -> Option<i64> {
    if spec_digit_part(s).len() > 0 && spec_all_digits(spec_digit_part(s))
        && i64::MIN <= spec_denoted_val(s) <= i64::MAX {
        Some(spec_denoted_val(s) as i64)
    } else {
        None
    }
}

/// The value of a digit string is never negative.
proof fn lemma_digits_val_nonneg(s: Seq<char>)
    requires
        spec_all_digits(s),
    ensures
        spec_digits_val(s) >= 0,
    decreases s.len(),
{
    if s.len() > 0 {
        assert(spec_all_digits(s.drop_last())) by {
            assert(forall|i: int|
                0 <= i < s.len() - 1 ==> spec_is_digit(#[trigger] s.drop_last()[i]));
        }
        lemma_digits_val_nonneg(s.drop_last());
    }
}

/// Extending a digit string can only grow its value: the value of a
/// prefix is a lower bound for the value of the whole.
proof fn lemma_digits_val_prefix(s: Seq<char>, k: int)
    requires
        spec_all_digits(s),
        0 <= k <= s.len(),
    ensures
        spec_digits_val(s.subrange(0, k)) <= spec_digits_val(s),
    decreases s.len(),
{
    if k < s.len() {
        let t = s.drop_last();
        assert(spec_all_digits(t)) by {
            assert(forall|i: int| 0 <= i < t.len() ==> spec_is_digit(#[trigger] t[i]));
        }
        assert(s.subrange(0, k) =~= t.subrange(0, k));
        lemma_digits_val_prefix(t, k);
        lemma_digits_val_nonneg(t);
        assert(spec_digits_val(s) == spec_digits_val(t) * 10 + spec_digit_val(s.last()));
        assert(spec_digits_val(t) * 10 >= spec_digits_val(t));
        assert(spec_digit_val(s.last()) >= 0);
    } else {
        assert(s.subrange(0, k) =~= s);
    }
}

/// Parses `s` as a signed 64-bit decimal integer: an optional `+` or
/// `-`, then one or more digits, rejecting anything else and any value
/// out of range.
pub fn parse_chat_id(s: &str) -> (r: Option<i64>)
    ensures
        r == spec_parse_i64(s@),
{
    let n = s.unicode_len();
    let ghost view = s@;

    let mut start: usize = 0;
    let mut negative = false;
    if n > 0 {
        let c0 = s.get_char(0);
        if c0 == '-' {
            negative = true;
            start = 1;
        } else if c0 == '+' {
            start = 1;
        }
    }
    proof {
        assert(spec_digit_part(view) =~= view.subrange(start as int, n as int));
        assert(negative == spec_is_negative(view));
    }

    if start == n {
        // No digits at all.
        return None;
    }

    let limit: u128 = if negative {
        9223372036854775808
    } else {
        9223372036854775807
    };

    let mut acc: u128 = 0;
    let mut i: usize = start;
    while i < n
        invariant
            start <= i <= n,
            n == view.len(),
            view == s@,
            start <= 1,
            start < n,
            negative == spec_is_negative(view),
            spec_digit_part(view) =~= view.subrange(start as int, n as int),
            limit == if negative {
                9223372036854775808u128
            } else {
                9223372036854775807u128
            },
            spec_all_digits(view.subrange(start as int, i as int)),
            acc == spec_digits_val(view.subrange(start as int, i as int)),
            acc <= limit,
        decreases n - i,
    {
        let c = s.get_char(i);
        if c < '0' || c > '9' {
            proof {
                assert(!spec_is_digit(spec_digit_part(view)[i - start]));
            }
            return None;
        }
        let d: u128 = (c as u32 - 48) as u128;
        proof {
            assert(d == spec_digit_val(c));
            let prefix = view.subrange(start as int, i as int);
            let extended = view.subrange(start as int, i + 1 as int);
            assert(extended.drop_last() =~= prefix);
            assert(extended.last() == c);
        }
        acc = acc * 10 + d;
        if acc > limit {
            proof {
                let digits = spec_digit_part(view);
                let extended = view.subrange(start as int, i + 1 as int);
                if spec_all_digits(digits) {
                    assert(extended =~= digits.subrange(0, i + 1 - start as int));
                    lemma_digits_val_prefix(digits, i + 1 - start as int);
                    assert(spec_digits_val(digits) > limit);
                }
            }
            return None;
        }
        i += 1;
    }

    proof {
        assert(view.subrange(start as int, n as int) =~= spec_digit_part(view));
        assert(acc == spec_digits_val(spec_digit_part(view)));
    }

    if negative {
        if acc == 9223372036854775808 {
            Some(i64::MIN)
        } else {
            Some(-(acc as i64))
        }
    } else {
        Some(acc as i64)
    }
}

} // verus!
