//! Parsing a decimal `u64` from header text, with the same acceptance rule
//! as the standard library's `u64` parser: an optional leading `+`, then
//! one or more ASCII digits, rejecting empty input and values that do not
//! fit in 64 bits.

use vstd::prelude::*;

verus! {

/// Whether `c` is an ASCII decimal digit.
pub open spec fn spec_is_digit(c: char) -> bool {
    48 <= c as int <= 57
}

/// Whether every character of `s` is an ASCII decimal digit.
pub open spec fn spec_all_digits(s: Seq<char>) -> bool {
    forall|i: int| 0 <= i < s.len() ==> spec_is_digit(#[trigger] s[i])
}

/// The numeric value of a digit string, most significant digit first.
pub open spec fn spec_digits_val(s: Seq<char>) -> int
    decreases s.len(),
{
    if s.len() == 0 {
        0
    } else {
        spec_digits_val(s.drop_last()) * 10 + (s.last() as int - 48)
    }
}

/// The value the standard `u64` parser gives to `s`: strip one optional
/// leading `+`, then require at least one digit, only digits, and a value
/// that fits in 64 bits.
pub open spec fn spec_parse_u64(s: Seq<char>) -> Option<u64> {
    let digits = if s.len() >= 1 && s[0] == '+' {
        s.skip(1)
    } else {
        s
    };
    if digits.len() >= 1 && spec_all_digits(digits) && spec_digits_val(digits) <= u64::MAX {
        Some(spec_digits_val(digits) as u64)
    } else {
        None
    }
}

/// A digit string never has a negative value.
proof fn lemma_digits_val_nonneg(s: Seq<char>)
    requires
        spec_all_digits(s),
    ensures
        spec_digits_val(s) >= 0,
    decreases s.len(),
{
    if s.len() > 0 {
        assert(spec_all_digits(s.drop_last()));
        lemma_digits_val_nonneg(s.drop_last());
    }
}

/// Extending a digit string never decreases its value, so once a prefix
/// overflows the whole string does.
proof fn lemma_digits_val_prefix_le(s: Seq<char>, k: int)
    requires
        spec_all_digits(s),
        0 <= k <= s.len(),
    ensures
        spec_digits_val(s.take(k)) <= spec_digits_val(s),
    decreases s.len() - k,
{
    if k < s.len() {
        lemma_digits_val_prefix_le(s, k + 1);
        assert(s.take(k + 1).drop_last() =~= s.take(k));
        assert(spec_all_digits(s.take(k)));
        lemma_digits_val_nonneg(s.take(k));
    } else {
        assert(s.take(k) =~= s);
    }
}

/// Parses `s` as a decimal `u64` exactly as the standard library's `u64`
/// parser accepts it.
pub fn parse_u64_decimal(s: &str) -> (r: Option<u64>)
    ensures
        r == spec_parse_u64(s@),
{
    let n = s.unicode_len();
    let start: usize = if n >= 1 && s.get_char(0) == '+' {
        1
    } else {
        0
    };
    if n == start {
        return None;
    }
    let ghost digits = if s@.len() >= 1 && s@[0] == '+' {
        s@.skip(1)
    } else {
        s@
    };
    proof {
        assert(s@.subrange(start as int, n as int) =~= digits);
    }
    let mut acc: u64 = 0;
    let mut i = start;
    while i < n
        invariant
            start <= i <= n,
            n == s@.len(),
            start as int == (if s@.len() >= 1 && s@[0] == '+' {
                1int
            } else {
                0int
            }),
            digits == s@.subrange(start as int, n as int),
            spec_all_digits(s@.subrange(start as int, i as int)),
            acc == spec_digits_val(s@.subrange(start as int, i as int)),
        decreases n - i,
    {
        let c = s.get_char(i);
        let cv = c as u32;
        if cv < 48 || cv > 57 {
            proof {
                assert(!spec_is_digit(digits[i - start]));
                assert(digits =~= (if s@.len() >= 1 && s@[0] == '+' {
                    s@.skip(1)
                } else {
                    s@
                }));
            }
            return None;
        }
        let d = (cv - 48) as u64;
        let acc128: u128 = acc as u128 * 10 + d as u128;
        proof {
            assert(s@.subrange(start as int, i as int + 1).drop_last() =~= s@.subrange(
                start as int,
                i as int,
            ));
        }
        if acc128 > u64::MAX as u128 {
            proof {
                if spec_all_digits(digits) {
                    assert(digits.take(i - start + 1) =~= s@.subrange(start as int, i as int + 1));
                    assert(spec_digits_val(s@.subrange(start as int, i as int + 1)) == acc * 10 + d);
                    lemma_digits_val_prefix_le(digits, i - start + 1);
                }
                assert(digits =~= (if s@.len() >= 1 && s@[0] == '+' {
                    s@.skip(1)
                } else {
                    s@
                }));
            }
            return None;
        }
        acc = acc128 as u64;
        i = i + 1;
    }
    proof {
        assert(s@.subrange(start as int, n as int) =~= digits);
    }
    Some(acc)
}

} // verus!
