use vstd::prelude::*;
use vstd::string::StrSliceExecFns;

verus! {

/// Decimal digit test, written over the character's scalar value.
pub open spec fn is_digit(c: char) -> bool {
    ('0' as u32) <= (c as u32) && (c as u32) <= ('9' as u32)
}

pub open spec fn digit_value(c: char) -> int {
    (c as u32) - ('0' as u32)
}

pub open spec fn seq_all_digits(s: Seq<char>) -> bool {
    forall|i: int| 0 <= i < s.len() ==> is_digit(#[trigger] s[i])
}

/// Value of a digit string read most-significant first.
pub open spec fn digits_value(s: Seq<char>) -> int
    decreases s.len(),
{
    if s.len() == 0 {
        0
    } else {
        digits_value(s.drop_last()) * 10 + digit_value(s.last())
    }
}

/// What a decimal 64-bit signed integer literal denotes: an optional sign,
/// then one or more digits, with the value within the two's-complement
/// 64-bit range. Anything else (empty digits, a stray character, overflow)
/// denotes nothing.
pub open spec fn decimal_i64(s: Seq<char>) -> Option<i64> {
    let has_sign = s.len() > 0 && (s[0] == '-' || s[0] == '+');
    let digits = if has_sign {
        s.subrange(1, s.len() as int)
    } else {
        s
    };
    if digits.len() == 0 || !seq_all_digits(digits) {
        None
    } else {
        let value = if has_sign && s[0] == '-' {
            -digits_value(digits)
        } else {
            digits_value(digits)
        };
        if i64::MIN <= value <= i64::MAX {
            Some(value as i64)
        } else {
            None
        }
    }
}

proof fn lemma_digits_value_nonneg(s: Seq<char>)
    requires
        seq_all_digits(s),
    ensures
        digits_value(s) >= 0,
    decreases s.len(),
{
    if s.len() > 0 {
        assert(seq_all_digits(s.drop_last()));
        lemma_digits_value_nonneg(s.drop_last());
    }
}

/// A digit string is worth at least any of its prefixes.
proof fn lemma_digits_value_prefix(s: Seq<char>, j: int)
    requires
        seq_all_digits(s),
        0 <= j <= s.len(),
    ensures
        digits_value(s.subrange(0, j)) <= digits_value(s),
    decreases s.len() - j,
{
    if j == s.len() {
        assert(s.subrange(0, j) =~= s);
    } else {
        lemma_digits_value_prefix(s, j + 1);
        let t = s.subrange(0, j + 1);
        assert(t.drop_last() =~= s.subrange(0, j));
        assert(seq_all_digits(s.subrange(0, j)));
        lemma_digits_value_nonneg(s.subrange(0, j));
        assert(digits_value(t) == digits_value(s.subrange(0, j)) * 10 + digit_value(s[j]));
    }
}

/// Reads a decimal 64-bit signed integer from text, exactly the literals
/// that `decimal_i64` gives a value.
pub fn parse_decimal_i64(s: &str) -> (r: Option<i64>)
    ensures
        r == decimal_i64(s@),
{
    let len = s.unicode_len();
    if len == 0 {
        return None;
    }
    let c0 = s.get_char(0);
    let neg = c0 == '-';
    let has_sign = neg || c0 == '+';
    let start: usize = if has_sign {
        1
    } else {
        0
    };
    let ghost digits: Seq<char> = if has_sign {
        s@.subrange(1, s@.len() as int)
    } else {
        s@
    };
    if start == len {
        return None;
    }
    let mut acc: u64 = 0;
    let mut i = start;
    while i < len
        invariant
            start <= i <= len,
            len == s@.len(),
            start == if has_sign { 1int } else { 0int },
            digits == (if has_sign {
                s@.subrange(1, s@.len() as int)
            } else {
                s@
            }),
            has_sign ==> (s@[0] == '-' || s@[0] == '+'),
            !has_sign && s@.len() > 0 ==> !(s@[0] == '-' || s@[0] == '+'),
            neg <==> (has_sign && s@[0] == '-'),
            seq_all_digits(s@.subrange(start as int, i as int)),
            acc as int == digits_value(s@.subrange(start as int, i as int)),
        decreases len - i,
    {
        let c = s.get_char(i);
        let u = c as u32;
        if u < 48 || u > 57 {
            assert(!is_digit(s@[i as int]));
            assert(digits[i - start as int] == s@[i as int]);
            assert(!seq_all_digits(digits));
            return None;
        }
        let d = (u - 48) as u64;
        let ghost prefix = s@.subrange(start as int, i as int);
        let ghost prefix1 = s@.subrange(start as int, i as int + 1);
        proof {
            assert(prefix1.drop_last() =~= prefix);
            assert(prefix1.last() == s@[i as int]);
        }
        let step = match acc.checked_mul(10) {
            Some(x) => x.checked_add(d),
            None => None,
        };
        match step {
            Some(next) => {
                acc = next;
            },
            None => {
                // The running value no longer fits in 64 bits, so the whole
                // literal cannot denote a 64-bit value either.
                proof {
                    assert(digits_value(prefix1) == acc as int * 10 + d);
                    assert(digits_value(prefix1) > u64::MAX as int);
                    if seq_all_digits(digits) {
                        assert(prefix1 =~= digits.subrange(0, i - start as int + 1));
                        lemma_digits_value_prefix(digits, i - start as int + 1);
                        assert(digits_value(digits) >= digits_value(prefix1));
                    }
                }
                return None;
            },
        }
        i = i + 1;
    }
    proof {
        assert(s@.subrange(start as int, len as int) =~= digits);
    }
    if neg {
        if acc < 9223372036854775808u64 {
            Some(-(acc as i64))
        } else if acc == 9223372036854775808u64 {
            Some(i64::MIN)
        } else {
            None
        }
    } else {
        if acc <= 9223372036854775807u64 {
            Some(acc as i64)
        } else {
            None
        }
    }
}

} // verus!
