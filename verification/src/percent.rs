use vstd::prelude::*;
use vstd::string::StrSliceExecFns;

verus! {

/// An ASCII decimal digit.
pub open spec fn is_digit(c: char) -> bool {
    '0' <= c && c <= '9'
}

/// Numeric value of an ASCII decimal digit.
pub open spec fn digit_value(c: char) -> int {
    c as int - '0' as int
}

/// Every character of `s` is an ASCII decimal digit.
pub open spec fn all_digits(s: Seq<char>) -> bool {
    forall|i: int| 0 <= i < s.len() ==> is_digit(#[trigger] s[i])
}

/// Value of a sequence of decimal digits, most significant first.
pub open spec fn digits_value(s: Seq<char>) -> int
    decreases s.len(),
{
    if s.len() == 0 {
        0
    } else {
        digits_value(s.drop_last()) * 10 + digit_value(s.last())
    }
}

/// `s` starts with an explicit sign character.
pub open spec fn has_sign(s: Seq<char>) -> bool {
    s.len() > 0 && (s[0] == '+' || s[0] == '-')
}

/// `s` denotes a negative number.
pub open spec fn is_negative(s: Seq<char>) -> bool {
    s.len() > 0 && s[0] == '-'
}

/// The digits of `s`: everything after the sign, if one is present.
pub open spec fn digits_part(s: Seq<char>) -> Seq<char> {
    if has_sign(s) {
        s.subrange(1, s.len() as int)
    } else {
        s
    }
}

/// `s` is a decimal integer literal: an optional sign followed by one or
/// more ASCII decimal digits and nothing else.
pub open spec fn is_int_literal(s: Seq<char>) -> bool {
    digits_part(s).len() > 0 && all_digits(digits_part(s))
}

/// The number that the literal `s` denotes.
pub open spec fn int_literal_value(s: Seq<char>) -> int {
    if is_negative(s) {
        -digits_value(digits_part(s))
    } else {
        digits_value(digits_part(s))
    }
}

/// `s` is a decimal integer literal whose value fits in an `i32`.
pub open spec fn parses_to_i32(s: Seq<char>) -> bool {
    is_int_literal(s) && i32::MIN <= int_literal_value(s) <= i32::MAX
}

/// The value of a digit sequence is never negative.
proof fn lemma_digits_value_nonneg(s: Seq<char>)
    requires
        all_digits(s),
    ensures
        digits_value(s) >= 0,
    decreases s.len(),
{
    if s.len() > 0 {
        assert(all_digits(s.drop_last()));
        lemma_digits_value_nonneg(s.drop_last());
    }
}

/// Extending a digit sequence to the right never lowers its value.
proof fn lemma_digits_value_monotone(s: Seq<char>, k: int)
    requires
        all_digits(s),
        0 <= k <= s.len(),
    ensures
        digits_value(s) >= digits_value(s.subrange(0, k)),
    decreases s.len() - k,
{
    if k == s.len() {
        assert(s.subrange(0, k) =~= s);
    } else {
        lemma_digits_value_monotone(s, k + 1);
        let longer = s.subrange(0, k + 1);
        assert(longer.drop_last() =~= s.subrange(0, k));
        assert(all_digits(s.subrange(0, k)));
        lemma_digits_value_nonneg(s.subrange(0, k));
    }
}

/// Reads `s` as a decimal `i32`, as an optional sign followed by one or
/// more ASCII decimal digits. Returns the denoted value, or `None` when
/// `s` is not such a literal or its value does not fit in an `i32`.
pub fn parse_i32(s: &str) -> (r: Option<i32>)
    ensures
        match r {
            Some(v) => parses_to_i32(s@) && v as int == int_literal_value(s@),
            None => !parses_to_i32(s@),
        },
{
    let n = s.unicode_len();
    if n == 0 {
        return None;
    }
    let first = s.get_char(0);
    let neg = first == '-';
    let start: usize = if first == '-' || first == '+' {
        1
    } else {
        0
    };
    if start == n {
        // A bare sign with no digits.
        return None;
    }
    let ghost part = digits_part(s@);
    proof {
        assert(part =~= s@.subrange(start as int, n as int));
    }
    let mut acc: i64 = 0;
    let mut i = start;
    while i < n
        invariant
            start <= i <= n,
            n == s@.len(),
            start == if has_sign(s@) { 1int } else { 0int },
            part == digits_part(s@),
            part =~= s@.subrange(start as int, n as int),
            all_digits(s@.subrange(start as int, i as int)),
            acc == digits_value(s@.subrange(start as int, i as int)),
            0 <= acc <= 2147483649,
        decreases n - i,
    {
        let c = s.get_char(i);
        let u = c as u32;
        if u < 48 || u > 57 {
            proof {
                assert(part[i - start] == s@[i as int]);
                assert(!is_digit(s@[i as int]));
            }
            return None;
        }
        if acc > 214748364 {
            // Any further digit pushes the magnitude past every i32.
            proof {
                let scanned = s@.subrange(start as int, i as int);
                let scanned_next = s@.subrange(start as int, i + 1);
                assert(scanned_next.drop_last() =~= scanned);
                assert(digits_value(scanned_next) == acc * 10 + digit_value(s@[i as int]));
                assert(scanned_next =~= part.subrange(0, i + 1 - start));
                if parses_to_i32(s@) {
                    lemma_digits_value_monotone(part, i + 1 - start);
                    assert(digits_value(part) >= acc * 10);
                    assert(acc * 10 >= 2147483650) by (nonlinear_arith)
                        requires acc >= 214748365;
                }
            }
            return None;
        }
        proof {
            let scanned = s@.subrange(start as int, i as int);
            let scanned_next = s@.subrange(start as int, i + 1);
            assert(scanned_next.drop_last() =~= scanned);
            assert(scanned_next.last() == s@[i as int]);
        }
        acc = acc * 10 + (u - 48) as i64;
        i += 1;
    }
    proof {
        assert(s@.subrange(start as int, i as int) =~= part);
        lemma_digits_value_nonneg(part);
    }
    if neg {
        if acc <= 2147483648 {
            Some((-acc) as i32)
        } else {
            None
        }
    } else {
        if acc <= 2147483647 {
            Some(acc as i32)
        } else {
            None
        }
    }
}

} // verus!
