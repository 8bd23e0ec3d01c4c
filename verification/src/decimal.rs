use vstd::prelude::*;

verus! {

/// Whether `c` is one of the ten ASCII decimal digits.
pub open spec fn is_decimal_digit(c: char) -> bool {
    48 <= c as int <= 57
}

/// The value of a single decimal digit character.
pub open spec fn digit_value(c: char) -> int {
    c as int - 48
}

/// Whether every character of `s` is a decimal digit.
pub open spec fn all_decimal_digits(s: Seq<char>) -> bool {
    forall|i: int| 0 <= i < s.len() ==> is_decimal_digit(#[trigger] s[i])
}

/// The number that a sequence of decimal digits denotes, most
/// significant digit first; the empty sequence denotes 0.
pub open spec fn decimal_value(s: Seq<char>) -> int
    decreases s.len(),
{
    if s.len() == 0 {
        0
    } else {
        decimal_value(s.drop_last()) * 10 + digit_value(s.last())
    }
}

/// What `u8` parsing of a decimal string yields: an optional single
/// leading plus sign, then at least one digit, denoting a value that
/// fits in a `u8`.  A minus sign is not a digit, so it is rejected as
/// any other stray character is.
pub open spec fn u8_from_decimal(s: Seq<char>) -> Option<u8> {
    if s.len() == 0 {
        None
    } else {
        let body = if s[0] == '+' {
            s.subrange(1, s.len() as int)
        } else {
            s
        };
        if body.len() > 0 && all_decimal_digits(body) && decimal_value(body) <= u8::MAX {
            Some(decimal_value(body) as u8)
        } else {
            None
        }
    }
}

/// A sequence of decimal digits denotes a non-negative number.
proof fn lemma_decimal_value_nonneg(s: Seq<char>)
    requires
        all_decimal_digits(s),
    ensures
        decimal_value(s) >= 0,
    decreases s.len(),
{
    if s.len() > 0 {
        assert(all_decimal_digits(s.drop_last()));
        lemma_decimal_value_nonneg(s.drop_last());
    }
}

/// Dropping trailing digits never increases the denoted value.
proof fn lemma_decimal_value_prefix_le(s: Seq<char>, i: int)
    requires
        0 <= i <= s.len(),
        all_decimal_digits(s),
    ensures
        decimal_value(s.subrange(0, i)) <= decimal_value(s),
    decreases s.len() - i,
{
    if i == s.len() {
        assert(s.subrange(0, i) =~= s);
    } else {
        lemma_decimal_value_prefix_le(s, i + 1);
        assert(s.subrange(0, i + 1).drop_last() =~= s.subrange(0, i));
        assert(all_decimal_digits(s.subrange(0, i)));
        lemma_decimal_value_nonneg(s.subrange(0, i));
    }
}

/// Parses a decimal string exactly as `u8` string parsing does:
/// an optional plus sign followed by at least one digit, with any
/// value outside the `u8` range, and anything else, rejected.
pub fn parse_u8_decimal(s: &str) -> (r: Option<u8>)
    ensures
        r == u8_from_decimal(s@),
{
    let n = s.unicode_len();
    if n == 0 {
        return None;
    }
    let first = s.get_char(0);
    let signed = first == '+';
    let start: usize = if signed { 1 } else { 0 };
    if n <= start {
        return None;
    }
    let ghost body = if signed {
        s@.subrange(1, s@.len() as int)
    } else {
        s@
    };
    let mut acc: u32 = 0;
    let mut i: usize = start;
    while i < n
        invariant
            n == s@.len(),
            n > start,
            start <= i <= n,
            signed == (s@[0] == '+'),
            start == (if signed { 1int } else { 0int }),
            body == (if signed { s@.subrange(1, s@.len() as int) } else { s@ }),
            all_decimal_digits(s@.subrange(start as int, i as int)),
            acc == decimal_value(s@.subrange(start as int, i as int)),
            acc <= 255,
        decreases n - i,
    {
        let c = s.get_char(i);
        let cv = c as u32;
        if cv < 48 || cv > 57 {
            proof {
                assert(body[i - start] == s@[i as int]);
                assert(!all_decimal_digits(body));
            }
            return None;
        }
        let d = cv - 48;
        proof {
            assert(s@.subrange(start as int, i + 1).drop_last() =~= s@.subrange(
                start as int,
                i as int,
            ));
            assert(s@.subrange(start as int, i + 1).last() == s@[i as int]);
        }
        acc = acc * 10 + d;
        if acc > 255 {
            proof {
                if all_decimal_digits(body) {
                    assert(s@.subrange(start as int, i + 1) =~= body.subrange(0, i + 1 - start));
                    lemma_decimal_value_prefix_le(body, i + 1 - start);
                }
            }
            return None;
        }
        i += 1;
    }
    proof {
        assert(s@.subrange(start as int, n as int) =~= body);
    }
    Some(acc as u8)
}

} // verus!
