//! Decimal text for unsigned integers, in both directions.

use vstd::prelude::*;

verus! {

/// The ASCII digit for `d` (`d < 10`).
pub open spec fn digit_char(d: nat) -> char {
    (d + 48) as char
}

/// The decimal text of `n`, most significant digit first, without sign or
/// leading zeros (the text that `Display` gives an unsigned integer).
pub open spec fn decimal(n: nat) -> Seq<char>
    decreases n,
{
    if n < 10 {
        seq![digit_char(n)]
    } else {
        decimal(n / 10).push(digit_char(n % 10))
    }
}

fn digit_text(d: u64) -> (s: &'static str)
    requires
        d < 10,
    ensures
        s@ == seq![digit_char(d as nat)],
{
    let digits = "0123456789";
    proof {
        reveal_strlit("0123456789");
    }
    digits.substring_char(d as usize, d as usize + 1)
}

/// The decimal text of `n`.
pub fn u64_to_decimal(n: u64) -> (s: String)
    ensures
        s@ == decimal(n as nat),
    decreases n,
{
    if n < 10 {
        String::from_str(digit_text(n))
    } else {
        let mut s = u64_to_decimal(n / 10);
        s.append(digit_text(n % 10));
        s
    }
}


/// `c` is one of the ASCII digits `0`..`9`.
pub open spec fn is_ascii_digit(c: char) -> bool {
    '0' <= c && c <= '9'
}

/// The number that a text of ASCII digits denotes in base ten.
pub open spec fn digits_value(s: Seq<char>) -> nat
    decreases s.len(),
{
    if s.len() == 0 {
        0
    } else {
        digits_value(s.drop_last()) * 10 + ((s.last() as int - 48) as nat)
    }
}

/// `s` holds ASCII digits only.
pub open spec fn all_ascii_digits(s: Seq<char>) -> bool {
    forall|i: int| 0 <= i < s.len() ==> is_ascii_digit(#[trigger] s[i])
}

/// `s` without a leading `+`, if it has one.
pub open spec fn unsigned_part(s: Seq<char>) -> Seq<char> {
    if s.len() > 0 && s[0] == '+' {
        s.drop_first()
    } else {
        s
    }
}

/// What `str::parse::<u64>` accepts: an optional `+` followed by at least
/// one ASCII digit and nothing else, whose value fits in a `u64`.
pub open spec fn parse_u64(s: Seq<char>) -> Option<u64> {
    let d = unsigned_part(s);
    if d.len() > 0 && all_ascii_digits(d) && digits_value(d) <= u64::MAX {
        Some(digits_value(d) as u64)
    } else {
        None
    }
}

/// Extending a text of digits never lowers its value.
proof fn lemma_digits_value_grows(d: Seq<char>, j: int, k: int)
    requires
        0 <= j <= k <= d.len(),
        all_ascii_digits(d),
    ensures
        digits_value(d.subrange(0, j)) <= digits_value(d.subrange(0, k)),
    decreases k - j,
{
    if j < k {
        lemma_digits_value_grows(d, j, k - 1);
        assert(d.subrange(0, k).drop_last() =~= d.subrange(0, k - 1));
        assert(is_ascii_digit(d[k - 1]));
    }
}

/// The number that `s` denotes, as `str::parse::<u64>` reads it.
pub fn parse_u64_decimal(s: &str) -> (r: Option<u64>)
    ensures
        r == parse_u64(s@),
{
    let len = s.unicode_len();
    let mut start: usize = 0;
    if len > 0 && s.get_char(0) == '+' {
        start = 1;
    }
    let ghost d = s@.subrange(start as int, len as int);
    assert(d =~= unsigned_part(s@));
    if start >= len {
        return None;
    }
    let mut acc: u64 = 0;
    let mut i = start;
    assert(d.subrange(0, 0) =~= Seq::<char>::empty());
    while i < len
        invariant
            start <= i <= len,
            start < len,
            len == s@.len(),
            d == s@.subrange(start as int, len as int),
            d == unsigned_part(s@),
            forall|k: int| 0 <= k < i - start ==> is_ascii_digit(#[trigger] d[k]),
            acc as nat == digits_value(d.subrange(0, i - start)),
        decreases len - i,
    {
        let c = s.get_char(i);
        assert(c == d[i - start]);
        if !(c >= '0' && c <= '9') {
            assert(!is_ascii_digit(d[i - start]));
            return None;
        }
        let dig = (c as u32 - 48) as u64;
        assert(d.subrange(0, i + 1 - start).drop_last() =~= d.subrange(0, i - start));
        if acc > (u64::MAX - dig) / 10 {
            proof {
                assert(digits_value(d.subrange(0, i + 1 - start)) > u64::MAX) by (nonlinear_arith)
                    requires
                        acc > (u64::MAX - dig) / 10,
                        dig <= 9,
                        digits_value(d.subrange(0, i + 1 - start)) == acc * 10 + dig,
                ;
                if all_ascii_digits(d) {
                    lemma_digits_value_grows(d, i + 1 - start, d.len() as int);
                    assert(d.subrange(0, d.len() as int) =~= d);
                }
            }
            return None;
        }
        proof {
            assert(acc * 10 + dig <= u64::MAX) by (nonlinear_arith)
                requires
                    acc <= (u64::MAX - dig) / 10,
                    dig <= 9,
            ;
        }
        acc = acc * 10 + dig;
        i += 1;
    }
    assert(d.subrange(0, d.len() as int) =~= d);
    assert(all_ascii_digits(d));
    Some(acc)
}

} // verus!
