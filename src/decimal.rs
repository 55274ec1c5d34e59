//! Decimal text of integers, as the metadata hash stores them.

use vstd::prelude::*;

verus! {

/// The character of a decimal digit.
pub open spec fn digit_char(d: nat) -> char
    recommends
        d < 10,
{
    ((d + 48) as u8) as char
}

/// Whether `c` is a decimal digit.
pub open spec fn is_digit(c: char) -> bool {
    '0' <= c && c <= '9'
}

/// The value of a decimal digit character.
pub open spec fn digit_value(c: char) -> nat {
    (c as nat - 48) as nat
}

/// The shortest decimal text of `n`.
pub open spec fn digits_of(n: nat) -> Seq<char>
    decreases n,
{
    if n < 10 {
        seq![digit_char(n)]
    } else {
        digits_of(n / 10).push(digit_char(n % 10))
    }
}

/// The decimal text of `v`, with `-` before a negative value.
pub open spec fn decimal_of(v: int) -> Seq<char> {
    if v < 0 {
        seq!['-'] + digits_of((-v) as nat)
    } else {
        digits_of(v as nat)
    }
}

/// Whether every character of `s` is a decimal digit.
pub open spec fn all_digits(s: Seq<char>) -> bool {
    forall|i: int| 0 <= i < s.len() ==> is_digit(#[trigger] s[i])
}

/// The value of a string of decimal digits.
pub open spec fn value_of(s: Seq<char>) -> nat
    decreases s.len(),
{
    if s.len() == 0 {
        0
    } else {
        value_of(s.drop_last()) * 10 + digit_value(s.last())
    }
}

/// The value that an unsigned decimal text stands for: an optional `+`,
/// then one digit or more.
pub open spec fn unsigned_text_value(s: Seq<char>) -> Option<nat> {
    let body = if s.len() > 0 && s[0] == '+' {
        s.drop_first()
    } else {
        s
    };
    if body.len() > 0 && all_digits(body) {
        Some(value_of(body))
    } else {
        None
    }
}

/// The value that a signed decimal text stands for: an optional `+` or `-`,
/// then one digit or more.
pub open spec fn signed_text_value(s: Seq<char>) -> Option<int> {
    if s.len() > 0 && s[0] == '-' {
        let body = s.drop_first();
        if body.len() > 0 && all_digits(body) {
            Some(-(value_of(body) as int))
        } else {
            None
        }
    } else {
        match unsigned_text_value(s) {
            Some(v) => Some(v as int),
            None => None,
        }
    }
}

/// What `u32` text parses to: its value where it is in range.
pub open spec fn parse_u32_spec(s: Seq<char>) -> Option<u32> {
    match unsigned_text_value(s) {
        Some(v) => if v <= u32::MAX {
            Some(v as u32)
        } else {
            None
        },
        None => None,
    }
}

/// What `i64` text parses to: its value where it is in range.
pub open spec fn parse_i64_spec(s: Seq<char>) -> Option<i64> {
    match signed_text_value(s) {
        Some(v) => if i64::MIN <= v <= i64::MAX {
            Some(v as i64)
        } else {
            None
        },
        None => None,
    }
}

/// The shortest decimal text of `n` is digits alone, and reads back as `n`.
pub proof fn lemma_digits_round_trip(n: nat)
    ensures
        all_digits(digits_of(n)),
        digits_of(n).len() > 0,
        value_of(digits_of(n)) == n,
        digits_of(n)[0] != '+' && digits_of(n)[0] != '-',
    decreases n,
{
    if n < 10 {
        assert(digits_of(n).drop_last() =~= Seq::<char>::empty());
        assert(value_of(Seq::<char>::empty()) == 0);
        assert(digit_value(digit_char(n)) == n);
    } else {
        lemma_digits_round_trip(n / 10);
        let s = digits_of(n);
        assert(s.drop_last() =~= digits_of(n / 10));
        assert(s.last() == digit_char(n % 10));
        assert(digit_value(digit_char(n % 10)) == n % 10);
        assert(n / 10 * 10 + n % 10 == n);
        assert(all_digits(s)) by {
            assert forall|i: int| 0 <= i < s.len() implies is_digit(#[trigger] s[i]) by {
                if i < s.len() - 1 {
                    assert(s[i] == digits_of(n / 10)[i]);
                }
            }
        }
    }
}

/// A `u32` written in decimal parses back to itself.
pub proof fn lemma_u32_round_trip(n: u32)
    ensures
        parse_u32_spec(decimal_of(n as int)) == Some(n),
{
    lemma_digits_round_trip(n as nat);
}

/// An `i64` written in decimal parses back to itself.
pub proof fn lemma_i64_round_trip(v: i64)
    ensures
        parse_i64_spec(decimal_of(v as int)) == Some(v),
{
    if v < 0 {
        let m = (-v) as nat;
        lemma_digits_round_trip(m);
        let s = decimal_of(v as int);
        assert(s.drop_first() =~= digits_of(m));
    } else {
        lemma_digits_round_trip(v as nat);
    }
}

/// The text of one decimal digit.
fn digit_text(d: u64) -> (r: String)
    requires
        d < 10,
    ensures
        r@ == seq![digit_char(d as nat)],
{
    let lit = if d == 0 {
        proof { reveal_strlit("0"); }
        "0"
    } else if d == 1 {
        proof { reveal_strlit("1"); }
        "1"
    } else if d == 2 {
        proof { reveal_strlit("2"); }
        "2"
    } else if d == 3 {
        proof { reveal_strlit("3"); }
        "3"
    } else if d == 4 {
        proof { reveal_strlit("4"); }
        "4"
    } else if d == 5 {
        proof { reveal_strlit("5"); }
        "5"
    } else if d == 6 {
        proof { reveal_strlit("6"); }
        "6"
    } else if d == 7 {
        proof { reveal_strlit("7"); }
        "7"
    } else if d == 8 {
        proof { reveal_strlit("8"); }
        "8"
    } else {
        proof { reveal_strlit("9"); }
        "9"
    };
    assert(lit@ =~= seq![digit_char(d as nat)]);
    String::from_str(lit)
}

/// The shortest decimal text of `n`.
pub fn format_u64(n: u64) -> (r: String)
    ensures
        r@ == digits_of(n as nat),
    decreases n,
{
    if n < 10 {
        digit_text(n)
    } else {
        let mut s = format_u64(n / 10);
        let d = digit_text(n % 10);
        s.append(d.as_str());
        s
    }
}

/// The decimal text of `v`, with `-` before a negative value.
pub fn format_i64(v: i64) -> (r: String)
    ensures
        r@ == decimal_of(v as int),
{
    if v < 0 {
        let m: u64 = if v == i64::MIN {
            9223372036854775808u64
        } else {
            (-v) as u64
        };
        proof {
            reveal_strlit("-");
        }
        let mut s = String::from_str("-");
        let digits = format_u64(m);
        s.append(digits.as_str());
        s
    } else {
        format_u64(v as u64)
    }
}

/// The value of the digits `s[start..]`, or `None` where a character is no
/// digit or the value exceeds `limit`.
fn digits_value(s: &str, start: usize, len: usize, limit: u64) -> (r: Option<u64>)
    requires
        len == s@.len(),
        start <= len,
    ensures
        r matches Some(v) ==> all_digits(s@.subrange(start as int, len as int)) && v == value_of(
            s@.subrange(start as int, len as int),
        ) && v <= limit,
        r is None ==> !all_digits(s@.subrange(start as int, len as int)) || value_of(
            s@.subrange(start as int, len as int),
        ) > limit,
{
    let mut acc: u64 = 0;
    let mut i: usize = start;
    while i < len
        invariant
            start <= i <= len,
            len == s@.len(),
            all_digits(s@.subrange(start as int, i as int)),
            acc as nat == value_of(s@.subrange(start as int, i as int)),
            acc <= limit,
        decreases len - i,
    {
        let c = s.get_char(i);
        let ghost prev = s@.subrange(start as int, i as int);
        let ghost next = s@.subrange(start as int, i + 1);
        assert(next.drop_last() =~= prev);
        assert(next.last() == c);
        if !('0' <= c && c <= '9') {
            assert(!is_digit(next[next.len() - 1]));
            proof {
                lemma_not_all_digits_extends(s@.subrange(start as int, len as int), (i - start) as int);
            }
            return None;
        }
        let d = (c as u32 - 48) as u64;
        let next_acc: u128 = acc as u128 * 10 + d as u128;
        if next_acc > limit as u128 {
            proof {
                lemma_value_grows(s@.subrange(start as int, len as int), (i + 1 - start) as int);
                assert(s@.subrange(start as int, len as int).subrange(0, (i + 1 - start) as int) =~= next);
            }
            return None;
        }
        acc = next_acc as u64;
        i = i + 1;
        assert(all_digits(next)) by {
            assert forall|j: int| 0 <= j < next.len() implies is_digit(#[trigger] next[j]) by {
                if j < next.len() - 1 {
                    assert(next[j] == prev[j]);
                }
            }
        }
    }
    Some(acc)
}

/// A string with a non-digit in its first `k + 1` characters is not all digits.
proof fn lemma_not_all_digits_extends(s: Seq<char>, k: int)
    requires
        0 <= k < s.len(),
        !is_digit(s[k]),
    ensures
        !all_digits(s),
{
}

/// The value of a string is at least that of each of its prefixes.
proof fn lemma_value_grows(s: Seq<char>, k: int)
    requires
        0 <= k <= s.len(),
    ensures
        value_of(s) >= value_of(s.subrange(0, k)),
    decreases s.len() - k,
{
    if k < s.len() {
        let t = s.subrange(0, k + 1);
        lemma_value_grows(s, k + 1);
        assert(t.drop_last() =~= s.subrange(0, k));
    } else {
        assert(s.subrange(0, k) =~= s);
    }
}

/// Parses unsigned decimal text: an optional `+`, then one digit or more,
/// with a value in range.
pub fn parse_u32(s: &str) -> (r: Option<u32>)
    ensures
        r == parse_u32_spec(s@),
{
    let len = s.unicode_len();
    let start: usize = if len > 0 && s.get_char(0) == '+' {
        1
    } else {
        0
    };
    proof {
        if start == 1 {
            assert(s@.subrange(1, len as int) =~= s@.drop_first());
        } else {
            assert(s@.subrange(0, len as int) =~= s@);
        }
    }
    if start >= len {
        return None;
    }
    match digits_value(s, start, len, 4294967295u64) {
        Some(v) => Some(v as u32),
        None => None,
    }
}

/// Parses signed decimal text: an optional `+` or `-`, then one digit or
/// more, with a value in range.
pub fn parse_i64(s: &str) -> (r: Option<i64>)
    ensures
        r == parse_i64_spec(s@),
{
    let len = s.unicode_len();
    if len > 0 && s.get_char(0) == '-' {
        proof {
            assert(s@.subrange(1, len as int) =~= s@.drop_first());
        }
        if len == 1 {
            return None;
        }
        match digits_value(s, 1, len, 9223372036854775808u64) {
            Some(v) => if v == 9223372036854775808u64 {
                Some(i64::MIN)
            } else {
                Some(-(v as i64))
            },
            None => None,
        }
    } else {
        let start: usize = if len > 0 && s.get_char(0) == '+' {
            1
        } else {
            0
        };
        proof {
            if start == 1 {
                assert(s@.subrange(1, len as int) =~= s@.drop_first());
            } else {
                assert(s@.subrange(0, len as int) =~= s@);
            }
        }
        if start >= len {
            return None;
        }
        match digits_value(s, start, len, 9223372036854775807u64) {
            Some(v) => Some(v as i64),
            None => None,
        }
    }
}

} // verus!
