//! Decimal integer text, as the standard library's integer parsing reads it.

use vstd::prelude::*;

use crate::text::{chars_of, push_char};

verus! {

pub open spec fn is_ascii_digit(c: char) -> bool {
    '0' <= c && c <= '9'
}

pub open spec fn digit_value(c: char) -> nat {
    (c as int - '0' as int) as nat
}

/// The value of a run of decimal digits, most significant first.
pub open spec fn decimal_value(s: Seq<char>) -> nat
    decreases s.len(),
{
    if s.len() == 0 {
        0
    } else {
        decimal_value(s.drop_last()) * 10 + digit_value(s.last())
    }
}

pub open spec fn all_ascii_digits(s: Seq<char>) -> bool {
    forall|i: int| 0 <= i < s.len() ==> is_ascii_digit(#[trigger] s[i])
}

/// The digits after an optional leading `+`.
pub open spec fn unsigned_digits(s: Seq<char>) -> Seq<char> {
    if s.len() > 0 && s[0] == '+' {
        s.drop_first()
    } else {
        s
    }
}

/// What `str::parse::<u32>` returns: an optional `+` and at least one ASCII
/// digit, within range; anything else is refused.
pub open spec fn parsed_u32(s: Seq<char>) -> Option<u32> {
    let d = unsigned_digits(s);
    if d.len() > 0 && all_ascii_digits(d) && decimal_value(d) <= u32::MAX {
        Some(decimal_value(d) as u32)
    } else {
        None
    }
}

/// What `str::parse::<i64>` returns: an optional sign and at least one ASCII
/// digit, within range; anything else is refused.
pub open spec fn parsed_i64(s: Seq<char>) -> Option<i64> {
    let negative = s.len() > 0 && s[0] == '-';
    let d = if negative {
        s.drop_first()
    } else {
        unsigned_digits(s)
    };
    if d.len() > 0 && all_ascii_digits(d) {
        if negative && decimal_value(d) <= 0x8000_0000_0000_0000 {
            Some((0 - decimal_value(d)) as i64)
        } else if !negative && decimal_value(d) <= i64::MAX {
            Some(decimal_value(d) as i64)
        } else {
            None
        }
    } else {
        None
    }
}

proof fn lemma_decimal_prefix_bound(s: Seq<char>, i: int)
    requires
        0 <= i <= s.len(),
    ensures
        decimal_value(s.subrange(0, i)) <= decimal_value(s),
    decreases s.len() - i,
{
    if i < s.len() {
        lemma_decimal_prefix_bound(s, i + 1);
        assert(s.subrange(0, i + 1).drop_last() =~= s.subrange(0, i));
    } else {
        assert(s.subrange(0, i) =~= s);
    }
}

/// Reads the value of a run of digits, refusing a value above `limit`.
fn digits_value(d: &Vec<char>, start: usize, limit: u128) -> (r: Option<u128>)
    requires
        start <= d@.len(),
        limit <= 0x8000_0000_0000_0000,
    ensures
        r is Some <==> (all_ascii_digits(d@.skip(start as int)) && decimal_value(d@.skip(start as int))
            <= limit),
        r matches Some(v) ==> v == decimal_value(d@.skip(start as int)),
{
    let ghost s = d@.skip(start as int);
    let mut acc: u128 = 0;
    let mut i: usize = start;
    proof {
        assert(s.subrange(0, 0) =~= Seq::<char>::empty());
    }
    while i < d.len()
        invariant
            s == d@.skip(start as int),
            start <= i <= d@.len(),
            limit <= 0x8000_0000_0000_0000,
            acc == decimal_value(s.subrange(0, i - start)),
            acc <= limit,
            forall|k: int| 0 <= k < i - start ==> is_ascii_digit(#[trigger] s[k]),
        decreases d@.len() - i,
    {
        let c = d[i];
        proof {
            assert(s[i - start] == c);
        }
        if !('0' <= c && c <= '9') {
            return None;
        }
        let dv = (c as u32 - '0' as u32) as u128;
        let next = acc * 10 + dv;
        proof {
            let p = s.subrange(0, i - start + 1);
            assert(p.drop_last() =~= s.subrange(0, i - start));
            assert(p.last() == c);
            assert(next == decimal_value(p));
        }
        if next > limit {
            proof {
                if all_ascii_digits(s) {
                    lemma_decimal_prefix_bound(s, i - start + 1);
                }
            }
            return None;
        }
        acc = next;
        i = i + 1;
    }
    proof {
        assert(s.subrange(0, i - start) =~= s);
    }
    Some(acc)
}

/// Parses a decimal `u32` as `str::parse::<u32>` does.
pub fn parse_u32(text: &str) -> (r: Option<u32>)
    ensures
        r == parsed_u32(text@),
{
    let d = chars_of(text);
    let start: usize = if d.len() > 0 && d[0] == '+' {
        1
    } else {
        0
    };
    proof {
        if start == 1 {
            assert(d@.skip(1) =~= text@.drop_first());
        } else {
            assert(d@.skip(0) =~= text@);
        }
    }
    if start == d.len() {
        return None;
    }
    match digits_value(&d, start, 0xFFFF_FFFF) {
        Some(v) => Some(v as u32),
        None => None,
    }
}

/// Parses a decimal `i64` as `str::parse::<i64>` does.
pub fn parse_i64(text: &str) -> (r: Option<i64>)
    ensures
        r == parsed_i64(text@),
{
    let d = chars_of(text);
    let negative = d.len() > 0 && d[0] == '-';
    let start: usize = if d.len() > 0 && (d[0] == '+' || d[0] == '-') {
        1
    } else {
        0
    };
    proof {
        if start == 1 {
            assert(d@.skip(1) =~= text@.drop_first());
        } else {
            assert(d@.skip(0) =~= text@);
        }
    }
    if start == d.len() {
        return None;
    }
    if negative {
        match digits_value(&d, start, 0x8000_0000_0000_0000) {
            Some(v) => Some((0 - (v as i128)) as i64),
            None => None,
        }
    } else {
        match digits_value(&d, start, 0x7FFF_FFFF_FFFF_FFFF) {
            Some(v) => Some(v as i64),
            None => None,
        }
    }
}

/// The character of the decimal digit `d`, for `d` in `0..10`.
pub open spec fn digit_char(d: nat) -> char {
    (d + 48) as char
}

/// The decimal spelling that `to_string` gives an unsigned integer: its
/// digits, most significant first, with no sign and no leading zero.
pub open spec fn decimal_of(n: nat) -> Seq<char>
    decreases n,
{
    if n < 10 {
        seq![digit_char(n)]
    } else {
        decimal_of(n / 10).push(digit_char(n % 10))
    }
}

fn digit_to_char(d: u64) -> (c: char)
    requires
        d < 10,
    ensures
        c == digit_char(d as nat),
{
    ((d as u8) + 48u8) as char
}

/// Appends the decimal spelling of `n`.
pub fn push_decimal(s: &mut String, n: u64)
    ensures
        final(s)@ == old(s)@ + decimal_of(n as nat),
    decreases n,
{
    if n >= 10 {
        push_decimal(s, n / 10);
    }
    push_char(s, digit_to_char(n % 10));
    proof {
        assert(s@ =~= old(s)@ + decimal_of(n as nat));
    }
}

/// The decimal spelling of `n`, as `n.to_string()` gives it.
pub fn decimal_text(n: u64) -> (r: String)
    ensures
        r@ == decimal_of(n as nat),
{
    let mut s = String::new();
    push_decimal(&mut s, n);
    proof {
        assert(s@ =~= decimal_of(n as nat));
    }
    s
}

/// A decimal spelling is not empty and holds only ASCII digits.
pub proof fn lemma_decimal_of_digits(n: nat)
    ensures
        decimal_of(n).len() > 0,
        all_ascii_digits(decimal_of(n)),
    decreases n,
{
    if n >= 10 {
        lemma_decimal_of_digits(n / 10);
        let d = decimal_of(n);
        assert forall|i: int| 0 <= i < d.len() implies is_ascii_digit(#[trigger] d[i]) by {
            if i < d.len() - 1 {
                assert(d[i] == decimal_of(n / 10)[i]);
            }
        }
    }
}

} // verus!
