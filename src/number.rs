use vstd::prelude::*;

use crate::text::chars_of;

verus! {

/// The value of a hexadecimal digit byte, either case.
pub open spec fn hex_value(b: u8) -> Option<int> {
    if 48 <= b <= 57 {
        Some(b - 48)
    } else if 97 <= b <= 102 {
        Some(b - 87)
    } else if 65 <= b <= 70 {
        Some(b - 55)
    } else {
        None
    }
}

/// Two bytes read as a hexadecimal number the way `u8::from_str_radix` reads
/// them (two digits, or `+` and one digit), 255 when they are neither.
pub open spec fn hex_pair(b0: u8, b1: u8) -> u8 {
    match (hex_value(b0), hex_value(b1)) {
        (Some(h), Some(l)) => (16 * h + l) as u8,
        (None, Some(l)) => if b0 == 43 {
            l as u8
        } else {
            255
        },
        _ => 255,
    }
}

fn hex_value_exec(b: u8) -> (r: Option<u8>)
    ensures
        match hex_value(b) {
            Some(v) => r == Some(v as u8) && v < 16,
            None => r is None,
        },
{
    if 48 <= b && b <= 57 {
        Some(b - 48)
    } else if 97 <= b && b <= 102 {
        Some(b - 87)
    } else if 65 <= b && b <= 70 {
        Some(b - 55)
    } else {
        None
    }
}

/// Reads two bytes as a hexadecimal number, 255 when they are not one.
pub fn parse_hex_pair(b0: u8, b1: u8) -> (r: u8)
    ensures
        r == hex_pair(b0, b1),
{
    match (hex_value_exec(b0), hex_value_exec(b1)) {
        (Some(h), Some(l)) => 16 * h + l,
        (None, Some(l)) => if b0 == 43 {
            l
        } else {
            255
        },
        _ => 255,
    }
}

/// Whether a character is a decimal digit.
pub open spec fn is_digit(c: char) -> bool {
    '0' <= c <= '9'
}

/// The value of a string of decimal digits.
pub open spec fn digits_value(s: Seq<char>) -> int
    decreases s.len(),
{
    if s.len() == 0 {
        0
    } else {
        10 * digits_value(s.drop_last()) + (s.last() as int - '0' as int)
    }
}

/// The digits of a decimal number, without its optional leading `+`.
pub open spec fn unsigned_digits(s: Seq<char>) -> Seq<char> {
    if s.len() > 0 && s[0] == '+' {
        s.drop_first()
    } else {
        s
    }
}

/// The byte a string denotes the way `str::parse::<u8>` reads it: an
/// optional `+`, then at least one decimal digit, worth at most 255.
pub open spec fn decimal_u8(s: Seq<char>) -> Option<u8> {
    let d = unsigned_digits(s);
    if d.len() > 0 && (forall|i: int| 0 <= i < d.len() ==> is_digit(#[trigger] d[i]))
        && digits_value(d) <= 255 {
        Some(digits_value(d) as u8)
    } else {
        None
    }
}

proof fn lemma_digits_grow(d: Seq<char>, i: int)
    requires
        0 <= i <= d.len(),
        forall|k: int| 0 <= k < d.len() ==> is_digit(#[trigger] d[k]),
    ensures
        0 <= digits_value(d.take(i)) <= digits_value(d),
    decreases d.len(),
{
    if d.len() > 0 {
        let p = d.drop_last();
        assert forall|k: int| 0 <= k < p.len() implies is_digit(#[trigger] p[k]) by {
            assert(p[k] == d[k]);
        }
        if i < d.len() {
            lemma_digits_grow(p, i);
            assert(d.take(i) == p.take(i));
        }
        lemma_digits_grow(p, p.len() as int);
        assert(p.take(p.len() as int) == p);
        assert(is_digit(d[d.len() - 1]));
        if i == d.len() {
            assert(d.take(i) == d);
        }
    } else {
        assert(d.take(i) == d);
    }
}

/// Reads a string as a decimal byte: an optional `+`, then at least one
/// digit, worth at most 255.
pub fn parse_decimal_u8(s: &str) -> (r: Option<u8>)
    ensures
        r == decimal_u8(s@),
{
    let cs = chars_of(s);
    let start: usize = if cs.len() > 0 && cs[0] == '+' {
        1
    } else {
        0
    };
    let ghost d = unsigned_digits(s@);
    assert(d == cs@.subrange(start as int, cs@.len() as int));
    if start == cs.len() {
        return None;
    }
    let mut acc: u32 = 0;
    let mut i: usize = start;
    while i < cs.len()
        invariant
            start <= i <= cs@.len(),
            cs@ == s@,
            d == cs@.subrange(start as int, cs@.len() as int),
            d == unsigned_digits(s@),
            acc <= 255,
            acc == digits_value(d.take(i - start)),
            forall|k: int| 0 <= k < i - start ==> is_digit(#[trigger] d[k]),
        decreases cs@.len() - i,
    {
        let c = cs[i];
        assert(d[i - start] == cs@[i as int]);
        if !('0' <= c && c <= '9') {
            assert(!is_digit(d[i - start]));
            return None;
        }
        assert(d.take(i - start + 1).drop_last() == d.take(i - start));
        let next: u32 = acc * 10 + (c as u32 - '0' as u32);
        i += 1;
        if next > 255 {
            proof {
                assert(digits_value(d.take(i - start)) > 255);
                if forall|k: int| 0 <= k < d.len() ==> is_digit(#[trigger] d[k]) {
                    lemma_digits_grow(d, i - start);
                }
            }
            return None;
        }
        acc = next;
    }
    assert(d.take(i - start) == d);
    Some(acc as u8)
}

} // verus!
