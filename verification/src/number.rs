//! Decimal numbers in text: partition numbers are read from a listing and
//! written back into device paths.

use vstd::prelude::*;

verus! {

/// `c` is one of the ten decimal digits.
pub open spec fn is_digit(c: char) -> bool {
    0x30 <= c as u32 <= 0x39
}

/// The value of a decimal digit.
pub open spec fn digit_value(c: char) -> int {
    c as u32 - 0x30
}

/// Every character of `s` is a decimal digit.
pub open spec fn all_digits(s: Seq<char>) -> bool {
    forall|i: int| 0 <= i < s.len() ==> is_digit(#[trigger] s[i])
}

/// The number that a run of decimal digits denotes; the empty run denotes 0.
pub open spec fn digits_value(s: Seq<char>) -> int
    decreases s.len(),
{
    if s.len() == 0 {
        0
    } else {
        digits_value(s.drop_last()) * 10 + digit_value(s.last())
    }
}

/// The integer that `s` denotes: an optional sign followed by at least one
/// decimal digit and nothing else.
pub open spec fn parse_int(s: Seq<char>) -> Option<int> {
    if s.len() > 0 && (s[0] == '+' || s[0] == '-') {
        let d = s.drop_first();
        if d.len() > 0 && all_digits(d) {
            Some(
                if s[0] == '-' {
                    -digits_value(d)
                } else {
                    digits_value(d)
                },
            )
        } else {
            None
        }
    } else if s.len() > 0 && all_digits(s) {
        Some(digits_value(s))
    } else {
        None
    }
}

/// The `i32` that `s` denotes, if it denotes an integer in range.
pub open spec fn parse_i32(s: Seq<char>) -> Option<i32> {
    match parse_int(s) {
        Some(n) => if i32::MIN <= n <= i32::MAX {
            Some(n as i32)
        } else {
            None
        },
        None => None,
    }
}

/// Executable [`parse_i32`].
pub fn parse_number(v: &Vec<char>) -> (r: Option<i32>)
    ensures
        r == parse_i32(v@),
{
    let n: usize = v.len();
    if n == 0 {
        return None;
    }
    let negative: bool = v[0] == '-';
    let start: usize = if v[0] == '-' || v[0] == '+' {
        1
    } else {
        0
    };
    if start == n {
        return None;
    }
    let ghost digits = v@.subrange(start as int, n as int);
    assert(digits == if start == 1 {
        v@.drop_first()
    } else {
        v@
    });
    let limit: i64 = 2147483648;
    let mut acc: i64 = 0;
    let mut big: bool = false;
    let mut i: usize = start;
    while i < n
        invariant
            n == v.len(),
            start <= i <= n,
            limit == 2147483648,
            digits == v@.subrange(start as int, n as int),
            start == 1 <==> (v@[0] == '+' || v@[0] == '-'),
            digits == if start == 1 {
                v@.drop_first()
            } else {
                v@
            },
            all_digits(v@.subrange(start as int, i as int)),
            0 <= acc <= limit,
            !big ==> acc == digits_value(v@.subrange(start as int, i as int)),
            big ==> digits_value(v@.subrange(start as int, i as int)) > limit,
        decreases n - i,
    {
        let c: char = v[i];
        let code: u32 = c as u32;
        if code < 0x30 || code > 0x39 {
            assert(!is_digit(digits[i - start]));
            return None;
        }
        let d: i64 = (code - 0x30) as i64;
        proof {
            let next = v@.subrange(start as int, i + 1);
            assert(next.drop_last() == v@.subrange(start as int, i as int));
            assert(next.last() == c);
            assert(all_digits(next)) by {
                assert forall|k: int| 0 <= k < next.len() implies is_digit(#[trigger] next[k]) by {
                    if k < next.len() - 1 {
                        assert(next[k] == v@.subrange(start as int, i as int)[k]);
                    }
                }
            }
        }
        if !big {
            let next: i64 = acc * 10 + d;
            if next > limit {
                big = true;
            } else {
                acc = next;
            }
        }
        i = i + 1;
    }
    assert(v@.subrange(start as int, n as int) == digits);
    if big {
        return None;
    }
    let value: i64 = if negative {
        -acc
    } else {
        acc
    };
    if value > 2147483647 {
        None
    } else {
        Some(value as i32)
    }
}

/// The character of a decimal digit.
pub open spec fn digit_char(d: int) -> char {
    ((d + 0x30) as u8) as char
}

/// The decimal digits of `n`, most significant first, without leading zeros.
pub open spec fn decimal(n: nat) -> Seq<char>
    decreases n,
{
    if n < 10 {
        seq![digit_char(n as int)]
    } else {
        decimal(n / 10).push(digit_char((n % 10) as int))
    }
}

/// How an integer is written: a minus sign for negative numbers, then the
/// decimal digits of its magnitude.
pub open spec fn int_text(i: int) -> Seq<char> {
    if i < 0 {
        seq!['-'] + decimal((-i) as nat)
    } else {
        decimal(i as nat)
    }
}

fn push_decimal(out: &mut Vec<char>, n: u64)
    ensures
        final(out)@ == old(out)@ + decimal(n as nat),
    decreases n,
{
    if n >= 10 {
        push_decimal(out, n / 10);
    }
    let d: u8 = (n % 10) as u8;
    let c: char = (d + 0x30) as char;
    assert(c == digit_char((n % 10) as int));
    let ghost before = out@;
    out.push(c);
    assert(final(out)@ == old(out)@ + decimal(n as nat)) by {
        if n >= 10 {
            assert(before == old(out)@ + decimal((n / 10) as nat));
            assert(before.push(c) == old(out)@ + decimal((n / 10) as nat).push(c));
        } else {
            assert(before.push(c) == old(out)@ + seq![c]);
        }
    }
}

/// Executable [`int_text`].
pub fn number_chars(i: i32) -> (r: Vec<char>)
    ensures
        r@ == int_text(i as int),
{
    let mut out: Vec<char> = Vec::new();
    if i < 0 {
        out.push('-');
        let magnitude: u64 = (-(i as i64)) as u64;
        assert(out@ == seq!['-']);
        push_decimal(&mut out, magnitude);
    } else {
        push_decimal(&mut out, i as u64);
        assert(Seq::<char>::empty() + decimal(i as nat) == decimal(i as nat));
    }
    out
}

} // verus!
