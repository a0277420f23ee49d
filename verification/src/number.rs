//! Numbers as text.
use vstd::prelude::*;

use crate::text::{chars_of, is_digit};

verus! {

/// The character of a digit below ten.
pub open spec fn digit_char(d: int) -> char {
    (d + 48) as char
}

/// The decimal digits of a number, without leading zeros.
pub open spec fn decimal(n: int) -> Seq<char>
    decreases n,
{
    if n < 10 {
        seq![digit_char(n)]
    } else {
        decimal(n / 10).push(digit_char(n % 10))
    }
}

/// A signed number in decimal: a minus sign before the digits where it is
/// negative.
pub open spec fn signed_decimal(n: int) -> Seq<char> {
    if n < 0 {
        seq!['-'] + decimal(-n)
    } else {
        decimal(n)
    }
}

/// A signed number in decimal that shows its sign, `+` for zero too.
pub open spec fn plus_decimal(n: int) -> Seq<char> {
    if n < 0 {
        seq!['-'] + decimal(-n)
    } else {
        seq!['+'] + decimal(n)
    }
}

/// The decimal digits of a number, without leading zeros.
pub fn print_u128(n: u128) -> (r: String)
    ensures
        r@ == decimal(n as int),
    decreases n,
{
    let d: u8 = (n % 10) as u8;
    let c: char = (d + 48) as char;
    if n < 10 {
        let mut s = String::new();
        s.push(c);
        assert(s@ == seq![digit_char(n as int)]);
        s
    } else {
        let mut s = print_u128(n / 10);
        s.push(c);
        s
    }
}

/// The decimal digits of a number, without leading zeros.
pub fn print_u64(n: u64) -> (r: String)
    ensures
        r@ == decimal(n as int),
{
    print_u128(n as u128)
}

/// The decimal digits of a number, without leading zeros.
pub fn print_usize(n: usize) -> (r: String)
    ensures
        r@ == decimal(n as int),
{
    print_u128(n as u128)
}

/// The decimal digits of a number, without leading zeros.
pub fn print_u32(n: u32) -> (r: String)
    ensures
        r@ == decimal(n as int),
{
    print_u128(n as u128)
}

/// The decimal digits of a number, without leading zeros.
pub fn print_u8(n: u8) -> (r: String)
    ensures
        r@ == decimal(n as int),
{
    print_u128(n as u128)
}

/// A signed number in decimal: a minus sign before the digits where it is
/// negative.
pub fn print_i64(n: i64) -> (r: String)
    ensures
        r@ == signed_decimal(n as int),
{
    if n < 0 {
        let mut s = String::new();
        s.push('-');
        let m: i128 = -(n as i128);
        s.append(print_u128(m as u128).as_str());
        assert(s@ == seq!['-'] + decimal(-(n as int)));
        s
    } else {
        print_u128(n as u128)
    }
}

/// A signed number in decimal that shows its sign, `+` for zero too.
pub fn print_plus(n: i64) -> (r: String)
    ensures
        r@ == plus_decimal(n as int),
{
    let mut s = String::new();
    if n < 0 {
        s.push('-');
        let m: i128 = -(n as i128);
        s.append(print_u128(m as u128).as_str());
        assert(s@ == seq!['-'] + decimal(-(n as int)));
    } else {
        s.push('+');
        s.append(print_u128(n as u128).as_str());
        assert(s@ == seq!['+'] + decimal(n as int));
    }
    s
}

// ---------------------------------------------------------------------------
// Hexadecimal
// ---------------------------------------------------------------------------
/// The character of a hexadecimal digit.
pub open spec fn hex_char(d: int) -> char {
    if d < 10 {
        (d + 48) as char
    } else {
        (d + 87) as char
    }
}

/// The last `width` hexadecimal digits of a number, most significant first.
pub open spec fn hex_digits(n: int, width: nat) -> Seq<char>
    decreases width,
{
    if width == 0 {
        Seq::empty()
    } else {
        hex_digits(n / 16, (width - 1) as nat).push(hex_char(n % 16))
    }
}

fn print_hex_digits(n: u64, width: u8) -> (r: String)
    ensures
        r@ == hex_digits(n as int, width as nat),
    decreases width,
{
    if width == 0 {
        String::new()
    } else {
        let mut s = print_hex_digits(n / 16, width - 1);
        let d: u8 = (n % 16) as u8;
        let c: char = if d < 10 {
            (d + 48) as char
        } else {
            (d + 87) as char
        };
        s.push(c);
        s
    }
}

/// A 64-bit number as sixteen hexadecimal digits.
pub fn print_hex(n: u64) -> (r: String)
    ensures
        r@ == hex_digits(n as int, 16),
{
    print_hex_digits(n, 16)
}

// ---------------------------------------------------------------------------
// Reading
// ---------------------------------------------------------------------------
/// Whether a text holds nothing but digits.
pub open spec fn all_digits(s: Seq<char>) -> bool {
    forall|i: int| 0 <= i < s.len() ==> is_digit(#[trigger] s[i])
}

/// The number that a run of decimal digits stands for.
pub open spec fn digits_value(s: Seq<char>) -> int
    decreases s.len(),
{
    if s.len() == 0 {
        0
    } else {
        digits_value(s.drop_last()) * 10 + (s.last() as int - 48)
    }
}

/// The number that a text of decimal digits stands for, with an optional plus
/// sign before it, where it is at most `max`.
pub open spec fn parsed(s: Seq<char>, max: int) -> Option<int> {
    let body = if s.len() > 0 && s[0] == '+' {
        s.skip(1)
    } else {
        s
    };
    if body.len() > 0 && all_digits(body) && digits_value(body) <= max {
        Some(digits_value(body))
    } else {
        None
    }
}

/// More digits do not lower a value.
pub proof fn lemma_digits_value_grows(s: Seq<char>, i: int)
    requires
        all_digits(s),
        0 <= i <= s.len(),
    ensures
        0 <= digits_value(s.take(i)) <= digits_value(s),
    decreases s.len() - i, s.len(),
{
    if i == s.len() {
        assert(s.take(i) == s);
        if s.len() > 0 {
            assert(all_digits(s.drop_last())) by {
                assert forall|j: int| 0 <= j < s.drop_last().len() implies is_digit(
                    #[trigger] s.drop_last()[j],
                ) by {
                    assert(s[j] == s.drop_last()[j]);
                }
            }
            lemma_digits_value_grows(s.drop_last(), s.len() - 1);
            assert(s.drop_last().take(s.len() - 1) == s.drop_last());
            assert(is_digit(s[s.len() - 1]));
        }
    } else {
        lemma_digits_value_grows(s, i + 1);
        assert(s.take(i + 1).drop_last() == s.take(i));
        assert(s.take(i + 1).last() == s[i]);
        assert(is_digit(s[i]));
        let t = s.take(i);
        assert(all_digits(t)) by {
            assert forall|j: int| 0 <= j < t.len() implies is_digit(#[trigger] t[j]) by {
                assert(s[j] == t[j]);
            }
        }
        lemma_digits_value_grows(t, t.len() as int);
        assert(t.take(t.len() as int) == t);
    }
}

/// Reads an unsigned 64-bit number.
pub fn read_u64(s: &str) -> (r: Option<u64>)
    ensures
        r matches Some(v) ==> parsed(s@, u64::MAX as int) == Some(v as int),
        r is None ==> parsed(s@, u64::MAX as int) is None,
{
    let chars = chars_of(s);
    let n: usize = chars.len();
    let start: usize = if n > 0 && chars[0] == '+' {
        1
    } else {
        0
    };
    let ghost body = if s@.len() > 0 && s@[0] == '+' {
        s@.skip(1)
    } else {
        s@
    };
    assert(body == s@.skip(start as int));
    if start == n {
        return None;
    }
    let mut value: u64 = 0;
    let mut i: usize = start;
    assert(body.take(0).len() == 0);
    while i < n
        invariant
            start <= i <= n,
            n == chars@.len(),
            chars@ == s@,
            body == s@.skip(start as int),
            body == (if s@.len() > 0 && s@[0] == '+' {
                s@.skip(1)
            } else {
                s@
            }),
            value == digits_value(body.take(i - start)),
            forall|j: int| 0 <= j < i - start ==> is_digit(#[trigger] body[j]),
        decreases n - i,
    {
        let c = chars[i];
        assert(body[i - start] == c);
        if c < '0' || c > '9' {
            assert(!is_digit(body[i - start]));
            assert(!all_digits(body));
            return None;
        }
        let d: u64 = (c as u64) - 48;
        assert(body.take(i - start + 1).drop_last() == body.take(i - start));
        assert(body.take(i - start + 1).last() == c);
        if value > (u64::MAX - d) / 10 {
            proof {
                assert(value * 10 + d > u64::MAX);
                if all_digits(body) {
                    lemma_digits_value_grows(body, i - start + 1);
                }
            }
            return None;
        }
        value = value * 10 + d;
        i = i + 1;
    }
    assert(body.take(body.len() as int) == body);
    Some(value)
}

/// Reads an unsigned 128-bit number.
pub fn read_u128(s: &str) -> (r: Option<u128>)
    ensures
        r matches Some(v) ==> parsed(s@, u128::MAX as int) == Some(v as int),
        r is None ==> parsed(s@, u128::MAX as int) is None,
{
    let chars = chars_of(s);
    let n: usize = chars.len();
    let start: usize = if n > 0 && chars[0] == '+' {
        1
    } else {
        0
    };
    let ghost body = if s@.len() > 0 && s@[0] == '+' {
        s@.skip(1)
    } else {
        s@
    };
    assert(body == s@.skip(start as int));
    if start == n {
        return None;
    }
    let mut value: u128 = 0;
    let mut i: usize = start;
    assert(body.take(0).len() == 0);
    while i < n
        invariant
            start <= i <= n,
            n == chars@.len(),
            chars@ == s@,
            body == s@.skip(start as int),
            body == (if s@.len() > 0 && s@[0] == '+' {
                s@.skip(1)
            } else {
                s@
            }),
            value == digits_value(body.take(i - start)),
            forall|j: int| 0 <= j < i - start ==> is_digit(#[trigger] body[j]),
        decreases n - i,
    {
        let c = chars[i];
        assert(body[i - start] == c);
        if c < '0' || c > '9' {
            assert(!is_digit(body[i - start]));
            assert(!all_digits(body));
            return None;
        }
        let d: u128 = (c as u128) - 48;
        assert(body.take(i - start + 1).drop_last() == body.take(i - start));
        assert(body.take(i - start + 1).last() == c);
        if value > (u128::MAX - d) / 10 {
            proof {
                assert(value * 10 + d > u128::MAX);
                if all_digits(body) {
                    lemma_digits_value_grows(body, i - start + 1);
                }
            }
            return None;
        }
        value = value * 10 + d;
        i = i + 1;
    }
    assert(body.take(body.len() as int) == body);
    Some(value)
}

/// Reads an unsigned machine-size number.
pub fn read_usize(s: &str) -> (r: Option<usize>)
    ensures
        r matches Some(v) ==> parsed(s@, usize::MAX as int) == Some(v as int),
        r is None ==> parsed(s@, usize::MAX as int) is None,
{
    match read_u64(s) {
        Some(v) => {
            if v <= usize::MAX as u64 {
                Some(v as usize)
            } else {
                None
            }
        },
        None => None,
    }
}

/// Reads an unsigned 32-bit number.
pub fn read_u32(s: &str) -> (r: Option<u32>)
    ensures
        r matches Some(v) ==> parsed(s@, u32::MAX as int) == Some(v as int),
        r is None ==> parsed(s@, u32::MAX as int) is None,
{
    match read_u64(s) {
        Some(v) => {
            if v <= u32::MAX as u64 {
                Some(v as u32)
            } else {
                None
            }
        },
        None => None,
    }
}

/// A number is read back from its decimal digits: there is at least one, and there is no zero
/// before the others.
pub proof fn law_decimals_are_read_back(n: int)
    requires
        0 <= n,
    ensures
        all_digits(decimal(n)),
        decimal(n).len() >= 1,
        digits_value(decimal(n)) == n,
        n >= 10 ==> decimal(n)[0] != '0',
        n > 0 ==> decimal(n)[0] != '0',
    decreases n,
{
    if n < 10 {
        let one = decimal(n);
        assert(one.drop_last().len() == 0);
        reveal_with_fuel(digits_value, 2);
        assert(one[0] as int == n + 48);
    } else {
        let rest = decimal(n / 10);
        law_decimals_are_read_back(n / 10);
        let all = decimal(n);
        assert(all.drop_last() =~= rest);
        assert(all.last() as int == n % 10 + 48);
        assert(all[0] == rest[0]);
    }
}

} // verus!
