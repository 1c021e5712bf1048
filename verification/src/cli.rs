//! Reading the addresses given on the command line.
use vstd::prelude::*;

use crate::text::{decimal_digits, hex_digit, hex_min};

verus! {

/// The value of `c` as a digit in base `radix` (10 or 16), as std
/// `char::to_digit` gives it.
pub open spec fn digit_value(c: char, radix: nat) -> Option<nat> {
    if '0' <= c <= '9' {
        Some((c as nat - '0' as nat) as nat)
    } else if radix == 16 && 'a' <= c <= 'f' {
        Some((c as nat - 'a' as nat + 10) as nat)
    } else if radix == 16 && 'A' <= c <= 'F' {
        Some((c as nat - 'A' as nat + 10) as nat)
    } else {
        None
    }
}

/// The number that the digits in base `radix` stand for, most significant
/// first; `None` where one is no digit.
pub open spec fn digits_value(s: Seq<char>, radix: nat) -> Option<nat>
    decreases s.len(),
{
    if s.len() == 0 {
        Some(0)
    } else {
        match (digits_value(s.drop_last(), radix), digit_value(s.last(), radix)) {
            (Some(high), Some(low)) => Some(high * radix + low),
            _ => None,
        }
    }
}

/// The value of an unsigned numeral as std `from_str_radix` reads it: an
/// optional `+` followed by at least one digit.
pub open spec fn numeral_value(s: Seq<char>, radix: nat) -> Option<nat> {
    let digits = if s.len() > 0 && s[0] == '+' { s.skip(1) } else { s };
    if digits.len() == 0 {
        None
    } else {
        digits_value(digits, radix)
    }
}

/// The text with every leading `0x` removed (std `trim_start_matches("0x")`).
pub open spec fn strip_hex_prefixes(s: Seq<char>) -> Seq<char>
    decreases s.len(),
{
    if s.len() >= 2 && s[0] == '0' && s[1] == 'x' {
        strip_hex_prefixes(s.skip(2))
    } else {
        s
    }
}

/// The address a command line text stands for: hexadecimal after `0x`,
/// else decimal.
pub open spec fn address_value(text: Seq<char>) -> Option<nat> {
    if text.len() >= 2 && text[0] == '0' && text[1] == 'x' {
        numeral_value(strip_hex_prefixes(text), 16)
    } else {
        numeral_value(text, 10)
    }
}

fn digit(c: char, radix: u32) -> (r: Option<u32>)
    requires
        radix == 10 || radix == 16,
    ensures
        r matches Some(v) ==> digit_value(c, radix as nat) == Some(v as nat),
        r is None ==> digit_value(c, radix as nat) is None,
{
    if '0' <= c && c <= '9' {
        Some((c as u32) - ('0' as u32))
    } else if radix == 16 && 'a' <= c && c <= 'f' {
        Some((c as u32) - ('a' as u32) + 10)
    } else if radix == 16 && 'A' <= c && c <= 'F' {
        Some((c as u32) - ('A' as u32) + 10)
    } else {
        None
    }
}

proof fn lemma_digits_none(s: Seq<char>, radix: nat, k: int)
    requires
        0 <= k <= s.len(),
        digits_value(s.take(k), radix) is None,
    ensures
        digits_value(s, radix) is None,
    decreases s.len() - k,
{
    if k < s.len() {
        assert(s.take(k + 1).drop_last() =~= s.take(k));
        lemma_digits_none(s, radix, k + 1);
    } else {
        assert(s.take(k) =~= s);
    }
}

proof fn lemma_digits_grow(s: Seq<char>, radix: nat, k: int, bound: nat)
    requires
        0 <= k <= s.len(),
        2 <= radix,
        digits_value(s.take(k), radix) matches Some(v) && v > bound,
        digits_value(s, radix) is Some,
    ensures
        digits_value(s, radix)->Some_0 > bound,
    decreases s.len() - k,
{
    if k < s.len() {
        assert(s.take(k + 1).drop_last() =~= s.take(k));
        let v = digits_value(s.take(k), radix)->Some_0;
        if digits_value(s.take(k + 1), radix) is None {
            lemma_digits_none(s, radix, k + 1);
        } else {
            assert(v * radix >= v) by (nonlinear_arith)
                requires
                    radix >= 2,
            ;
            lemma_digits_grow(s, radix, k + 1, bound);
        }
    } else {
        assert(s.take(k) =~= s);
    }
}

/// The value of the digits of `s` from `start` on in base `radix`, where it fits a `usize`.
fn parse_digits(s: &str, start: usize, radix: u32) -> (r: Option<usize>)
    requires
        radix == 10 || radix == 16,
        start <= s@.len(),
    ensures
        r == (match digits_value(s@.skip(start as int), radix as nat) {
            Some(v) => if v <= usize::MAX { Some(v as usize) } else { None },
            None => None,
        }),
{
    let n = s.unicode_len();
    let ghost d = s@.skip(start as int);
    let mut value: usize = 0;
    let mut i = start;
    while i < n
        invariant
            n == s@.len(),
            start <= i <= n,
            radix == 10 || radix == 16,
            d == s@.skip(start as int),
            digits_value(d.take(i - start), radix as nat) == Some(value as nat),
        decreases n - i,
    {
        let c = s.get_char(i);
        assert(d.take(i - start + 1).drop_last() =~= d.take(i - start));
        assert(d[i - start] == c);
        let dv = match digit(c, radix) {
            Some(v) => v,
            None => {
                proof {
                    lemma_digits_none(d, radix as nat, i - start + 1);
                }
                return None;
            },
        };
        let next = match value.checked_mul(radix as usize) {
            Some(m) => m.checked_add(dv as usize),
            None => None,
        };
        match next {
            Some(v) => {
                value = v;
            },
            None => {
                proof {
                    if digits_value(d, radix as nat) is Some {
                        lemma_digits_grow(d, radix as nat, i - start + 1, usize::MAX as nat);
                    }
                }
                return None;
            },
        }
        i = i + 1;
    }
    assert(d.take(i - start) =~= d);
    Some(value)
}

/// The value of an unsigned numeral in base `radix` from `start` on; see `numeral_value`.
fn parse_numeral(s: &str, start: usize, radix: u32) -> (r: Option<usize>)
    requires
        radix == 10 || radix == 16,
        start <= s@.len(),
    ensures
        r == (match numeral_value(s@.skip(start as int), radix as nat) {
            Some(v) => if v <= usize::MAX { Some(v as usize) } else { None },
            None => None,
        }),
{
    let n = s.unicode_len();
    let first = if start < n && s.get_char(start) == '+' {
        start + 1
    } else {
        start
    };
    assert(s@.skip(first as int) =~= if first > start { s@.skip(start as int).skip(1) } else { s@.skip(start as int) });
    if first == n {
        return None;
    }
    parse_digits(s, first, radix)
}

/// The address `text` stands for (see `address_value`), where it fits a `usize`.
pub fn parse_usize(text: &str) -> (r: Option<usize>)
    ensures
        r == (match address_value(text@) {
            Some(v) => if v <= usize::MAX { Some(v as usize) } else { None },
            None => None,
        }),
{
    let n = text.unicode_len();
    if n >= 2 && text.get_char(0) == '0' && text.get_char(1) == 'x' {
        let mut start: usize = 0;
        assert(text@.skip(0) =~= text@);
        while n - start >= 2 && text.get_char(start) == '0' && text.get_char(start + 1) == 'x'
            invariant
                n == text@.len(),
                start <= n,
                strip_hex_prefixes(text@.skip(start as int)) == strip_hex_prefixes(text@),
            decreases n - start,
        {
            assert(text@.skip(start as int).skip(2) =~= text@.skip(start + 2));
            assert(text@.skip(start as int)[0] == '0' && text@.skip(start as int)[1] == 'x');
            start = start + 2;
        }
        assert(strip_hex_prefixes(text@.skip(start as int)) == text@.skip(start as int));
        parse_numeral(text, start, 16)
    } else {
        assert(text@.skip(0) =~= text@);
        parse_numeral(text, 0, 10)
    }
}

/// The address `text` stands for: hexadecimal after `0x`, else decimal.
pub fn usize_from_str(text: &str) -> (r: usize)
    requires
        address_value(text@) matches Some(v) && v <= usize::MAX,
    ensures
        r == address_value(text@)->Some_0,
{
    parse_usize(text).unwrap()
}

proof fn lemma_hex_digit_value(d: nat, radix: nat)
    requires
        d < radix,
        radix == 10 || radix == 16,
    ensures
        digit_value(hex_digit(d as int), radix) == Some(d),
        hex_digit(d as int) != '+',
        hex_digit(d as int) != 'x',
{
    if d < 10 {
        assert(('0' as nat) == 48);
        assert((hex_digit(d as int) as nat) == d + 48);
    } else {
        assert(('A' as nat) == 65);
        assert(('a' as nat) == 97);
        assert((hex_digit(d as int) as nat) == d + 55);
    }
}

proof fn lemma_decimal_digits(n: nat)
    ensures
        digits_value(decimal_digits(n), 10) == Some(n),
        decimal_digits(n).len() > 0,
        forall|i: int| 0 <= i < decimal_digits(n).len() ==> #[trigger] decimal_digits(n)[i] != '+' && decimal_digits(n)[i] != 'x',
    decreases n,
{
    if n < 10 {
        lemma_hex_digit_value(n, 10);
        assert(decimal_digits(n).drop_last() =~= Seq::<char>::empty());
        assert(digits_value(decimal_digits(n).drop_last(), 10) == Some(0nat));
        assert(decimal_digits(n).last() == hex_digit(n as int));
    } else {
        lemma_decimal_digits(n / 10);
        lemma_hex_digit_value(n % 10, 10);
        let s = decimal_digits(n / 10);
        assert(decimal_digits(n).drop_last() =~= s);
        assert(decimal_digits(n).last() == hex_digit((n % 10) as int));
        assert((n / 10) * 10 + n % 10 == n);
    }
}

proof fn lemma_hex_digits(n: nat, width: nat)
    ensures
        digits_value(hex_min(n, width), 16) == Some(n),
        n > 0 || width > 0 ==> hex_min(n, width).len() > 0,
        forall|i: int| 0 <= i < hex_min(n, width).len() ==> #[trigger] hex_min(n, width)[i] != '+' && hex_min(n, width)[i] != 'x',
    decreases n + width,
{
    if n == 0 && width == 0 {
    } else {
        let w = if width > 0 { (width - 1) as nat } else { 0 };
        lemma_hex_digits(n / 16, w);
        lemma_hex_digit_value(n % 16, 16);
        assert(hex_min(n, width).drop_last() =~= hex_min(n / 16, w));
        assert((n / 16) * 16 + n % 16 == n);
    }
}

/// An address written in decimal reads back as itself.
pub proof fn lemma_decimal_address(n: nat)
    ensures
        address_value(decimal_digits(n)) == Some(n),
{
    lemma_decimal_digits(n);
    let s = decimal_digits(n);
    assert(s[0] != '+');
    if s.len() >= 2 {
        assert(s[1] != 'x');
    }
}

/// An address written in hexadecimal after `0x` (upper case digits, as the
/// emulator prints addresses) reads back as itself.
pub proof fn lemma_hex_address(n: nat)
    ensures
        address_value(seq!['0', 'x'] + hex_min(n, 1)) == Some(n),
{
    lemma_hex_digits(n, 1);
    let h = hex_min(n, 1);
    let t = seq!['0', 'x'] + h;
    assert(t.skip(2) =~= h);
    assert(h[0] != '+');
    if h.len() >= 2 {
        assert(h[1] != 'x');
    }
    assert(strip_hex_prefixes(h) == h);
}

} // verus!
