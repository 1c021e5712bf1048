//! Building display text: decimal and hexadecimal numerals and padding.
use vstd::prelude::*;

verus! {

/// The character of a hexadecimal digit (`0`-`9`, `A`-`F`).
pub open spec fn hex_digit(d: int) -> char {
    if d < 10 {
        (d + 48) as char
    } else {
        (d + 55) as char
    }
}

/// The decimal numeral of a natural number, without leading zeros.
pub open spec fn decimal_digits(n: nat) -> Seq<char>
    decreases n,
{
    if n < 10 {
        seq![hex_digit(n as int)]
    } else {
        decimal_digits(n / 10).push(hex_digit((n % 10) as int))
    }
}

/// The decimal numeral of an integer, with a leading `-` when negative.
pub open spec fn decimal(n: int) -> Seq<char> {
    if n < 0 {
        seq!['-'] + decimal_digits((-n) as nat)
    } else {
        decimal_digits(n as nat)
    }
}

/// The `count` lowest hexadecimal digits of `n`, most significant first.
pub open spec fn hex_digits(n: nat, count: nat) -> Seq<char>
    decreases count,
{
    if count == 0 {
        Seq::empty()
    } else {
        hex_digits(n / 16, (count - 1) as nat).push(hex_digit((n % 16) as int))
    }
}

/// The hexadecimal numeral of `n` with at least `width` digits, zero-padded.
pub open spec fn hex_min(n: nat, width: nat) -> Seq<char>
    decreases n + width,
{
    if n == 0 && width == 0 {
        Seq::empty()
    } else {
        hex_min(n / 16, if width > 0 { (width - 1) as nat } else { 0 }).push(hex_digit((n % 16) as int))
    }
}

/// `text` right-aligned in a field of `width` characters.
pub open spec fn pad_left(text: Seq<char>, width: nat) -> Seq<char> {
    if text.len() >= width {
        text
    } else {
        Seq::new((width - text.len()) as nat, |i: int| ' ') + text
    }
}

/// `text` left-aligned in a field of `width` characters.
pub open spec fn pad_right(text: Seq<char>, width: nat) -> Seq<char> {
    if text.len() >= width {
        text
    } else {
        text + Seq::new((width - text.len()) as nat, |i: int| ' ')
    }
}

/// The lower case hexadecimal digit character of `d` (`0`-`9`, `a`-`f`).
pub open spec fn lower_hex_digit(d: int) -> char {
    if d < 10 {
        (d + 48) as char
    } else {
        (d + 87) as char
    }
}

/// The lower case hexadecimal numeral of `n`, without leading zeros (`0` for zero).
pub open spec fn lower_hex(n: nat) -> Seq<char>
    decreases n,
{
    if n < 16 {
        seq![lower_hex_digit(n as int)]
    } else {
        lower_hex(n / 16).push(lower_hex_digit((n % 16) as int))
    }
}

/// Appends one character (std `String::push`).
#[verifier::external_body]
pub(crate) fn push_char(s: &mut String, c: char)
    ensures
        final(s)@ == old(s)@.push(c),
{
    s.push(c);
}

fn digit_char(d: u64) -> (c: char)
    requires
        d < 16,
    ensures
        c == hex_digit(d as int),
{
    let table: [char; 16] = ['0', '1', '2', '3', '4', '5', '6', '7', '8', '9', 'A', 'B', 'C', 'D', 'E', 'F'];
    let c = table[d as usize];
    assert(c == hex_digit(d as int)) by {
        assert(table@[d as int] == c);
        assert('0' as int == 48);
        assert('A' as int == 65);
        assert(table@ == seq!['0', '1', '2', '3', '4', '5', '6', '7', '8', '9', 'A', 'B', 'C', 'D', 'E', 'F']);
    }
    c
}

/// Appends the decimal numeral of `n`.
pub(crate) fn push_unsigned(s: &mut String, n: u64)
    ensures
        final(s)@ == old(s)@ + decimal_digits(n as nat),
    decreases n,
{
    if n >= 10 {
        push_unsigned(s, n / 10);
    }
    let c = digit_char(n % 10);
    push_char(s, c);
    assert(final(s)@ =~= old(s)@ + decimal_digits(n as nat)) by {
        if n >= 10 {
            assert(decimal_digits(n as nat) == decimal_digits((n / 10) as nat).push(c));
        }
    }
}

/// Appends the decimal numeral of `n`, with a leading `-` when negative.
pub(crate) fn push_signed(s: &mut String, n: i64)
    requires
        n > i64::MIN,
    ensures
        final(s)@ == old(s)@ + decimal(n as int),
{
    if n < 0 {
        push_char(s, '-');
        push_unsigned(s, (-n) as u64);
        assert(final(s)@ =~= old(s)@ + decimal(n as int));
    } else {
        push_unsigned(s, n as u64);
    }
}

/// Appends the `count` lowest hexadecimal digits of `n` (upper case).
pub(crate) fn push_hex(s: &mut String, n: u64, count: u32)
    ensures
        final(s)@ == old(s)@ + hex_digits(n as nat, count as nat),
    decreases count,
{
    if count > 0 {
        push_hex(s, n / 16, count - 1);
        let c = digit_char(n % 16);
        push_char(s, c);
        assert(final(s)@ =~= old(s)@ + hex_digits(n as nat, count as nat));
    }
}

/// Appends the upper case hexadecimal numeral of `n` with at least `width` digits.
pub(crate) fn push_hex_min(s: &mut String, n: u64, width: u32)
    ensures
        final(s)@ == old(s)@ + hex_min(n as nat, width as nat),
    decreases n + width,
{
    if n == 0 && width == 0 {
        assert(final(s)@ =~= old(s)@ + hex_min(n as nat, width as nat));
        return;
    }
    let w = if width > 0 {
        width - 1
    } else {
        0
    };
    push_hex_min(s, n / 16, w);
    let c = digit_char(n % 16);
    push_char(s, c);
    assert(final(s)@ =~= old(s)@ + hex_min(n as nat, width as nat));
}

/// Appends the lower case hexadecimal numeral of `n`.
pub(crate) fn push_lower_hex(s: &mut String, n: u64)
    ensures
        final(s)@ == old(s)@ + lower_hex(n as nat),
    decreases n,
{
    if n >= 16 {
        push_lower_hex(s, n / 16);
    }
    let d = n % 16;
    let c = if d < 10 {
        digit_char(d)
    } else {
        let table: [char; 6] = ['a', 'b', 'c', 'd', 'e', 'f'];
        let c = table[(d - 10) as usize];
        assert(c == lower_hex_digit(d as int)) by {
            assert(table@ == seq!['a', 'b', 'c', 'd', 'e', 'f']);
            assert('a' as int == 97);
        }
        c
    };
    assert(c == lower_hex_digit(d as int)) by {
        if d < 10 {
            assert(c == hex_digit(d as int));
        }
    }
    push_char(s, c);
    assert(final(s)@ =~= old(s)@ + lower_hex(n as nat));
}

/// Appends `text` left-aligned in a field of `width` characters.
pub(crate) fn push_padded_right(s: &mut String, text: &str, width: usize)
    ensures
        final(s)@ == old(s)@ + pad_right(text@, width as nat),
{
    let ghost start = s@;
    s.append(text);
    let len = text.unicode_len();
    let mut i = len;
    while i < width
        invariant
            len == text@.len(),
            len <= i <= width || i == len,
            s@ == start + text@ + Seq::new((i - len) as nat, |k: int| ' '),
        decreases width - i,
    {
        push_char(s, ' ');
        i = i + 1;
        assert(s@ =~= start + text@ + Seq::new((i - len) as nat, |k: int| ' '));
    }
    assert(s@ =~= start + pad_right(text@, width as nat));
}

/// Appends `text` right-aligned in a field of `width` characters.
pub(crate) fn push_padded(s: &mut String, text: &str, width: usize)
    ensures
        final(s)@ == old(s)@ + pad_left(text@, width as nat),
{
    let len = text.unicode_len();
    let mut i = len;
    let ghost start = s@;
    while i < width
        invariant
            len == text@.len(),
            len <= i <= width || i == len,
            s@ == start + Seq::new((i - len) as nat, |k: int| ' '),
        decreases width - i,
    {
        push_char(s, ' ');
        i = i + 1;
        assert(s@ =~= start + Seq::new((i - len) as nat, |k: int| ' '));
    }
    s.append(text);
    assert(s@ =~= start + pad_left(text@, width as nat));
}

} // verus!
