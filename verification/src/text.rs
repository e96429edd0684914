//! Decimal and hexadecimal rendering of integers, and the `key=value` lines
//! the loader and the observatory write into their reports.
use vstd::prelude::*;

verus! {

/// The lower-case digit for `d`: `0` to `9`, then `a` to `f`.
pub open spec fn digit_char(d: nat) -> char {
    if d == 0 {
        '0'
    } else if d == 1 {
        '1'
    } else if d == 2 {
        '2'
    } else if d == 3 {
        '3'
    } else if d == 4 {
        '4'
    } else if d == 5 {
        '5'
    } else if d == 6 {
        '6'
    } else if d == 7 {
        '7'
    } else if d == 8 {
        '8'
    } else if d == 9 {
        '9'
    } else if d == 10 {
        'a'
    } else if d == 11 {
        'b'
    } else if d == 12 {
        'c'
    } else if d == 13 {
        'd'
    } else if d == 14 {
        'e'
    } else {
        'f'
    }
}

/// `n` in decimal, without leading zeros (`0` for zero).
pub open spec fn decimal_text(n: nat) -> Seq<char>
    decreases n,
{
    if n < 10 {
        seq![digit_char(n)]
    } else {
        decimal_text(n / 10).push(digit_char(n % 10))
    }
}

/// `n` in lower-case hexadecimal, without leading zeros (`0` for zero).
pub open spec fn hex_text(n: nat) -> Seq<char>
    decreases n,
{
    if n < 16 {
        seq![digit_char(n)]
    } else {
        hex_text(n / 16).push(digit_char(n % 16))
    }
}

/// The value of a digit character (`0`-`9`, `A`-`F` or `a`-`f`), or `-1`
/// for any other character.
pub open spec fn digit_value(c: char) -> int {
    if '0' <= c && c <= '9' {
        c as int - '0' as int
    } else if 'A' <= c && c <= 'F' {
        c as int - 'A' as int + 10
    } else if 'a' <= c && c <= 'f' {
        c as int - 'a' as int + 10
    } else {
        -1
    }
}

/// The number a string of digits in `base`, most significant first, reads
/// as.
pub open spec fn digits_value(s: Seq<char>, base: int) -> int
    decreases s.len(),
{
    if s.len() == 0 {
        0
    } else {
        digits_value(s.drop_last(), base) * base + digit_value(s.last())
    }
}

/// Each digit character is a decimal digit or a lower-case hex digit with
/// the digit's value.
pub proof fn lemma_digit_char_value(d: nat)
    requires
        d < 16,
    ensures
        digit_value(digit_char(d)) == d,
        d < 10 ==> '0' <= digit_char(d) && digit_char(d) <= '9',
        10 <= d ==> 'a' <= digit_char(d) && digit_char(d) <= 'f',
{
}

/// Decimal text reads back as the number: every character a decimal digit,
/// no leading zero but for zero itself, and the digits' base-10 value is `n`.
pub proof fn lemma_decimal_text_reads_back(n: nat)
    ensures
        digits_value(decimal_text(n), 10) == n,
        decimal_text(n).len() >= 1,
        forall|i: int| 0 <= i < decimal_text(n).len() ==> '0' <= #[trigger] decimal_text(n)[i] && decimal_text(n)[i] <= '9',
        decimal_text(n)[0] == '0' ==> n == 0 && decimal_text(n).len() == 1,
    decreases n,
{
    if n < 10 {
        lemma_digit_char_value(n);
        let t = decimal_text(n);
        assert(t.drop_last() =~= Seq::<char>::empty());
        assert(digits_value(t.drop_last(), 10) == 0);
        assert(digits_value(t, 10) == digits_value(t.drop_last(), 10) * 10 + digit_value(t.last()));
    } else {
        lemma_decimal_text_reads_back(n / 10);
        lemma_digit_char_value(n % 10);
        let t = decimal_text(n);
        assert(t.drop_last() =~= decimal_text(n / 10));
        assert(t[0] == decimal_text(n / 10)[0]);
        assert(t.last() == digit_char(n % 10));
        assert(digits_value(t, 10) == digits_value(t.drop_last(), 10) * 10 + digit_value(t.last()));
        vstd::arithmetic::div_mod::lemma_fundamental_div_mod(n as int, 10);
    }
}

/// Hex text reads back as the number: every character a decimal digit or a
/// lower-case hex digit, no leading zero but for zero itself, and the digits'
/// base-16 value is `n`.
pub proof fn lemma_hex_text_reads_back(n: nat)
    ensures
        digits_value(hex_text(n), 16) == n,
        hex_text(n).len() >= 1,
        forall|i: int| 0 <= i < hex_text(n).len() ==> ('0' <= #[trigger] hex_text(n)[i] && hex_text(n)[i] <= '9') || (
            'a' <= hex_text(n)[i] && hex_text(n)[i] <= 'f'),
        hex_text(n)[0] == '0' ==> n == 0 && hex_text(n).len() == 1,
    decreases n,
{
    if n < 16 {
        lemma_digit_char_value(n);
        let t = hex_text(n);
        assert(t.drop_last() =~= Seq::<char>::empty());
        assert(digits_value(t.drop_last(), 16) == 0);
        assert(digits_value(t, 16) == digits_value(t.drop_last(), 16) * 16 + digit_value(t.last()));
    } else {
        lemma_hex_text_reads_back(n / 16);
        lemma_digit_char_value(n % 16);
        let t = hex_text(n);
        assert(t.drop_last() =~= hex_text(n / 16));
        assert(t[0] == hex_text(n / 16)[0]);
        assert(t.last() == digit_char(n % 16));
        assert(digits_value(t, 16) == digits_value(t.drop_last(), 16) * 16 + digit_value(t.last()));
        vstd::arithmetic::div_mod::lemma_fundamental_div_mod(n as int, 16);
    }
}

/// `0x` and `n` in lower-case hexadecimal: the alternate hex form.
pub open spec fn prefixed_hex_text(n: nat) -> Seq<char> {
    "0x"@ + hex_text(n)
}

/// `true` or `false`.
pub open spec fn bool_text(b: bool) -> Seq<char> {
    if b {
        "true"@
    } else {
        "false"@
    }
}

/// The line `key=value` and its newline.
pub open spec fn line(key: Seq<char>, value: Seq<char>) -> Seq<char> {
    key + "="@ + value + "\n"@
}

fn digit_str(d: u64) -> (r: &'static str)
    requires
        d < 16,
    ensures
        r@ == seq![digit_char(d as nat)],
{
    proof {
        reveal_strlit("0");
        reveal_strlit("1");
        reveal_strlit("2");
        reveal_strlit("3");
        reveal_strlit("4");
        reveal_strlit("5");
        reveal_strlit("6");
        reveal_strlit("7");
        reveal_strlit("8");
        reveal_strlit("9");
        reveal_strlit("a");
        reveal_strlit("b");
        reveal_strlit("c");
        reveal_strlit("d");
        reveal_strlit("e");
        reveal_strlit("f");
    }
    match d {
        0 => "0",
        1 => "1",
        2 => "2",
        3 => "3",
        4 => "4",
        5 => "5",
        6 => "6",
        7 => "7",
        8 => "8",
        9 => "9",
        10 => "a",
        11 => "b",
        12 => "c",
        13 => "d",
        14 => "e",
        _ => "f",
    }
}

/// Appends `n` in decimal.
pub fn push_decimal(s: &mut String, n: u64)
    ensures
        final(s)@ == old(s)@ + decimal_text(n as nat),
    decreases n,
{
    if n >= 10 {
        push_decimal(s, n / 10);
    }
    s.append(digit_str(n % 10));
    assert(decimal_text(n as nat) == if n < 10 {
        seq![digit_char(n as nat)]
    } else {
        decimal_text((n / 10) as nat).push(digit_char((n % 10) as nat))
    });
    assert(final(s)@ =~= old(s)@ + decimal_text(n as nat)) by {
        if n < 10 {
            assert(n % 10 == n);
        }
    }
}

fn push_hex_digits(s: &mut String, n: u64)
    ensures
        final(s)@ == old(s)@ + hex_text(n as nat),
    decreases n,
{
    if n >= 16 {
        push_hex_digits(s, n / 16);
    }
    s.append(digit_str(n % 16));
    assert(final(s)@ =~= old(s)@ + hex_text(n as nat)) by {
        if n < 16 {
            assert(n % 16 == n);
        }
    }
}

/// Appends `0x` and `n` in lower-case hexadecimal.
pub fn push_hex(s: &mut String, n: u64)
    ensures
        final(s)@ == old(s)@ + prefixed_hex_text(n as nat),
{
    s.append("0x");
    push_hex_digits(s, n);
    assert(final(s)@ =~= old(s)@ + prefixed_hex_text(n as nat));
}

/// Appends `true` or `false`.
pub fn push_bool(s: &mut String, b: bool)
    ensures
        final(s)@ == old(s)@ + bool_text(b),
{
    if b {
        s.append("true");
    } else {
        s.append("false");
    }
}

/// Appends the line `key=value`.
pub fn push_text_line(s: &mut String, key: &str, value: &str)
    ensures
        final(s)@ == old(s)@ + line(key@, value@),
{
    s.append(key);
    s.append("=");
    s.append(value);
    s.append("\n");
    assert(final(s)@ =~= old(s)@ + line(key@, value@));
}

/// Appends the line `key=n`, `n` in decimal.
pub fn push_decimal_line(s: &mut String, key: &str, n: u64)
    ensures
        final(s)@ == old(s)@ + line(key@, decimal_text(n as nat)),
{
    s.append(key);
    s.append("=");
    push_decimal(s, n);
    s.append("\n");
    assert(final(s)@ =~= old(s)@ + line(key@, decimal_text(n as nat)));
}

/// Appends the line `key=0x..`, `n` in lower-case hexadecimal.
pub fn push_hex_line(s: &mut String, key: &str, n: u64)
    ensures
        final(s)@ == old(s)@ + line(key@, prefixed_hex_text(n as nat)),
{
    s.append(key);
    s.append("=");
    push_hex(s, n);
    s.append("\n");
    assert(final(s)@ =~= old(s)@ + line(key@, prefixed_hex_text(n as nat)));
}

/// Appends the line `key=true` or `key=false`.
pub fn push_bool_line(s: &mut String, key: &str, b: bool)
    ensures
        final(s)@ == old(s)@ + line(key@, bool_text(b)),
{
    s.append(key);
    s.append("=");
    push_bool(s, b);
    s.append("\n");
    assert(final(s)@ =~= old(s)@ + line(key@, bool_text(b)));
}

} // verus!
