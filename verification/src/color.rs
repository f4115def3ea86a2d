use vstd::prelude::*;

use crate::error::BannerError;
use crate::strutil::push_char;

verus! {

/// An RGB color: one 8-bit channel each for red, green and blue.
#[derive(Debug, Clone, Copy, PartialEq, Eq, Structural)]
pub struct Color {
    pub red: u8,
    pub green: u8,
    pub blue: u8,
}

/// A hexadecimal digit: `0`-`9`, `a`-`f` or `A`-`F`.
pub open spec fn spec_is_hex_digit(c: char) -> bool {
    ('0' <= c && c <= '9') || ('a' <= c && c <= 'f') || ('A' <= c && c <= 'F')
}

/// Numeric value of a hexadecimal digit.
pub open spec fn hex_digit_value(c: char) -> int {
    if '0' <= c && c <= '9' {
        c as int - '0' as int
    } else if 'a' <= c && c <= 'f' {
        c as int - 'a' as int + 10
    } else {
        c as int - 'A' as int + 10
    }
}

/// Every character of `s` is a hexadecimal digit.
pub open spec fn all_hex_digits(s: Seq<char>) -> bool {
    forall|i: int| 0 <= i < s.len() ==> spec_is_hex_digit(s[i])
}

/// The numeric value of a string of hexadecimal digits, most significant
/// digit first.
pub open spec fn hex_value(s: Seq<char>) -> int
    decreases s.len(),
{
    if s.len() == 0 {
        0
    } else {
        16 * hex_value(s.drop_last()) + hex_digit_value(s.last())
    }
}

/// A well-formed color string: exactly six hexadecimal digits.
pub open spec fn valid_hex_color(s: Seq<char>) -> bool {
    s.len() == 6 && all_hex_digits(s)
}

/// The color denoted by a well-formed color string: two digits per channel,
/// red first.
pub open spec fn spec_hex_color(s: Seq<char>) -> Color {
    Color {
        red: (16 * hex_digit_value(s[0]) + hex_digit_value(s[1])) as u8,
        green: (16 * hex_digit_value(s[2]) + hex_digit_value(s[3])) as u8,
        blue: (16 * hex_digit_value(s[4]) + hex_digit_value(s[5])) as u8,
    }
}

/// Whether `c` is a hexadecimal digit, in either case.
pub fn is_hex_digit(c: char) -> (r: bool)
    ensures
        r == spec_is_hex_digit(c),
{
    let v = c as u32;
    (48 <= v && v <= 57) || (97 <= v && v <= 102) || (65 <= v && v <= 70)
}

/// The numeric value of one hexadecimal digit character.
fn hex_digit_val(c: char) -> (r: u8)
    requires
        spec_is_hex_digit(c),
    ensures
        r as int == hex_digit_value(c),
        r <= 15,
{
    let v = c as u32;
    if 48 <= v && v <= 57 {
        (v - 48) as u8
    } else if 97 <= v && v <= 102 {
        (v - 97 + 10) as u8
    } else {
        (v - 65 + 10) as u8
    }
}

/// A hex prefix is never worth more than the whole string, when every digit
/// is a hex digit; and the value is never negative.
proof fn lemma_hex_prefix_le(s: Seq<char>, i: int)
    requires
        all_hex_digits(s),
        0 <= i <= s.len(),
    ensures
        0 <= hex_value(s.subrange(0, i)),
        hex_value(s.subrange(0, i)) <= hex_value(s),
    decreases s.len(),
{
    if s.len() == 0 {
        assert(s.subrange(0, i) =~= s);
    } else if i == s.len() {
        assert(s.subrange(0, i) =~= s);
        let t = s.drop_last();
        assert(all_hex_digits(t));
        lemma_hex_prefix_le(t, t.len() as int);
        assert(hex_digit_value(s.last()) >= 0);
    } else {
        let t = s.drop_last();
        assert(all_hex_digits(t));
        assert(s.subrange(0, i) =~= t.subrange(0, i));
        lemma_hex_prefix_le(t, i);
        assert(hex_digit_value(s.last()) >= 0);
    }
}

/// Parse a string of hexadecimal digits into a byte. Succeeds exactly on
/// non-empty all-hex strings whose value fits in eight bits.
pub fn from_hex(input: &str) -> (r: Result<u8, BannerError>)
    ensures
        r is Ok <==> (input@.len() > 0 && all_hex_digits(input@) && hex_value(input@) <= 255),
        r is Ok ==> r.unwrap() as int == hex_value(input@),
        r is Err ==> r.unwrap_err() == BannerError::MalformedColor,
{
    let n = input.unicode_len();
    let mut acc: u16 = 0;
    let mut i: usize = 0;
    while i < n
        invariant
            0 <= i <= n,
            n == input@.len(),
            all_hex_digits(input@.subrange(0, i as int)),
            acc as int == hex_value(input@.subrange(0, i as int)),
            acc <= 255,
        decreases n - i,
    {
        let c = input.get_char(i);
        if !is_hex_digit(c) {
            return Err(BannerError::MalformedColor);
        }
        let d = hex_digit_val(c);
        let next: u16 = acc * 16 + d as u16;
        proof {
            let p = input@.subrange(0, i as int);
            let q = input@.subrange(0, i + 1);
            assert(q.drop_last() =~= p);
            assert(q.last() == input@[i as int]);
            assert(next as int == hex_value(q));
        }
        if next > 255 {
            proof {
                if input@.len() > 0 && all_hex_digits(input@) && hex_value(input@) <= 255 {
                    lemma_hex_prefix_le(input@, i + 1);
                    assert(false);
                }
            }
            return Err(BannerError::MalformedColor);
        }
        acc = next;
        i = i + 1;
    }
    if n == 0 {
        return Err(BannerError::MalformedColor);
    }
    proof {
        assert(input@.subrange(0, n as int) =~= input@);
    }
    Ok(acc as u8)
}

/// Parse a six-hex-digit color string into a `Color`. All-or-nothing: any
/// other input, wrong length or stray character, is a malformed color.
pub fn hex_color(input: &str) -> (r: Result<Color, BannerError>)
    ensures
        r is Ok <==> valid_hex_color(input@),
        r is Ok ==> r.unwrap() == spec_hex_color(input@),
        r is Err ==> r.unwrap_err() == BannerError::MalformedColor,
{
    let n = input.unicode_len();
    if n != 6 {
        return Err(BannerError::MalformedColor);
    }
    let c0 = input.get_char(0);
    let c1 = input.get_char(1);
    let c2 = input.get_char(2);
    let c3 = input.get_char(3);
    let c4 = input.get_char(4);
    let c5 = input.get_char(5);
    if !(is_hex_digit(c0) && is_hex_digit(c1) && is_hex_digit(c2) && is_hex_digit(c3)
        && is_hex_digit(c4) && is_hex_digit(c5)) {
        return Err(BannerError::MalformedColor);
    }
    let red: u8 = 16 * hex_digit_val(c0) + hex_digit_val(c1);
    let green: u8 = 16 * hex_digit_val(c2) + hex_digit_val(c3);
    let blue: u8 = 16 * hex_digit_val(c4) + hex_digit_val(c5);
    Ok(Color { red, green, blue })
}

/// The lowercase hexadecimal digit character for a value below sixteen.
pub open spec fn hex_char_of(v: int) -> char {
    if v == 0 {
        '0'
    } else if v == 1 {
        '1'
    } else if v == 2 {
        '2'
    } else if v == 3 {
        '3'
    } else if v == 4 {
        '4'
    } else if v == 5 {
        '5'
    } else if v == 6 {
        '6'
    } else if v == 7 {
        '7'
    } else if v == 8 {
        '8'
    } else if v == 9 {
        '9'
    } else if v == 10 {
        'a'
    } else if v == 11 {
        'b'
    } else if v == 12 {
        'c'
    } else if v == 13 {
        'd'
    } else if v == 14 {
        'e'
    } else {
        'f'
    }
}

/// The six-character lowercase hexadecimal rendering of a color.
pub open spec fn spec_color_hex(c: Color) -> Seq<char> {
    seq![
        hex_char_of(c.red as int / 16),
        hex_char_of(c.red as int % 16),
        hex_char_of(c.green as int / 16),
        hex_char_of(c.green as int % 16),
        hex_char_of(c.blue as int / 16),
        hex_char_of(c.blue as int % 16),
    ]
}

/// The lowercase hexadecimal digit character for a byte value below sixteen.
fn hex_digit_char(v: u8) -> (r: char)
    requires
        v < 16,
    ensures
        r == hex_char_of(v as int),
{
    match v {
        0 => '0',
        1 => '1',
        2 => '2',
        3 => '3',
        4 => '4',
        5 => '5',
        6 => '6',
        7 => '7',
        8 => '8',
        9 => '9',
        10 => 'a',
        11 => 'b',
        12 => 'c',
        13 => 'd',
        14 => 'e',
        _ => 'f',
    }
}

/// Render a color as six lowercase hexadecimal digits, red channel first.
pub fn color_to_hex(c: &Color) -> (r: String)
    ensures
        r@ == spec_color_hex(*c),
{
    let mut out = String::new();
    push_char(&mut out, hex_digit_char(c.red / 16));
    push_char(&mut out, hex_digit_char(c.red % 16));
    push_char(&mut out, hex_digit_char(c.green / 16));
    push_char(&mut out, hex_digit_char(c.green % 16));
    push_char(&mut out, hex_digit_char(c.blue / 16));
    push_char(&mut out, hex_digit_char(c.blue % 16));
    proof {
        assert(out@ =~= spec_color_hex(*c));
    }
    out
}

/// One channel darkened by the fixed factor: the floor of three tenths of
/// its value.
pub open spec fn spec_darken_channel(v: u8) -> u8 {
    ((v as int) * 3 / 10) as u8
}

/// A color darkened channel by channel.
pub open spec fn spec_darken(c: Color) -> Color {
    Color {
        red: spec_darken_channel(c.red),
        green: spec_darken_channel(c.green),
        blue: spec_darken_channel(c.blue),
    }
}

/// Darken one channel by the fixed factor.
fn darken_channel(v: u8) -> (r: u8)
    ensures
        r == spec_darken_channel(v),
{
    let w: u16 = (v as u16) * 3 / 10;
    w as u8
}

/// Darken a color channel by channel.
pub fn darken_color(c: &Color) -> (r: Color)
    ensures
        r == spec_darken(*c),
{
    Color {
        red: darken_channel(c.red),
        green: darken_channel(c.green),
        blue: darken_channel(c.blue),
    }
}

/// Darken a six-hex-digit color string: parse it, scale each channel down by
/// the fixed factor, and render the result as lowercase hex.
pub fn darken(hex: &str) -> (r: String)
    requires
        valid_hex_color(hex@),
    ensures
        r@ == spec_color_hex(spec_darken(spec_hex_color(hex@))),
{
    let c = match hex_color(hex) {
        Ok(c) => c,
        Err(_) => {
            assert(false);
            Color { red: 0, green: 0, blue: 0 }
        },
    };
    let d = darken_color(&c);
    color_to_hex(&d)
}

/// The same string with its hexadecimal digits folded to lowercase; other
/// characters are left alone.
pub open spec fn lower_hex_char(c: char) -> char {
    if c == 'A' {
        'a'
    } else if c == 'B' {
        'b'
    } else if c == 'C' {
        'c'
    } else if c == 'D' {
        'd'
    } else if c == 'E' {
        'e'
    } else if c == 'F' {
        'f'
    } else {
        c
    }
}

/// Each character of a string folded to lowercase hex.
pub open spec fn lower_hex(s: Seq<char>) -> Seq<char> {
    s.map_values(|c: char| lower_hex_char(c))
}

/// A hexadecimal digit survives a parse-and-render round trip as its
/// lowercase form.
proof fn lemma_hex_digit_round_trip(c: char)
    requires
        spec_is_hex_digit(c),
    ensures
        hex_char_of(hex_digit_value(c)) == lower_hex_char(c),
{
}

/// Round trip: rendering the color parsed from a well-formed color string
/// reproduces the string, with its digits folded to lowercase.
pub proof fn lemma_hex_round_trip(s: Seq<char>)
    requires
        valid_hex_color(s),
    ensures
        spec_color_hex(spec_hex_color(s)) == lower_hex(s),
{
    let c = spec_hex_color(s);
    assert forall|i: int| 0 <= i < 6 implies spec_is_hex_digit(s[i]) by {}
    assert(c.red as int == 16 * hex_digit_value(s[0]) + hex_digit_value(s[1]));
    assert(c.red as int / 16 == hex_digit_value(s[0]));
    assert(c.red as int % 16 == hex_digit_value(s[1]));
    assert(c.green as int / 16 == hex_digit_value(s[2]));
    assert(c.green as int % 16 == hex_digit_value(s[3]));
    assert(c.blue as int / 16 == hex_digit_value(s[4]));
    assert(c.blue as int % 16 == hex_digit_value(s[5]));
    lemma_hex_digit_round_trip(s[0]);
    lemma_hex_digit_round_trip(s[1]);
    lemma_hex_digit_round_trip(s[2]);
    lemma_hex_digit_round_trip(s[3]);
    lemma_hex_digit_round_trip(s[4]);
    lemma_hex_digit_round_trip(s[5]);
    assert(spec_color_hex(c) =~= lower_hex(s));
}

} // verus!
