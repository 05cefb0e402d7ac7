//! Theme colors: `theme.toml` writes every color as `#rrggbb`; this reads
//! that notation into red, green and blue components.
use vstd::prelude::*;

verus! {

/// A color as its red, green and blue components.
#[derive(Clone, Copy, Debug, PartialEq, Eq, Structural)]
pub struct Rgb {
    pub r: u8,
    pub g: u8,
    pub b: u8,
}

/// The value of one hexadecimal digit (either case), if `c` is one.
pub open spec fn hex_digit(c: char) -> Option<int> {
    if '0' <= c && c <= '9' {
        Some(c as int - '0' as int)
    } else if 'a' <= c && c <= 'f' {
        Some(c as int - 'a' as int + 10)
    } else if 'A' <= c && c <= 'F' {
        Some(c as int - 'A' as int + 10)
    } else {
        None
    }
}

/// The byte written by the two hex digits `hi` and `lo`.
pub open spec fn hex_pair(hi: char, lo: char) -> Option<int> {
    match (hex_digit(hi), hex_digit(lo)) {
        (Some(h), Some(l)) => Some(16 * h + l),
        _ => None,
    }
}

/// The color `s` writes as `#` and six hex digits; nothing else is one.
pub open spec fn hex_color(s: Seq<char>) -> Option<Rgb> {
    if s.len() == 7 && s[0] == '#' {
        match (hex_pair(s[1], s[2]), hex_pair(s[3], s[4]), hex_pair(s[5], s[6])) {
            (Some(r), Some(g), Some(b)) => Some(Rgb { r: r as u8, g: g as u8, b: b as u8 }),
            _ => None,
        }
    } else {
        None
    }
}

/// The value of the hex digit `c` (see `hex_digit`).
fn hex_digit_value(c: char) -> (res: Option<u8>)
    ensures
        match hex_digit(c) {
            Some(v) => res == Some(v as u8) && 0 <= v < 16,
            None => res is None,
        },
{
    let n = c as u32;
    if '0' <= c && c <= '9' {
        Some((n - 48) as u8)
    } else if 'a' <= c && c <= 'f' {
        Some((n - 97 + 10) as u8)
    } else if 'A' <= c && c <= 'F' {
        Some((n - 65 + 10) as u8)
    } else {
        None
    }
}

/// The byte written by two hex digits (see `hex_pair`).
fn hex_pair_value(hi: char, lo: char) -> (res: Option<u8>)
    ensures
        match hex_pair(hi, lo) {
            Some(v) => res == Some(v as u8) && 0 <= v < 256,
            None => res is None,
        },
{
    match (hex_digit_value(hi), hex_digit_value(lo)) {
        (Some(h), Some(l)) => Some(h * 16 + l),
        _ => None,
    }
}

/// Reads a `#rrggbb` color (see `hex_color`); `None` for anything else.
pub fn parse_hex_color(s: &str) -> (res: Option<Rgb>)
    ensures
        res == hex_color(s@),
{
    let cs = crate::text::chars_of(s);
    if cs.len() != 7 || cs[0] != '#' {
        return None;
    }
    let r = hex_pair_value(cs[1], cs[2]);
    let g = hex_pair_value(cs[3], cs[4]);
    let b = hex_pair_value(cs[5], cs[6]);
    match (r, g, b) {
        (Some(r), Some(g), Some(b)) => Some(Rgb { r, g, b }),
        _ => None,
    }
}

/// The lowercase hex digit for `d` (below 16).
pub open spec fn hex_char(d: int) -> char {
    if d < 10 {
        ('0' as int + d) as char
    } else {
        ('a' as int + d - 10) as char
    }
}

/// The `#rrggbb` text of a color, in lowercase.
pub open spec fn hex_text(c: Rgb) -> Seq<char> {
    seq![
        '#',
        hex_char((c.r / 16) as int),
        hex_char((c.r % 16) as int),
        hex_char((c.g / 16) as int),
        hex_char((c.g % 16) as int),
        hex_char((c.b / 16) as int),
        hex_char((c.b % 16) as int),
    ]
}

proof fn lemma_hex_char(d: int)
    requires
        0 <= d < 16,
    ensures
        hex_digit(hex_char(d)) == Some(d),
{
    if d < 10 {
        assert(('0' as int + d) as char as int == '0' as int + d);
    } else {
        assert(('a' as int + d - 10) as char as int == 'a' as int + d - 10);
    }
}

proof fn lemma_hex_pair(v: u8)
    ensures
        hex_pair(hex_char((v / 16) as int), hex_char((v % 16) as int)) == Some(v as int),
{
    lemma_hex_char((v / 16) as int);
    lemma_hex_char((v % 16) as int);
    assert(16 * (v / 16) + v % 16 == v) by (nonlinear_arith);
}

/// Every color reads back from its `#rrggbb` text: the components are
/// neither swapped nor changed.
pub proof fn lemma_hex_color_reads_back(c: Rgb)
    ensures
        hex_color(hex_text(c)) == Some(c),
{
    lemma_hex_pair(c.r);
    lemma_hex_pair(c.g);
    lemma_hex_pair(c.b);
    let t = hex_text(c);
    assert(t.len() == 7);
    assert(t[1] == hex_char((c.r / 16) as int) && t[2] == hex_char((c.r % 16) as int));
    assert(t[3] == hex_char((c.g / 16) as int) && t[4] == hex_char((c.g % 16) as int));
    assert(t[5] == hex_char((c.b / 16) as int) && t[6] == hex_char((c.b % 16) as int));
}

/// Upper-case hex digits mean what the lower-case ones do, and nothing but
/// `0`-`9`, `a`-`f` and `A`-`F` is a hex digit.
pub proof fn lemma_hex_digit_case(d: int, c: char)
    requires
        10 <= d < 16,
    ensures
        hex_digit(('A' as int + d - 10) as char) == Some(d),
        hex_digit(('a' as int + d - 10) as char) == Some(d),
        hex_digit(c) is Some <==> ('0' <= c <= '9' || 'a' <= c <= 'f' || 'A' <= c <= 'F'),
{
    assert(('A' as int + d - 10) as char as int == 'A' as int + d - 10);
    assert(('a' as int + d - 10) as char as int == 'a' as int + d - 10);
}

} // verus!
