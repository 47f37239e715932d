//! Hexadecimal color codec: `#RRGGBB` and `#AARRGGBB` tokens.
use vstd::prelude::*;

use crate::text::push_char;

verus! {

/// Which part of a color token is malformed.
#[derive(Clone, Copy, PartialEq, Eq, Structural, Debug)]
pub enum ColorComponent {
    Shape,
    Alpha,
    Red,
    Green,
    Blue,
}

/// A malformed hex color token, tagged with the failing component.
#[derive(Clone, Copy, PartialEq, Eq, Structural, Debug)]
pub enum ColorError {
    InvalidFormat(ColorComponent),
}

/// A parsed color; the variant records which textual form produced it.
#[derive(Clone, Copy, PartialEq, Eq, Structural, Debug)]
pub enum Color {
    Rgb { r: u8, g: u8, b: u8 },
    Argb { a: u8, r: u8, g: u8, b: u8 },
}

/// Whether `c` is a hexadecimal digit, either case.
pub open spec fn is_hex_digit(c: char) -> bool {
    (48 <= c as u32 && c as u32 <= 57) || (97 <= c as u32 && c as u32 <= 102) || (65 <= c as u32
        && c as u32 <= 70)
}

/// Whether `c` is a hexadecimal digit in canonical (lower) case.
pub open spec fn is_canonical_hex_digit(c: char) -> bool {
    (48 <= c as u32 && c as u32 <= 57) || (97 <= c as u32 && c as u32 <= 102)
}

/// Value of a hexadecimal digit character; zero for anything else.
pub open spec fn hex_val(c: char) -> nat {
    if 48 <= c as u32 && c as u32 <= 57 {
        (c as u32 - 48) as nat
    } else if 97 <= c as u32 && c as u32 <= 102 {
        (c as u32 - 87) as nat
    } else if 65 <= c as u32 && c as u32 <= 70 {
        (c as u32 - 55) as nat
    } else {
        0
    }
}

/// Value of a two-digit hexadecimal group.
pub open spec fn hex_pair_val(h: char, l: char) -> nat {
    16 * hex_val(h) + hex_val(l)
}

/// A seven-character `#RRGGBB` token.
pub open spec fn valid_rgb_token(s: Seq<char>) -> bool {
    s.len() == 7 && s[0] == '#' && is_hex_digit(s[1]) && is_hex_digit(s[2]) && is_hex_digit(s[3])
        && is_hex_digit(s[4]) && is_hex_digit(s[5]) && is_hex_digit(s[6])
}

/// A nine-character `#AARRGGBB` token.
pub open spec fn valid_argb_token(s: Seq<char>) -> bool {
    s.len() == 9 && s[0] == '#' && is_hex_digit(s[1]) && is_hex_digit(s[2]) && is_hex_digit(s[3])
        && is_hex_digit(s[4]) && is_hex_digit(s[5]) && is_hex_digit(s[6]) && is_hex_digit(s[7])
        && is_hex_digit(s[8])
}

pub open spec fn valid_color_token(s: Seq<char>) -> bool {
    valid_rgb_token(s) || valid_argb_token(s)
}

/// What parsing a color token yields: the exact channel values drawn from
/// the digit groups, or the first failing component in reading order.
pub open spec fn spec_parse_color(s: Seq<char>) -> Result<Color, ColorError> {
    if s.len() == 7 && s[0] == '#' {
        if !(is_hex_digit(s[1]) && is_hex_digit(s[2])) {
            Err(ColorError::InvalidFormat(ColorComponent::Red))
        } else if !(is_hex_digit(s[3]) && is_hex_digit(s[4])) {
            Err(ColorError::InvalidFormat(ColorComponent::Green))
        } else if !(is_hex_digit(s[5]) && is_hex_digit(s[6])) {
            Err(ColorError::InvalidFormat(ColorComponent::Blue))
        } else {
            Ok(
                Color::Rgb {
                    r: hex_pair_val(s[1], s[2]) as u8,
                    g: hex_pair_val(s[3], s[4]) as u8,
                    b: hex_pair_val(s[5], s[6]) as u8,
                },
            )
        }
    } else if s.len() == 9 && s[0] == '#' {
        if !(is_hex_digit(s[1]) && is_hex_digit(s[2])) {
            Err(ColorError::InvalidFormat(ColorComponent::Alpha))
        } else if !(is_hex_digit(s[3]) && is_hex_digit(s[4])) {
            Err(ColorError::InvalidFormat(ColorComponent::Red))
        } else if !(is_hex_digit(s[5]) && is_hex_digit(s[6])) {
            Err(ColorError::InvalidFormat(ColorComponent::Green))
        } else if !(is_hex_digit(s[7]) && is_hex_digit(s[8])) {
            Err(ColorError::InvalidFormat(ColorComponent::Blue))
        } else {
            Ok(
                Color::Argb {
                    a: hex_pair_val(s[1], s[2]) as u8,
                    r: hex_pair_val(s[3], s[4]) as u8,
                    g: hex_pair_val(s[5], s[6]) as u8,
                    b: hex_pair_val(s[7], s[8]) as u8,
                },
            )
        }
    } else {
        Err(ColorError::InvalidFormat(ColorComponent::Shape))
    }
}

fn hex_digit_value(c: char) -> (r: Option<u8>)
    ensures
        r is Some <==> is_hex_digit(c),
        r is Some ==> r->0 == hex_val(c),
{
    let u = c as u32;
    if 48 <= u && u <= 57 {
        Some((u - 48) as u8)
    } else if 97 <= u && u <= 102 {
        Some((u - 87) as u8)
    } else if 65 <= u && u <= 70 {
        Some((u - 55) as u8)
    } else {
        None
    }
}

fn hex_byte(h: char, l: char) -> (r: Option<u8>)
    ensures
        r is Some <==> is_hex_digit(h) && is_hex_digit(l),
        r is Some ==> r->0 == hex_pair_val(h, l),
{
    match (hex_digit_value(h), hex_digit_value(l)) {
        (Some(a), Some(b)) => Some(16 * a + b),
        _ => None,
    }
}

/// Parses a `#`-prefixed hex color token of length 7 or 9.
pub fn hex_to_color(hex: &str) -> (r: Result<Color, ColorError>)
    ensures
        r == spec_parse_color(hex@),
        r is Ok <==> valid_color_token(hex@),
{
    let n = hex.unicode_len();
    if n == 7 && hex.get_char(0) == '#' {
        let p1 = hex_byte(hex.get_char(1), hex.get_char(2));
        let p2 = hex_byte(hex.get_char(3), hex.get_char(4));
        let p3 = hex_byte(hex.get_char(5), hex.get_char(6));
        match (p1, p2, p3) {
            (Some(r), Some(g), Some(b)) => Ok(Color::Rgb { r, g, b }),
            (None, _, _) => Err(ColorError::InvalidFormat(ColorComponent::Red)),
            (_, None, _) => Err(ColorError::InvalidFormat(ColorComponent::Green)),
            _ => Err(ColorError::InvalidFormat(ColorComponent::Blue)),
        }
    } else if n == 9 && hex.get_char(0) == '#' {
        let p1 = hex_byte(hex.get_char(1), hex.get_char(2));
        let p2 = hex_byte(hex.get_char(3), hex.get_char(4));
        let p3 = hex_byte(hex.get_char(5), hex.get_char(6));
        let p4 = hex_byte(hex.get_char(7), hex.get_char(8));
        match (p1, p2, p3, p4) {
            (Some(a), Some(r), Some(g), Some(b)) => Ok(Color::Argb { a, r, g, b }),
            (None, _, _, _) => Err(ColorError::InvalidFormat(ColorComponent::Alpha)),
            (_, None, _, _) => Err(ColorError::InvalidFormat(ColorComponent::Red)),
            (_, _, None, _) => Err(ColorError::InvalidFormat(ColorComponent::Green)),
            _ => Err(ColorError::InvalidFormat(ColorComponent::Blue)),
        }
    } else {
        Err(ColorError::InvalidFormat(ColorComponent::Shape))
    }
}

/// The canonical (lower case) digit character for a value below sixteen.
pub open spec fn hex_digit_char(d: nat) -> char {
    if d == 0 {
        '0'
    } else if d == 1 {
        '1'
    } else if d == 2 {
        '2'
    } else if d == 3 {
        '3'
    } else if d == 4 {
        '4'
    } else if d == 5 {
        '5'
    } else if d == 6 {
        '6'
    } else if d == 7 {
        '7'
    } else if d == 8 {
        '8'
    } else if d == 9 {
        '9'
    } else if d == 10 {
        'a'
    } else if d == 11 {
        'b'
    } else if d == 12 {
        'c'
    } else if d == 13 {
        'd'
    } else if d == 14 {
        'e'
    } else {
        'f'
    }
}

/// Canonical two-digit hexadecimal notation of a byte.
pub open spec fn spec_byte_hex(v: nat) -> Seq<char> {
    seq![hex_digit_char(v / 16), hex_digit_char(v % 16)]
}

/// Canonical textual form of a color: the token that parses back to it.
pub open spec fn spec_encode_color(c: Color) -> Seq<char> {
    match c {
        Color::Rgb { r, g, b } => seq!['#'] + spec_byte_hex(r as nat) + spec_byte_hex(g as nat)
            + spec_byte_hex(b as nat),
        Color::Argb { a, r, g, b } => seq!['#'] + spec_byte_hex(a as nat) + spec_byte_hex(r as nat)
            + spec_byte_hex(g as nat) + spec_byte_hex(b as nat),
    }
}

fn hex_digit_char_exec(d: u8) -> (r: char)
    requires
        d < 16,
    ensures
        r == hex_digit_char(d as nat),
{
    match d {
        0 => '0',
        1 => '1',
        2 => '2',
        3 => '3',
        4 => '4',
        5 => '5',
        6 => '6',
        7 => '7',
        8 => '8',
        9 => '9',
        10 => 'a',
        11 => 'b',
        12 => 'c',
        13 => 'd',
        14 => 'e',
        _ => 'f',
    }
}

fn push_byte_hex(s: &mut String, v: u8)
    ensures
        final(s)@ == old(s)@ + spec_byte_hex(v as nat),
{
    let ghost before = s@;
    push_char(s, hex_digit_char_exec(v / 16));
    push_char(s, hex_digit_char_exec(v % 16));
    proof {
        assert(s@ =~= before + spec_byte_hex(v as nat));
    }
}

/// Renders a color in its canonical `#`-prefixed lower-case hex form.
pub fn color_to_hex(c: Color) -> (r: String)
    ensures
        r@ == spec_encode_color(c),
{
    let mut s = String::new();
    push_char(&mut s, '#');
    match c {
        Color::Rgb { r, g, b } => {
            push_byte_hex(&mut s, r);
            push_byte_hex(&mut s, g);
            push_byte_hex(&mut s, b);
        },
        Color::Argb { a, r, g, b } => {
            push_byte_hex(&mut s, a);
            push_byte_hex(&mut s, r);
            push_byte_hex(&mut s, g);
            push_byte_hex(&mut s, b);
        },
    }
    proof {
        assert(s@ =~= spec_encode_color(c));
    }
    s
}

/// Encoding a canonical hexadecimal digit's value gives the digit back.
proof fn lemma_hex_digit_round_trip(c: char)
    requires
        is_canonical_hex_digit(c),
    ensures
        hex_digit_char(hex_val(c)) == c,
{
}

/// A two-digit group of canonical digits comes back unchanged from its value.
proof fn lemma_hex_pair_round_trip(h: char, l: char)
    requires
        is_canonical_hex_digit(h),
        is_canonical_hex_digit(l),
    ensures
        spec_byte_hex(hex_pair_val(h, l)) =~= seq![h, l],
{
    assert(hex_val(h) < 16 && hex_val(l) < 16);
    assert(hex_pair_val(h, l) / 16 == hex_val(h));
    assert(hex_pair_val(h, l) % 16 == hex_val(l));
    lemma_hex_digit_round_trip(h);
    lemma_hex_digit_round_trip(l);
}

/// Whether every hex digit of a token is in canonical (lower) case.
pub open spec fn canonical_token(s: Seq<char>) -> bool {
    forall|i: int| 1 <= i < s.len() ==> is_canonical_hex_digit(#[trigger] s[i])
}

/// A valid seven-character token in canonical case parses to an RGB color
/// whose channels are exactly the three digit groups, and rendering that
/// color gives the original token back.
pub proof fn lemma_rgb_round_trip(s: Seq<char>)
    requires
        valid_rgb_token(s),
        canonical_token(s),
    ensures
        spec_parse_color(s) == Ok::<Color, ColorError>(
            Color::Rgb {
                r: hex_pair_val(s[1], s[2]) as u8,
                g: hex_pair_val(s[3], s[4]) as u8,
                b: hex_pair_val(s[5], s[6]) as u8,
            },
        ),
        spec_encode_color(spec_parse_color(s)->Ok_0) =~= s,
{
    lemma_hex_pair_round_trip(s[1], s[2]);
    lemma_hex_pair_round_trip(s[3], s[4]);
    lemma_hex_pair_round_trip(s[5], s[6]);
    assert(hex_pair_val(s[1], s[2]) < 256 && hex_pair_val(s[3], s[4]) < 256 && hex_pair_val(
        s[5],
        s[6],
    ) < 256);
}

/// A valid nine-character token parses to an ARGB color whose alpha, red,
/// green and blue channels are digit groups one through four in that order,
/// and, in canonical case, rendering gives the token back.
pub proof fn lemma_argb_round_trip(s: Seq<char>)
    requires
        valid_argb_token(s),
        canonical_token(s),
    ensures
        spec_parse_color(s) == Ok::<Color, ColorError>(
            Color::Argb {
                a: hex_pair_val(s[1], s[2]) as u8,
                r: hex_pair_val(s[3], s[4]) as u8,
                g: hex_pair_val(s[5], s[6]) as u8,
                b: hex_pair_val(s[7], s[8]) as u8,
            },
        ),
        spec_encode_color(spec_parse_color(s)->Ok_0) =~= s,
{
    lemma_hex_pair_round_trip(s[1], s[2]);
    lemma_hex_pair_round_trip(s[3], s[4]);
    lemma_hex_pair_round_trip(s[5], s[6]);
    lemma_hex_pair_round_trip(s[7], s[8]);
    assert(hex_pair_val(s[1], s[2]) < 256 && hex_pair_val(s[3], s[4]) < 256 && hex_pair_val(
        s[5],
        s[6],
    ) < 256 && hex_pair_val(s[7], s[8]) < 256);
}

/// A token that is not a well-shaped all-hex token of length 7 or 9 parses
/// to an error, never to a color value.
pub proof fn lemma_parse_rejects_invalid(s: Seq<char>)
    requires
        !valid_color_token(s),
    ensures
        spec_parse_color(s) is Err,
{
}

} // verus!
