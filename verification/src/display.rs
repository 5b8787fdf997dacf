//! Segment patterns for the four-digit seven-segment display, which is fed
//! through a serial-in shift register one digit at a time.
//!
//! Segment layout, with the bit of each segment in a pattern byte:
//!
//! ```text
//!   -----     <--- A (bit 6)
//!  |  <- | ------- B (bit 5)
//!  |     | <------ C (bit 4)
//!   -----     <--- D (bit 3)
//!  |  <- | ------- E (bit 2)
//!  |     | <------ F (bit 1)
//!   -----     <--- G (bit 0)
//! ```
use vstd::prelude::*;

verus! {

pub const SEG_A: u8 = 1 << 6;
pub const SEG_B: u8 = 1 << 5;
pub const SEG_C: u8 = 1 << 4;
pub const SEG_D: u8 = 1 << 3;
pub const SEG_E: u8 = 1 << 2;
pub const SEG_F: u8 = 1 << 1;
pub const SEG_G: u8 = 1 << 0;

pub const DIGIT_ZERO: u8 = SEG_A | SEG_B | SEG_C | SEG_E | SEG_F | SEG_G;
pub const DIGIT_ONE: u8 = SEG_C | SEG_F;
pub const DIGIT_TWO: u8 = SEG_A | SEG_C | SEG_D | SEG_E | SEG_G;
pub const DIGIT_THREE: u8 = SEG_A | SEG_C | SEG_D | SEG_F | SEG_G;
pub const DIGIT_FOUR: u8 = SEG_B | SEG_C | SEG_D | SEG_F;
pub const DIGIT_FIVE: u8 = SEG_A | SEG_B | SEG_D | SEG_F | SEG_G;
pub const DIGIT_SIX: u8 = SEG_A | SEG_B | SEG_D | SEG_E | SEG_F | SEG_G;
pub const DIGIT_SEVEN: u8 = SEG_C | SEG_F | SEG_A;
pub const DIGIT_EIGHT: u8 = SEG_A | SEG_B | SEG_C | SEG_D | SEG_E | SEG_F | SEG_G;
pub const DIGIT_NINE: u8 = SEG_A | SEG_B | SEG_C | SEG_D | SEG_F;

/// The non-digit symbols the display can show.
#[derive(Clone, Copy, Debug, PartialEq, Eq)]
pub enum DisplayChar {
    Blank,
    E,
    Dash,
}

/// The segment pattern of a symbol.
pub open spec fn char_segments(c: DisplayChar) -> u8 {
    match c {
        DisplayChar::E => SEG_A | SEG_B | SEG_D | SEG_E | SEG_G,
        DisplayChar::Dash => SEG_D,
        DisplayChar::Blank => 0,
    }
}

/// The segment pattern of a decimal digit; anything else shows nothing.
pub open spec fn digit_segments(n: u8) -> u8 {
    if n == 0 {
        DIGIT_ZERO
    } else if n == 1 {
        DIGIT_ONE
    } else if n == 2 {
        DIGIT_TWO
    } else if n == 3 {
        DIGIT_THREE
    } else if n == 4 {
        DIGIT_FOUR
    } else if n == 5 {
        DIGIT_FIVE
    } else if n == 6 {
        DIGIT_SIX
    } else if n == 7 {
        DIGIT_SEVEN
    } else if n == 8 {
        DIGIT_EIGHT
    } else if n == 9 {
        DIGIT_NINE
    } else {
        0
    }
}

impl DisplayChar {
    /// The segment pattern of this symbol.
    pub fn as_bit_pattern(self) -> (r: u8)
        ensures
            r == char_segments(self),
    {
        match self {
            DisplayChar::E => SEG_A | SEG_B | SEG_D | SEG_E | SEG_G,
            DisplayChar::Dash => SEG_D,
            DisplayChar::Blank => 0,
        }
    }
}

/// The segment pattern of a decimal digit; any other value shows nothing.
pub fn digit_pattern(n: u8) -> (r: u8)
    ensures
        r == digit_segments(n),
{
    match n {
        0 => DIGIT_ZERO,
        1 => DIGIT_ONE,
        2 => DIGIT_TWO,
        3 => DIGIT_THREE,
        4 => DIGIT_FOUR,
        5 => DIGIT_FIVE,
        6 => DIGIT_SIX,
        7 => DIGIT_SEVEN,
        8 => DIGIT_EIGHT,
        9 => DIGIT_NINE,
        _ => 0,
    }
}

/// The four patterns that show four symbols, left to right.
pub fn char_patterns(chars: [DisplayChar; 4]) -> (r: [u8; 4])
    ensures
        r@ == chars@.map_values(|c: DisplayChar| char_segments(c)),
{
    let r = [
        chars[0].as_bit_pattern(),
        chars[1].as_bit_pattern(),
        chars[2].as_bit_pattern(),
        chars[3].as_bit_pattern(),
    ];
    assert(r@ =~= chars@.map_values(|c: DisplayChar| char_segments(c)));
    r
}

/// The four patterns that show four digits, left to right.
pub fn number_patterns(d1: u8, d2: u8, d3: u8, d4: u8) -> (r: [u8; 4])
    ensures
        r@ == seq![digit_segments(d1), digit_segments(d2), digit_segments(d3), digit_segments(d4)],
{
    let r = [digit_pattern(d1), digit_pattern(d2), digit_pattern(d3), digit_pattern(d4)];
    assert(r@ =~= seq![
        digit_segments(d1),
        digit_segments(d2),
        digit_segments(d3),
        digit_segments(d4),
    ]);
    r
}

/// Whether bit `i` of `b` is set.
pub open spec fn bit_set(b: u8, i: int) -> bool {
    (b & (1u8 << (i as u8))) != 0
}

/// The levels of the serial data line, in shift order: bit 0 first.
pub open spec fn serial_levels(b: u8) -> Seq<bool> {
    Seq::new(8, |i: int| bit_set(b, i))
}

/// The data-line levels that shift a pattern byte into the register, one per
/// clock pulse, least significant bit first.
pub fn shift_levels(b: u8) -> (r: [bool; 8])
    ensures
        r@ == serial_levels(b),
{
    let mut r = [false; 8];
    let mut i: u8 = 0;
    while i < 8
        invariant
            i <= 8,
            r@.len() == 8,
            forall|j: int| 0 <= j < i ==> r@[j] == bit_set(b, j),
        decreases 8 - i,
    {
        r[i as usize] = (b & (1u8 << i)) != 0;
        i += 1;
    }
    assert(r@ =~= serial_levels(b));
    r
}

/// The value that a sequence of levels shifts in, first level least significant.
pub open spec fn levels_value(levels: Seq<bool>) -> int
    decreases levels.len(),
{
    if levels.len() == 0 {
        0
    } else {
        (if levels[0] {
            1int
        } else {
            0int
        }) + 2 * levels_value(levels.drop_first())
    }
}

/// The shifted levels carry the pattern byte exactly.
pub proof fn lemma_shift_levels_carry_byte(b: u8)
    ensures
        levels_value(serial_levels(b)) == b,
{
    let s = serial_levels(b);
    let s1 = s.drop_first();
    let s2 = s1.drop_first();
    let s3 = s2.drop_first();
    let s4 = s3.drop_first();
    let s5 = s4.drop_first();
    let s6 = s5.drop_first();
    let s7 = s6.drop_first();
    let s8 = s7.drop_first();
    assert(s8.len() == 0);
    let v = |x: bool| -> int { if x { 1int } else { 0int } };
    assert(levels_value(s8) == 0);
    assert(levels_value(s7) == v(s[7]));
    assert(levels_value(s6) == v(s[6]) + 2 * levels_value(s7));
    assert(levels_value(s5) == v(s[5]) + 2 * levels_value(s6));
    assert(levels_value(s4) == v(s[4]) + 2 * levels_value(s5));
    assert(levels_value(s3) == v(s[3]) + 2 * levels_value(s4));
    assert(levels_value(s2) == v(s[2]) + 2 * levels_value(s3));
    assert(levels_value(s1) == v(s[1]) + 2 * levels_value(s2));
    assert(levels_value(s) == v(s[0]) + 2 * levels_value(s1));
    assert(1u8 << 0u8 == 1u8 && 1u8 << 1u8 == 2u8 && 1u8 << 2u8 == 4u8 && 1u8 << 3u8 == 8u8)
        by (bit_vector);
    assert(1u8 << 4u8 == 16u8 && 1u8 << 5u8 == 32u8 && 1u8 << 6u8 == 64u8 && 1u8 << 7u8 == 128u8)
        by (bit_vector);
    assert(b == (b & 1u8) + (b & 2u8) + (b & 4u8) + (b & 8u8) + (b & 16u8) + (b & 32u8) + (b
        & 64u8) + (b & 128u8)) by (bit_vector);
    assert(((b & 1u8) == 0 || (b & 1u8) == 1) && ((b & 2u8) == 0 || (b & 2u8) == 2) && ((b & 4u8)
        == 0 || (b & 4u8) == 4) && ((b & 8u8) == 0 || (b & 8u8) == 8)) by (bit_vector);
    assert(((b & 16u8) == 0 || (b & 16u8) == 16) && ((b & 32u8) == 0 || (b & 32u8) == 32) && ((b
        & 64u8) == 0 || (b & 64u8) == 64) && ((b & 128u8) == 0 || (b & 128u8) == 128))
        by (bit_vector);
}

/// The ten digit patterns are pairwise different and each lights some
/// segment, so every digit is visible and no two digits look alike.
pub proof fn lemma_digits_distinguishable(m: u8, n: u8)
    requires
        m < 10,
        n < 10,
        m != n,
    ensures
        digit_segments(m) != digit_segments(n),
        digit_segments(m) != 0,
{
    assert(DIGIT_ZERO == 0x77 && DIGIT_ONE == 0x12 && DIGIT_TWO == 0x5D && DIGIT_THREE == 0x5B
        && DIGIT_FOUR == 0x3A) by (bit_vector);
    assert(DIGIT_FIVE == 0x6B && DIGIT_SIX == 0x6F && DIGIT_SEVEN == 0x52 && DIGIT_EIGHT == 0x7F
        && DIGIT_NINE == 0x7A) by (bit_vector);
}

/// The seven strokes of a seven-segment figure, by place.
#[derive(Clone, Copy, Debug, PartialEq, Eq)]
pub enum Stroke {
    Top,
    UpperLeft,
    UpperRight,
    Middle,
    LowerLeft,
    LowerRight,
    Bottom,
}

/// The bit of a display pattern that drives a stroke.
pub open spec fn display_mask(s: Stroke) -> u8 {
    match s {
        Stroke::Top => 0x40,
        Stroke::UpperLeft => 0x20,
        Stroke::UpperRight => 0x10,
        Stroke::Middle => 0x08,
        Stroke::LowerLeft => 0x04,
        Stroke::LowerRight => 0x02,
        Stroke::Bottom => 0x01,
    }
}

/// The decimal digits that show each stroke on this display, listed stroke
/// by stroke (the 9 is drawn without its bottom stroke, the 7 without its
/// upper-left one).
pub open spec fn digit_shows_stroke(n: u8, s: Stroke) -> bool {
    match s {
        Stroke::Top => n == 0 || n == 2 || n == 3 || n == 5 || n == 6 || n == 7 || n == 8 || n == 9,
        Stroke::UpperLeft => n == 0 || n == 4 || n == 5 || n == 6 || n == 8 || n == 9,
        Stroke::UpperRight => n == 0 || n == 1 || n == 2 || n == 3 || n == 4 || n == 7 || n == 8
            || n == 9,
        Stroke::Middle => n == 2 || n == 3 || n == 4 || n == 5 || n == 6 || n == 8 || n == 9,
        Stroke::LowerLeft => n == 0 || n == 2 || n == 6 || n == 8,
        Stroke::LowerRight => n == 0 || n == 1 || n == 3 || n == 4 || n == 5 || n == 6 || n == 7
            || n == 8 || n == 9,
        Stroke::Bottom => n == 0 || n == 2 || n == 3 || n == 5 || n == 6 || n == 8,
    }
}

/// Each bit of a byte, as arithmetic on the byte's value.
pub proof fn lemma_byte_bits(b: u8)
    ensures
        (b & 0x01 != 0) == (b % 2 == 1),
        (b & 0x02 != 0) == ((b / 2) % 2 == 1),
        (b & 0x04 != 0) == ((b / 4) % 2 == 1),
        (b & 0x08 != 0) == ((b / 8) % 2 == 1),
        (b & 0x10 != 0) == ((b / 16) % 2 == 1),
        (b & 0x20 != 0) == ((b / 32) % 2 == 1),
        (b & 0x40 != 0) == ((b / 64) % 2 == 1),
        (b & 0x80 != 0) == ((b / 128) % 2 == 1),
{
    assert((b & 0x01 != 0) == (b % 2 == 1) && (b & 0x02 != 0) == ((b / 2) % 2 == 1) && (b & 0x04
        != 0) == ((b / 4) % 2 == 1) && (b & 0x08 != 0) == ((b / 8) % 2 == 1) && (b & 0x10 != 0) == ((
    b / 16) % 2 == 1) && (b & 0x20 != 0) == ((b / 32) % 2 == 1) && (b & 0x40 != 0) == ((b / 64) % 2
        == 1) && (b & 0x80 != 0) == ((b / 128) % 2 == 1)) by (bit_vector);
}

/// The pattern of each decimal digit lights exactly the strokes of that
/// digit's figure.
pub proof fn lemma_digit_patterns_draw_digits(n: u8, s: Stroke)
    requires
        n < 10,
    ensures
        (digit_segments(n) & display_mask(s) != 0) == digit_shows_stroke(n, s),
{
    assert(DIGIT_ZERO == 0x77 && DIGIT_ONE == 0x12 && DIGIT_TWO == 0x5D && DIGIT_THREE == 0x5B
        && DIGIT_FOUR == 0x3A) by (bit_vector);
    assert(DIGIT_FIVE == 0x6B && DIGIT_SIX == 0x6F && DIGIT_SEVEN == 0x52 && DIGIT_EIGHT == 0x7F
        && DIGIT_NINE == 0x7A) by (bit_vector);
    lemma_byte_bits(digit_segments(n));
}

/// The dash lights the middle stroke only; the blank lights nothing; the E
/// lights every stroke but the two on the right.
pub proof fn lemma_symbol_patterns(s: Stroke)
    ensures
        (char_segments(DisplayChar::Dash) & display_mask(s) != 0) == (s == Stroke::Middle),
        char_segments(DisplayChar::Blank) & display_mask(s) == 0,
        (char_segments(DisplayChar::E) & display_mask(s) != 0) == (s != Stroke::UpperRight && s
            != Stroke::LowerRight),
{
    assert(SEG_D == 0x08 && SEG_A | SEG_B | SEG_D | SEG_E | SEG_G == 0x6D) by (bit_vector);
    lemma_byte_bits(SEG_D);
    lemma_byte_bits(0);
    lemma_byte_bits(0x6D);
}

} // verus!
