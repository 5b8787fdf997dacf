use alarm_clock::display::{
    char_patterns, digit_pattern, number_patterns, shift_levels, DisplayChar, SEG_A, SEG_D, SEG_G,
};

#[test]
fn digit_patterns_have_expected_segments() {
    let expected = [0x77, 0x12, 0x5D, 0x5B, 0x3A, 0x6B, 0x6F, 0x52, 0x7F, 0x7A];
    for n in 0u8..10 {
        assert_eq!(digit_pattern(n), expected[n as usize]);
    }
    assert_eq!(digit_pattern(10), 0);
    assert_eq!(digit_pattern(255), 0);
}

#[test]
fn digits_are_distinguishable() {
    for m in 0u8..10 {
        assert_ne!(digit_pattern(m), 0);
        for n in 0u8..10 {
            if m != n {
                assert_ne!(digit_pattern(m), digit_pattern(n));
            }
        }
    }
}

#[test]
fn symbol_patterns() {
    assert_eq!(DisplayChar::Blank.as_bit_pattern(), 0);
    assert_eq!(DisplayChar::Dash.as_bit_pattern(), SEG_D);
    assert_eq!(DisplayChar::E.as_bit_pattern(), 0x6D);
    assert_eq!(SEG_A, 0x40);
    assert_eq!(SEG_G, 0x01);
}

#[test]
fn four_position_patterns() {
    assert_eq!(number_patterns(1, 2, 3, 4), [0x12, 0x5D, 0x5B, 0x3A]);
    assert_eq!(
        char_patterns([DisplayChar::Dash, DisplayChar::E, DisplayChar::Blank, DisplayChar::Dash]),
        [0x08, 0x6D, 0x00, 0x08]
    );
}

#[test]
fn shift_levels_least_significant_first() {
    assert_eq!(shift_levels(0x01), [true, false, false, false, false, false, false, false]);
    assert_eq!(shift_levels(0x80), [false, false, false, false, false, false, false, true]);
    assert_eq!(shift_levels(0x5D), [true, false, true, true, true, false, true, false]);
}

#[test]
fn shift_levels_carry_the_byte() {
    for b in 0u8..=255 {
        let levels = shift_levels(b);
        let mut v: u32 = 0;
        for (i, l) in levels.iter().enumerate() {
            if *l {
                v += 1 << i;
            }
        }
        assert_eq!(v, b as u32);
    }
}
