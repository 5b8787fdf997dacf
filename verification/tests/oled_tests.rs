use alarm_clock::device::AlarmFrequency;
use alarm_clock::oled::{
    column_range_frame, command_frame, data_frame, date_draws, frequency_draws, init_commands,
    page_range_frame, time_draws, ByteRegion, DigitDraw, FrameBuffer, OLED_BUFFER_LEN,
};

fn pixel(fb: &FrameBuffer, x: usize, y: usize) -> bool {
    let idx = (7 - y / 8) * 128 + x;
    fb.byte(idx) & (0x80u8 >> (y % 8)) != 0
}

fn lit_count(fb: &FrameBuffer) -> u32 {
    (0..OLED_BUFFER_LEN).map(|i| fb.byte(i).count_ones()).sum()
}

#[test]
fn new_buffer_is_blank() {
    let fb = FrameBuffer::new();
    assert_eq!(lit_count(&fb), 0);
}

#[test]
fn set_pixel_lights_exactly_one_pixel() {
    let mut fb = FrameBuffer::new();
    fb.set_pixel(0, 0);
    assert_eq!(fb.byte(7 * 128), 0x80);
    fb.set_pixel(127, 63);
    assert_eq!(fb.byte(127), 0x01);
    fb.set_pixel(5, 10);
    assert!(pixel(&fb, 5, 10));
    assert!(!pixel(&fb, 5, 11));
    assert_eq!(lit_count(&fb), 3);
}

#[test]
fn off_screen_pixels_are_ignored() {
    let mut fb = FrameBuffer::new();
    fb.set_pixel(128, 0);
    fb.set_pixel(0, 64);
    fb.set_pixel(255, 255);
    assert_eq!(lit_count(&fb), 0);
}

#[test]
fn lines_light_their_rectangles() {
    let mut fb = FrameBuffer::new();
    fb.draw_horizontal(10, 20, 5, 2);
    assert_eq!(lit_count(&fb), 10);
    assert!(pixel(&fb, 10, 20) && pixel(&fb, 14, 21));
    assert!(!pixel(&fb, 15, 20) && !pixel(&fb, 10, 22));
    let mut fb = FrameBuffer::new();
    fb.draw_vertical(3, 4, 6, 3);
    assert_eq!(lit_count(&fb), 18);
    assert!(pixel(&fb, 5, 9) && !pixel(&fb, 6, 9) && !pixel(&fb, 5, 10));
}

#[test]
fn seven_segment_eight_clears_then_draws() {
    let mut fb = FrameBuffer::new();
    // Something already lit inside the region is cleared first.
    fb.set_pixel(5, 3);
    let d = DigitDraw { height: 7, width: 5, thickness: 1, x: 0, y: 0, number: 8 };
    let r = fb.draw_seven_segment_number(d);
    assert_eq!(r, ByteRegion { start_page: 7, end_page: 7, start_col: 0, end_col: 5 });
    assert!(!pixel(&fb, 5, 3));
    // Bottom, middle and top bars.
    assert!(pixel(&fb, 0, 0) && pixel(&fb, 4, 0));
    assert!(pixel(&fb, 2, 3));
    assert!(pixel(&fb, 2, 6));
    // Left and right strokes.
    assert!(pixel(&fb, 0, 5) && pixel(&fb, 4, 1));
    assert_eq!(fb.region_bytes(r).len(), 6);
}

#[test]
fn seven_segment_one_lights_right_strokes_only() {
    let mut fb = FrameBuffer::new();
    let d = DigitDraw { height: 14, width: 8, thickness: 3, x: 20, y: 48, number: 1 };
    let r = fb.draw_seven_segment_number(d);
    assert_eq!(r, ByteRegion { start_page: 0, end_page: 1, start_col: 20, end_col: 28 });
    // Strokes 3 and 4: columns 25..28, rows 48..62.
    assert_eq!(lit_count(&fb), 3 * 14);
    assert!(pixel(&fb, 25, 48) && pixel(&fb, 27, 61) && !pixel(&fb, 24, 50));
    let bytes = fb.region_bytes(r);
    assert_eq!(bytes.len(), 18);
    assert_eq!(bytes[5], fb.byte(25));
    assert_eq!(bytes[9 + 5], fb.byte(128 + 25));
}

#[test]
fn clearing() {
    let mut fb = FrameBuffer::new();
    fb.set_pixel(0, 63);
    fb.set_pixel(0, 0);
    fb.clear_top();
    assert!(!pixel(&fb, 0, 63) && pixel(&fb, 0, 0));
    fb.clear();
    assert_eq!(lit_count(&fb), 0);
}

#[test]
fn frames() {
    assert_eq!(command_frame(0xAF), [0x00, 0xAF]);
    assert_eq!(data_frame(0x55), [0x40, 0x55]);
    assert_eq!(column_range_frame(0, 127), [0x00, 0x21, 0, 127]);
    assert_eq!(page_range_frame(2, 7), [0x00, 0x22, 2, 7]);
    let init = init_commands();
    assert_eq!(init.len(), 25);
    assert_eq!(init[0], 0xAE);
    assert_eq!(init[24], 0xAF);
    assert_eq!(&init[8..10], &[0x8D, 0x14]);
}

#[test]
fn time_draws_in_quick_mode_skip_unchanged_digits() {
    let full = time_draws(12, 34, 56, false);
    let numbers: Vec<u8> = full.iter().map(|d| d.number).collect();
    assert_eq!(numbers, vec![1, 2, 3, 4, 5, 6]);
    assert_eq!(full[0], DigitDraw { height: 47, width: 20, thickness: 7, x: 0, y: 0, number: 1 });
    assert_eq!(full[5], DigitDraw { height: 7, width: 5, thickness: 1, x: 117, y: 0, number: 6 });
    assert_eq!(time_draws(12, 34, 56, true).len(), 2);
    assert_eq!(time_draws(12, 34, 1, true).len(), 4);
    assert_eq!(time_draws(12, 0, 0, true).len(), 6);
}

#[test]
fn date_and_frequency_draws() {
    let numbers: Vec<u8> = date_draws(25, 12, 26).iter().map(|d| d.number).collect();
    assert_eq!(numbers, vec![2, 5, 1, 2, 2, 6]);
    let on: Vec<u8> = frequency_draws(AlarmFrequency::On).iter().map(|d| d.number).collect();
    let off: Vec<u8> = frequency_draws(AlarmFrequency::Off).iter().map(|d| d.number).collect();
    let once: Vec<u8> = frequency_draws(AlarmFrequency::Once).iter().map(|d| d.number).collect();
    assert_eq!(on, vec![0, 10]);
    assert_eq!(off, vec![0, 13, 13]);
    assert_eq!(once, vec![0, 10, 11, 12]);
    for d in date_draws(25, 12, 26) {
        let mut fb = FrameBuffer::new();
        fb.draw_seven_segment_number(d);
    }
}

#[test]
fn glyph_region_ignores_previous_contents() {
    let d = DigitDraw { height: 47, width: 20, thickness: 7, x: 25, y: 0, number: 4 };
    let mut blank = FrameBuffer::new();
    let mut full = FrameBuffer::new();
    full.draw_horizontal(0, 0, 128, 64);
    let r1 = blank.draw_seven_segment_number(d);
    let r2 = full.draw_seven_segment_number(d);
    assert_eq!(r1, r2);
    assert_eq!(blank.region_bytes(r1), full.region_bytes(r2));
}
