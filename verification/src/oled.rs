//! Drawing on the 128x64 SSD1306 OLED panel: a frame buffer of eight pages
//! of 128 column bytes, seven-segment digits drawn into it, and the byte
//! frames that carry commands and pixel data over I2C.
//!
//! Pixel (x, y) has x counted from the left and y from the bottom; it lives in
//! page `7 - y / 8`, column x, at bit `7 - y % 8` of that byte.
use vstd::prelude::*;
use vstd::arithmetic::div_mod::{
    lemma_fundamental_div_mod,
    lemma_fundamental_div_mod_converse,
    lemma_mod_pos_bound,
};
use crate::device::AlarmFrequency;
use crate::display::{Stroke, lemma_byte_bits};

verus! {

/// I2C address of the SSD1306.
pub const OLED_ADDR: u8 = 0x3C;

pub const OLED_WIDTH: u8 = 128;

pub const OLED_HEIGHT: u8 = 64;

/// Bytes in the frame buffer: eight pages of 128 columns.
pub const OLED_BUFFER_LEN: usize = 1024;

/// Whether (x, y) is a pixel of the panel.
pub open spec fn on_screen(x: int, y: int) -> bool {
    0 <= x < 128 && 0 <= y < 64
}

/// The buffer byte that holds pixel (x, y).
pub open spec fn pixel_index(x: int, y: int) -> int {
    (7 - y / 8) * 128 + x
}

/// The bit of its byte that holds a pixel of row y.
pub open spec fn pixel_mask(y: int) -> u8 {
    0x80u8 >> ((y % 8) as u8)
}

/// Whether pixel (x, y) is lit in a buffer.
pub open spec fn pixel_on(buf: Seq<u8>, x: int, y: int) -> bool {
    buf[pixel_index(x, y)] & pixel_mask(y) != 0
}

/// Whether (x, y) lies in the rectangle of columns `x0..x0 + w` and rows `y0..y0 + h`.
pub open spec fn in_rect(x: int, y: int, x0: int, y0: int, w: int, h: int) -> bool {
    x0 <= x < x0 + w && y0 <= y < y0 + h
}

/// Drawing the rectangle of columns `x0..x0 + w` and rows `y0..y0 + h`
/// keeps every coordinate within a byte.
pub open spec fn rect_drawable(x0: int, y0: int, w: int, h: int) -> bool {
    w == 0 || h == 0 || (x0 + w <= 256 && y0 + h <= 256)
}

/// A block of buffer bytes: pages `start_page..=end_page`, columns
/// `start_col..=end_col` of each.
#[derive(Clone, Copy, Debug, PartialEq, Eq)]
pub struct ByteRegion {
    pub start_page: u8,
    pub end_page: u8,
    pub start_col: u8,
    pub end_col: u8,
}

/// A region whose bytes all lie in the buffer.
pub open spec fn region_fits(r: ByteRegion) -> bool {
    r.start_page <= r.end_page && r.start_col <= r.end_col && r.end_page as int * 128
        + r.end_col as int + 1 <= OLED_BUFFER_LEN
}

/// Whether buffer index i is one of columns `sc..=ec` of page p (columns
/// past 127 run on into the next page).
pub open spec fn row_covers(i: int, p: int, sc: int, ec: int) -> bool {
    p * 128 + sc <= i <= p * 128 + ec
}

/// Whether index i is covered by columns `sc..=ec` of some page in `sp..pe`.
pub open spec fn rows_cover(i: int, sp: int, pe: int, sc: int, ec: int) -> bool {
    exists|p: int| sp <= p < pe && #[trigger] row_covers(i, p, sc, ec)
}

/// The bytes of a region, page by page, each page from its first column to
/// its last.
pub open spec fn region_payload(buf: Seq<u8>, r: ByteRegion) -> Seq<u8> {
    let ncols = r.end_col - r.start_col + 1;
    let npages = r.end_page - r.start_page + 1;
    Seq::new(
        (npages * ncols) as nat,
        |k: int| buf[(r.start_page + k / ncols) * 128 + r.start_col + k % ncols],
    )
}

/// A buffer of zero bytes.
pub open spec fn blank_buffer() -> Seq<u8> {
    Seq::new(OLED_BUFFER_LEN as nat, |i: int| 0u8)
}

/// The buffer with its first two pages (256 bytes) zeroed.
pub open spec fn top_cleared(buf: Seq<u8>) -> Seq<u8> {
    Seq::new(
        OLED_BUFFER_LEN as nat,
        |i: int|
            if i < 256 {
                0u8
            } else {
                buf[i]
            },
    )
}

/// Whether buffer index i lies in a region.
pub open spec fn in_region(i: int, r: ByteRegion) -> bool {
    rows_cover(i, r.start_page as int, r.end_page + 1, r.start_col as int, r.end_col as int)
}

/// The placement of one seven-segment symbol: its height, width and stroke
/// thickness in pixels, its lower-left corner, and the symbol.
#[derive(Clone, Copy, Debug, PartialEq, Eq)]
pub struct DigitDraw {
    pub height: u8,
    pub width: u8,
    pub thickness: u8,
    pub x: u8,
    pub y: u8,
    pub number: u8,
}

/// Whether a segment mask bit is set.
pub open spec fn seg(bits: u8, mask: u8) -> bool {
    bits & mask != 0
}

/// Whether a symbol can be drawn: it is one of the fourteen, it fits below
/// the top of the panel and within the buffer, and the stroke of each of its
/// segments stays within a byte's range of coordinates.
pub open spec fn digit_drawable(d: DigitDraw) -> bool {
    let bits = segment_bits(d.number);
    let half = d.height / 2;
    &&& d.number < 14
    &&& d.y + d.height < 64
    &&& d.x + d.width <= 255
    &&& (7 - d.y / 8) * 128 + d.x + d.width < OLED_BUFFER_LEN
    &&& seg(bits, 0b00000001) ==> rect_drawable(d.x as int, d.y + half, d.thickness as int, half as int)
    &&& seg(bits, 0b00000010) ==> rect_drawable(d.x as int, d.y as int, d.thickness as int, half as int)
    &&& seg(bits, 0b00000100) ==> d.thickness <= d.y + d.height && rect_drawable(
        d.x as int,
        d.y + d.height - d.thickness,
        d.width as int,
        d.thickness as int,
    )
    &&& seg(bits, 0b00001000) ==> d.thickness <= d.x + d.width && rect_drawable(
        d.x + d.width - d.thickness,
        d.y + half,
        d.thickness as int,
        half as int,
    )
    &&& seg(bits, 0b00010000) ==> d.thickness <= d.x + d.width && rect_drawable(
        d.x + d.width - d.thickness,
        d.y as int,
        d.thickness as int,
        half as int,
    )
    &&& seg(bits, 0b00100000) ==> rect_drawable(d.x as int, d.y as int, d.width as int, d.thickness as int)
    &&& seg(bits, 0b01000000) ==> d.thickness / 2 <= d.y + half && rect_drawable(
        d.x as int,
        d.y + half - d.thickness / 2,
        d.width as int,
        d.thickness as int,
    )
}

fn rect_fits(x0: u16, y0: u16, w: u16, h: u16) -> (b: bool)
    ensures
        b == rect_drawable(x0 as int, y0 as int, w as int, h as int),
{
    w == 0 || h == 0 || (x0 as u32 + w as u32 <= 256 && y0 as u32 + h as u32 <= 256)
}

/// Whether a symbol can be drawn (see `digit_drawable`).
pub fn is_drawable(d: DigitDraw) -> (r: bool)
    ensures
        r == digit_drawable(d),
{
    if d.number >= 14 || d.y as u16 + d.height as u16 >= 64 || d.x as u16 + d.width as u16 > 255 {
        return false;
    }
    let (x, y, w, t) = (d.x as u16, d.y as u16, d.width as u16, d.thickness as u16);
    let half = d.height as u16 / 2;
    let h = d.height as u16;
    if (7 - y / 8) * 128 + x + w >= OLED_BUFFER_LEN as u16 {
        return false;
    }
    let bits = segment_pattern(d.number);
    if bits & 0b00000001 != 0 && !rect_fits(x, y + half, t, half) {
        return false;
    }
    if bits & 0b00000010 != 0 && !rect_fits(x, y, t, half) {
        return false;
    }
    if bits & 0b00000100 != 0 && (t > y + h || !rect_fits(x, y + h - t, w, t)) {
        return false;
    }
    if bits & 0b00001000 != 0 && (t > x + w || !rect_fits(x + w - t, y + half, t, half)) {
        return false;
    }
    if bits & 0b00010000 != 0 && (t > x + w || !rect_fits(x + w - t, y, t, half)) {
        return false;
    }
    if bits & 0b00100000 != 0 && !rect_fits(x, y, w, t) {
        return false;
    }
    if bits & 0b01000000 != 0 && (t / 2 > y + half || !rect_fits(x, y + half - t / 2, w, t)) {
        return false;
    }
    true
}

/// The bytes that a symbol occupies: the pages from its top row down to its
/// bottom row, and its columns.
pub open spec fn digit_region(d: DigitDraw) -> ByteRegion {
    ByteRegion {
        start_page: (7 - (d.y + d.height) / 8) as u8,
        end_page: (7 - d.y / 8) as u8,
        start_col: d.x,
        end_col: (d.x + d.width) as u8,
    }
}

/// Whether pixel (px, py) is lit by a segment of a symbol.
pub open spec fn digit_lit(d: DigitDraw, px: int, py: int) -> bool {
    let bits = segment_bits(d.number);
    let half = d.height / 2;
    let (x, y, w, t, h) = (d.x as int, d.y as int, d.width as int, d.thickness as int, d.height as int);
    ||| seg(bits, 0b00000001) && in_rect(px, py, x, y + half, t, half as int)
    ||| seg(bits, 0b00000010) && in_rect(px, py, x, y, t, half as int)
    ||| seg(bits, 0b00000100) && in_rect(px, py, x, y + h - t, w, t)
    ||| seg(bits, 0b00001000) && in_rect(px, py, x + w - t, y + half, t, half as int)
    ||| seg(bits, 0b00010000) && in_rect(px, py, x + w - t, y, t, half as int)
    ||| seg(bits, 0b00100000) && in_rect(px, py, x, y, w, t)
    ||| seg(bits, 0b01000000) && in_rect(px, py, x, y + half - t / 2, w, t)
}

/// The frame buffer of the panel.
pub struct FrameBuffer {
    bytes: Vec<u8>,
}

impl View for FrameBuffer {
    type V = Seq<u8>;

    closed spec fn view(&self) -> Seq<u8> {
        self.bytes@
    }
}

/// Each on-screen pixel lives in its own byte and bit: its byte is in page
/// `7 - y / 8` at column x.
pub proof fn lemma_pixel_index(x: int, y: int)
    requires
        on_screen(x, y),
    ensures
        0 <= pixel_index(x, y) < 1024,
        pixel_index(x, y) / 128 == 7 - y / 8,
        pixel_index(x, y) % 128 == x,
{
    lemma_fundamental_div_mod_converse(pixel_index(x, y), 128, 7 - y / 8, x);
}

proof fn lemma_same_byte_other_bit(x1: int, y1: int, x2: int, y2: int)
    requires
        on_screen(x1, y1),
        on_screen(x2, y2),
        pixel_index(x1, y1) == pixel_index(x2, y2),
        !(x1 == x2 && y1 == y2),
    ensures
        y1 % 8 != y2 % 8,
{
    lemma_pixel_index(x1, y1);
    lemma_pixel_index(x2, y2);
}

proof fn lemma_mask_bits(b: u8, s1: u8, s2: u8)
    requires
        s1 < 8,
        s2 < 8,
    ensures
        (b | (0x80u8 >> s1)) & (0x80u8 >> s1) != 0,
        s1 != s2 ==> (((b | (0x80u8 >> s1)) & (0x80u8 >> s2) != 0) == (b & (0x80u8 >> s2) != 0)),
        (0u8 & (0x80u8 >> s1)) == 0,
{
    assert((b | (0x80u8 >> s1)) & (0x80u8 >> s1) != 0) by (bit_vector)
        requires
            s1 < 8,
    ;
    assert(s1 != s2 ==> (((b | (0x80u8 >> s1)) & (0x80u8 >> s2) != 0) == (b & (0x80u8 >> s2)
        != 0))) by (bit_vector)
        requires
            s1 < 8,
            s2 < 8,
    ;
    assert((0u8 & (0x80u8 >> s1)) == 0) by (bit_vector);
}

proof fn lemma_bit_of_byte(i: int, k: int)
    requires
        0 <= i < 1024,
        0 <= k < 8,
    ensures
        on_screen(i % 128, (7 - i / 128) * 8 + k),
        pixel_index(i % 128, (7 - i / 128) * 8 + k) == i,
        pixel_mask((7 - i / 128) * 8 + k) == 0x80u8 >> (k as u8),
{
    let p = i / 128;
    lemma_fundamental_div_mod_converse((7 - p) * 8 + k, 8, 7 - p, k);
    lemma_fundamental_div_mod_converse(i, 128, p, i % 128);
}

/// Bit k (counted from the top row) of buffer byte i, as a pixel.
pub open spec fn byte_pixel_on(buf: Seq<u8>, i: int, k: int) -> bool {
    pixel_on(buf, i % 128, (7 - i / 128) * 8 + k)
}

proof fn lemma_byte_from_its_pixels(a: Seq<u8>, b: Seq<u8>, i: int)
    requires
        a.len() == OLED_BUFFER_LEN,
        b.len() == OLED_BUFFER_LEN,
        0 <= i < 1024,
        forall|k: int| 0 <= k < 8 ==> #[trigger] byte_pixel_on(a, i, k) == byte_pixel_on(b, i, k),
    ensures
        a[i] == b[i],
{
    lemma_bit_of_byte(i, 0);
    lemma_bit_of_byte(i, 1);
    lemma_bit_of_byte(i, 2);
    lemma_bit_of_byte(i, 3);
    lemma_bit_of_byte(i, 4);
    lemma_bit_of_byte(i, 5);
    lemma_bit_of_byte(i, 6);
    lemma_bit_of_byte(i, 7);
    let (u, v) = (a[i], b[i]);
    assert(byte_pixel_on(a, i, 0) == byte_pixel_on(b, i, 0));
    assert(byte_pixel_on(a, i, 1) == byte_pixel_on(b, i, 1));
    assert(byte_pixel_on(a, i, 2) == byte_pixel_on(b, i, 2));
    assert(byte_pixel_on(a, i, 3) == byte_pixel_on(b, i, 3));
    assert(byte_pixel_on(a, i, 4) == byte_pixel_on(b, i, 4));
    assert(byte_pixel_on(a, i, 5) == byte_pixel_on(b, i, 5));
    assert(byte_pixel_on(a, i, 6) == byte_pixel_on(b, i, 6));
    assert(byte_pixel_on(a, i, 7) == byte_pixel_on(b, i, 7));
    assert(u == v) by (bit_vector)
        requires
            (u & (0x80u8 >> 0u8) != 0) == (v & (0x80u8 >> 0u8) != 0),
            (u & (0x80u8 >> 1u8) != 0) == (v & (0x80u8 >> 1u8) != 0),
            (u & (0x80u8 >> 2u8) != 0) == (v & (0x80u8 >> 2u8) != 0),
            (u & (0x80u8 >> 3u8) != 0) == (v & (0x80u8 >> 3u8) != 0),
            (u & (0x80u8 >> 4u8) != 0) == (v & (0x80u8 >> 4u8) != 0),
            (u & (0x80u8 >> 5u8) != 0) == (v & (0x80u8 >> 5u8) != 0),
            (u & (0x80u8 >> 6u8) != 0) == (v & (0x80u8 >> 6u8) != 0),
            (u & (0x80u8 >> 7u8) != 0) == (v & (0x80u8 >> 7u8) != 0),
    ;
}

/// Two buffers that agree on every pixel are equal: the pixels cover every
/// bit of every byte.
pub proof fn lemma_pixels_determine_buffer(a: Seq<u8>, b: Seq<u8>)
    requires
        a.len() == OLED_BUFFER_LEN,
        b.len() == OLED_BUFFER_LEN,
        forall|x: int, y: int| on_screen(x, y) ==> pixel_on(a, x, y) == pixel_on(b, x, y),
    ensures
        a == b,
{
    assert forall|i: int| 0 <= i < 1024 implies a[i] == b[i] by {
        assert forall|k: int| 0 <= k < 8 implies #[trigger] byte_pixel_on(a, i, k)
            == byte_pixel_on(b, i, k) by {
            lemma_bit_of_byte(i, k);
        }
        lemma_byte_from_its_pixels(a, b, i);
    }
    assert(a =~= b);
}

/// The bytes a glyph leaves in its region, and so what is sent of it, do not
/// depend on what the buffer held before: the region is cleared first.
pub proof fn lemma_glyph_region_independent_of_buffer(
    a0: Seq<u8>,
    a1: Seq<u8>,
    b0: Seq<u8>,
    b1: Seq<u8>,
    d: DigitDraw,
)
    requires
        a0.len() == OLED_BUFFER_LEN,
        a1.len() == OLED_BUFFER_LEN,
        b0.len() == OLED_BUFFER_LEN,
        b1.len() == OLED_BUFFER_LEN,
        digit_drawable(d),
        forall|x: int, y: int|
            #![trigger pixel_on(a1, x, y)]
            on_screen(x, y) ==> pixel_on(a1, x, y) == ((!in_region(pixel_index(x, y), digit_region(d))
                && pixel_on(a0, x, y)) || digit_lit(d, x, y)),
        forall|x: int, y: int|
            #![trigger pixel_on(b1, x, y)]
            on_screen(x, y) ==> pixel_on(b1, x, y) == ((!in_region(pixel_index(x, y), digit_region(d))
                && pixel_on(b0, x, y)) || digit_lit(d, x, y)),
    ensures
        forall|i: int|
            0 <= i < OLED_BUFFER_LEN && in_region(i, digit_region(d)) ==> #[trigger] a1[i] == b1[i],
        region_payload(a1, digit_region(d)) == region_payload(b1, digit_region(d)),
{
    let r = digit_region(d);
    assert forall|i: int|
        0 <= i < OLED_BUFFER_LEN && in_region(i, r) implies #[trigger] a1[i] == b1[i] by {
        assert forall|k: int| 0 <= k < 8 implies #[trigger] byte_pixel_on(a1, i, k)
            == byte_pixel_on(b1, i, k) by {
            lemma_bit_of_byte(i, k);
        }
        lemma_byte_from_its_pixels(a1, b1, i);
    }
    let ncols: int = r.end_col - r.start_col + 1;
    let npages: int = r.end_page - r.start_page + 1;
    assert(ncols > 0 && npages > 0 && r.end_page as int * 128 + r.end_col < 1024);
    assert forall|k: int|
        0 <= k < npages * ncols implies #[trigger] a1[(r.start_page + k / ncols) * 128 + r.start_col
        + k % ncols] == b1[(r.start_page + k / ncols) * 128 + r.start_col + k % ncols] by {
        let q = k / ncols;
        let m = k % ncols;
        lemma_fundamental_div_mod(k, ncols);
        lemma_mod_pos_bound(k, ncols);
        assert(0 <= q < npages) by (nonlinear_arith)
            requires
                k == ncols * q + m,
                0 <= m < ncols,
                0 <= k < npages * ncols,
                ncols > 0,
        ;
        let i = (r.start_page + q) * 128 + r.start_col + m;
        assert(row_covers(i, r.start_page + q, r.start_col as int, r.end_col as int));
        assert(in_region(i, r));
        assert(0 <= i < OLED_BUFFER_LEN);
    }
    assert(region_payload(a1, r) =~= region_payload(b1, r));
}

impl FrameBuffer {
    /// The invariant of the buffer: its size.
    pub open spec fn wf(&self) -> bool {
        self@.len() == OLED_BUFFER_LEN
    }

    /// A blank buffer.
    pub fn new() -> (r: Self)
        ensures
            r.wf(),
            r@ == blank_buffer(),
    {
        let mut bytes: Vec<u8> = Vec::new();
        while bytes.len() < OLED_BUFFER_LEN
            invariant
                bytes@.len() <= OLED_BUFFER_LEN,
                forall|i: int| 0 <= i < bytes@.len() ==> bytes@[i] == 0u8,
            decreases OLED_BUFFER_LEN - bytes@.len(),
        {
            bytes.push(0);
        }
        let r = FrameBuffer { bytes };
        assert(r@ =~= blank_buffer());
        r
    }

    /// The byte at an index of the buffer.
    pub fn byte(&self, i: usize) -> (r: u8)
        requires
            self.wf(),
            i < OLED_BUFFER_LEN,
        ensures
            r == self@[i as int],
    {
        self.bytes[i]
    }

    /// Lights pixel (bx, by); a pixel off the panel is ignored.
    pub fn set_pixel(&mut self, bx: u8, by: u8)
        requires
            old(self).wf(),
        ensures
            final(self).wf(),
            final(self)@ == if on_screen(bx as int, by as int) {
                old(self)@.update(
                    pixel_index(bx as int, by as int),
                    old(self)@[pixel_index(bx as int, by as int)] | pixel_mask(by as int),
                )
            } else {
                old(self)@
            },
            forall|x: int, y: int|
                #![trigger pixel_on(final(self)@, x, y)]
                on_screen(x, y) ==> pixel_on(final(self)@, x, y) == (pixel_on(old(self)@, x, y) || (
                x == bx && y == by)),
    {
        if bx >= OLED_WIDTH || by >= OLED_HEIGHT {
            return ;
        }
        let page = 7 - (by / 8);
        let bit = 0x80u8 >> (by % 8);
        let idx = (page as usize) * 128 + bx as usize;
        proof {
            lemma_pixel_index(bx as int, by as int);
        }
        let old_byte = self.bytes[idx];
        self.bytes.set(idx, old_byte | bit);
        proof {
            assert forall|x: int, y: int|
                #![trigger pixel_on(self@, x, y)]
                on_screen(x, y) implies pixel_on(self@, x, y) == (pixel_on(old(self)@, x, y) || (x
                == bx && y == by)) by {
                lemma_pixel_index(x, y);
                if pixel_index(x, y) == idx {
                    if x == bx && y == by {
                        lemma_mask_bits(old_byte, (by % 8) as u8, (by % 8) as u8);
                    } else {
                        lemma_same_byte_other_bit(x, y, bx as int, by as int);
                        lemma_mask_bits(old_byte, (by % 8) as u8, (y % 8) as u8);
                    }
                } else {
                    if x == bx && y == by {
                        assert(false);
                    }
                }
            }
        }
    }

    /// Lights the rectangle of columns `x0..x0 + w` and rows `y0..y0 + thickness`,
    /// row by row.
    pub fn draw_horizontal(&mut self, x0: u8, y0: u8, w: u8, thickness: u8)
        requires
            old(self).wf(),
            rect_drawable(x0 as int, y0 as int, w as int, thickness as int),
        ensures
            final(self).wf(),
            forall|x: int, y: int|
                #![trigger pixel_on(final(self)@, x, y)]
                on_screen(x, y) ==> pixel_on(final(self)@, x, y) == (pixel_on(old(self)@, x, y)
                    || in_rect(x, y, x0 as int, y0 as int, w as int, thickness as int)),
    {
        let mut t: u8 = 0;
        while t < thickness
            invariant
                self.wf(),
                t <= thickness,
                rect_drawable(x0 as int, y0 as int, w as int, thickness as int),
                forall|x: int, y: int|
                    #![trigger pixel_on(self@, x, y)]
                    on_screen(x, y) ==> pixel_on(self@, x, y) == (pixel_on(old(self)@, x, y)
                        || in_rect(x, y, x0 as int, y0 as int, w as int, t as int)),
            decreases thickness - t,
        {
            let mut dx: u8 = 0;
            while dx < w
                invariant
                    self.wf(),
                    t < thickness,
                    dx <= w,
                    rect_drawable(x0 as int, y0 as int, w as int, thickness as int),
                    forall|x: int, y: int|
                        #![trigger pixel_on(self@, x, y)]
                        on_screen(x, y) ==> pixel_on(self@, x, y) == (pixel_on(old(self)@, x, y)
                            || in_rect(x, y, x0 as int, y0 as int, w as int, t as int) || (y == y0
                            + t && x0 <= x < x0 + dx)),
                decreases w - dx,
            {
                self.set_pixel(x0 + dx, y0 + t);
                dx += 1;
            }
            t += 1;
        }
    }

    /// Lights the rectangle of columns `x0..x0 + thickness` and rows `y0..y0 + h`,
    /// column by column.
    pub fn draw_vertical(&mut self, x0: u8, y0: u8, h: u8, thickness: u8)
        requires
            old(self).wf(),
            rect_drawable(x0 as int, y0 as int, thickness as int, h as int),
        ensures
            final(self).wf(),
            forall|x: int, y: int|
                #![trigger pixel_on(final(self)@, x, y)]
                on_screen(x, y) ==> pixel_on(final(self)@, x, y) == (pixel_on(old(self)@, x, y)
                    || in_rect(x, y, x0 as int, y0 as int, thickness as int, h as int)),
    {
        let mut t: u8 = 0;
        while t < thickness
            invariant
                self.wf(),
                t <= thickness,
                rect_drawable(x0 as int, y0 as int, thickness as int, h as int),
                forall|x: int, y: int|
                    #![trigger pixel_on(self@, x, y)]
                    on_screen(x, y) ==> pixel_on(self@, x, y) == (pixel_on(old(self)@, x, y)
                        || in_rect(x, y, x0 as int, y0 as int, t as int, h as int)),
            decreases thickness - t,
        {
            let mut dy: u8 = 0;
            while dy < h
                invariant
                    self.wf(),
                    t < thickness,
                    dy <= h,
                    rect_drawable(x0 as int, y0 as int, thickness as int, h as int),
                    forall|x: int, y: int|
                        #![trigger pixel_on(self@, x, y)]
                        on_screen(x, y) ==> pixel_on(self@, x, y) == (pixel_on(old(self)@, x, y)
                            || in_rect(x, y, x0 as int, y0 as int, t as int, h as int) || (x == x0
                            + t && y0 <= y < y0 + dy)),
                decreases h - dy,
            {
                self.set_pixel(x0 + t, y0 + dy);
                dy += 1;
            }
            t += 1;
        }
    }

    /// The bytes of a region in the order the panel takes them: page by page,
    /// each page from its first column to its last.
    pub fn region_bytes(&self, r: ByteRegion) -> (out: Vec<u8>)
        requires
            self.wf(),
            region_fits(r),
        ensures
            out@ == region_payload(self@, r),
    {
        let ghost ncols: int = r.end_col - r.start_col + 1;
        let mut out: Vec<u8> = Vec::new();
        let mut page: usize = r.start_page as usize;
        while page <= r.end_page as usize
            invariant
                self.wf(),
                region_fits(r),
                ncols == r.end_col - r.start_col + 1,
                r.start_page <= page <= r.end_page + 1,
                out@.len() == (page - r.start_page) * ncols,
                forall|k: int|
                    0 <= k < out@.len() ==> #[trigger] out@[k] == self@[(r.start_page + k / ncols)
                        * 128 + r.start_col + k % ncols],
            decreases r.end_page + 1 - page,
        {
            let mut col: usize = r.start_col as usize;
            while col <= r.end_col as usize
                invariant
                    self.wf(),
                    region_fits(r),
                    ncols == r.end_col - r.start_col + 1,
                    r.start_page <= page <= r.end_page,
                    r.start_col <= col <= r.end_col + 1,
                    out@.len() == (page - r.start_page) * ncols + (col - r.start_col),
                    forall|k: int|
                        0 <= k < out@.len() ==> #[trigger] out@[k] == self@[(r.start_page + k
                            / ncols) * 128 + r.start_col + k % ncols],
                decreases r.end_col + 1 - col,
            {
                proof {
                    lemma_fundamental_div_mod_converse(
                        out@.len() as int,
                        ncols,
                        page - r.start_page,
                        col - r.start_col,
                    );
                }
                out.push(self.bytes[page * 128 + col]);
                col += 1;
            }
            proof {
                assert((page - r.start_page) * ncols + ncols == (page + 1 - r.start_page) * ncols)
                    by (nonlinear_arith);
            }
            page += 1;
        }
        proof {
            assert(out@ =~= region_payload(self@, r));
        }
        out
    }

    /// Zeroes the top two pages (the upper sixteen rows).
    pub fn clear_top(&mut self)
        requires
            old(self).wf(),
        ensures
            final(self).wf(),
            final(self)@ == top_cleared(old(self)@),
    {
        let mut i: usize = 0;
        while i < 256
            invariant
                self.wf(),
                i <= 256,
                forall|j: int|
                    0 <= j < OLED_BUFFER_LEN ==> #[trigger] self@[j] == if j < i {
                        0u8
                    } else {
                        old(self)@[j]
                    },
            decreases 256 - i,
        {
            self.bytes.set(i, 0);
            i += 1;
        }
        assert(self@ =~= top_cleared(old(self)@));
    }

    /// Zeroes the whole buffer.
    pub fn clear(&mut self)
        requires
            old(self).wf(),
        ensures
            final(self).wf(),
            final(self)@ == blank_buffer(),
    {
        let mut i: usize = 0;
        while i < OLED_BUFFER_LEN
            invariant
                self.wf(),
                i <= OLED_BUFFER_LEN,
                forall|j: int| 0 <= j < i ==> #[trigger] self@[j] == 0u8,
            decreases OLED_BUFFER_LEN - i,
        {
            self.bytes.set(i, 0);
            i += 1;
        }
        assert(self@ =~= blank_buffer());
    }

    /// Zeroes the bytes of a region, page by page.
    fn clear_region(&mut self, r: ByteRegion)
        requires
            old(self).wf(),
            region_fits(r),
        ensures
            final(self).wf(),
            forall|i: int|
                0 <= i < OLED_BUFFER_LEN ==> #[trigger] final(self)@[i] == if in_region(i, r) {
                    0u8
                } else {
                    old(self)@[i]
                },
    {
        let mut page: usize = r.start_page as usize;
        while page <= r.end_page as usize
            invariant
                self.wf(),
                region_fits(r),
                r.start_page <= page <= r.end_page + 1,
                forall|i: int|
                    0 <= i < OLED_BUFFER_LEN ==> #[trigger] self@[i] == if rows_cover(
                        i,
                        r.start_page as int,
                        page as int,
                        r.start_col as int,
                        r.end_col as int,
                    ) {
                        0u8
                    } else {
                        old(self)@[i]
                    },
            decreases r.end_page + 1 - page,
        {
            let mut col: usize = r.start_col as usize;
            while col <= r.end_col as usize
                invariant
                    self.wf(),
                    region_fits(r),
                    r.start_page <= page <= r.end_page,
                    r.start_col <= col <= r.end_col + 1,
                    forall|i: int|
                        0 <= i < OLED_BUFFER_LEN ==> #[trigger] self@[i] == if rows_cover(
                            i,
                            r.start_page as int,
                            page as int,
                            r.start_col as int,
                            r.end_col as int,
                        ) || (page * 128 + r.start_col <= i < page * 128 + col) {
                            0u8
                        } else {
                            old(self)@[i]
                        },
                decreases r.end_col + 1 - col,
            {
                let idx = page * 128 + col;
                self.bytes.set(idx, 0);
                col += 1;
            }
            proof {
                assert forall|i: int|
                    rows_cover(
                        i,
                        r.start_page as int,
                        page + 1,
                        r.start_col as int,
                        r.end_col as int,
                    ) <==> (rows_cover(
                        i,
                        r.start_page as int,
                        page as int,
                        r.start_col as int,
                        r.end_col as int,
                    ) || (page * 128 + r.start_col <= i <= page * 128 + r.end_col)) by {
                    if page * 128 + r.start_col <= i <= page * 128 + r.end_col {
                        assert(row_covers(i, page as int, r.start_col as int, r.end_col as int));
                    }
                }
            }
            page += 1;
        }
    }

    /// Draws a seven-segment digit: the bytes of its region are cleared, then
    /// the segments of the digit are lit. Returns the region to send to the panel.
    pub fn draw_seven_segment_number(&mut self, d: DigitDraw) -> (r: ByteRegion)
        requires
            old(self).wf(),
            digit_drawable(d),
        ensures
            final(self).wf(),
            r == digit_region(d),
            region_fits(r),
            forall|x: int, y: int|
                #![trigger pixel_on(final(self)@, x, y)]
                on_screen(x, y) ==> pixel_on(final(self)@, x, y) == ((!in_region(
                    pixel_index(x, y),
                    r,
                ) && pixel_on(old(self)@, x, y)) || digit_lit(d, x, y)),
    {
        let height = d.height;
        let width = d.width;
        let thickness = d.thickness;
        let x = d.x;
        let y = d.y;
        let region = ByteRegion {
            start_page: 7 - ((y + height) / 8),
            end_page: 7 - (y / 8),
            start_col: x,
            end_col: x + width,
        };
        self.clear_region(region);
        proof {
            assert forall|px: int, py: int|
                #![trigger pixel_on(self@, px, py)]
                on_screen(px, py) implies pixel_on(self@, px, py) == (!in_region(
                    pixel_index(px, py),
                    region,
                ) && pixel_on(old(self)@, px, py)) by {
                lemma_pixel_index(px, py);
                lemma_mask_bits(0u8, (py % 8) as u8, (py % 8) as u8);
            }
        }
        let segments = segment_pattern(d.number);
        let half = height / 2;
        if segments & 0b00000001 != 0 {
            self.draw_vertical(x, y + half, half, thickness);
        }
        if segments & 0b00000010 != 0 {
            self.draw_vertical(x, y, half, thickness);
        }
        if segments & 0b00000100 != 0 {
            self.draw_horizontal(x, y + height - thickness, width, thickness);
        }
        if segments & 0b00001000 != 0 {
            self.draw_vertical(x + width - thickness, y + half, half, thickness);
        }
        if segments & 0b00010000 != 0 {
            self.draw_vertical(x + width - thickness, y, half, thickness);
        }
        if segments & 0b00100000 != 0 {
            self.draw_horizontal(x, y, width, thickness);
        }
        if segments & 0b01000000 != 0 {
            self.draw_horizontal(x, y + half - (thickness / 2), width, thickness);
        }
        region
    }
}

/// The segments lit for each symbol, one bit per segment: bit 0 upper left,
/// 1 lower left, 2 top, 3 upper right, 4 lower right, 5 bottom, 6 middle.
/// Symbols 0 to 9 are the digits (0 doubles as the letter o); 10 to 13 are
/// the letters n, c, e and f.
pub open spec fn segment_bits(number: u8) -> u8 {
    if number == 0 {
        0b00111111
    } else if number == 1 {
        0b00011000
    } else if number == 2 {
        0b01101110
    } else if number == 3 {
        0b01111100
    } else if number == 4 {
        0b01011001
    } else if number == 5 {
        0b01110101
    } else if number == 6 {
        0b01110111
    } else if number == 7 {
        0b00011100
    } else if number == 8 {
        0b01111111
    } else if number == 9 {
        0b01111101
    } else if number == 10 {
        0b00011111
    } else if number == 11 {
        0b00100111
    } else if number == 12 {
        0b01100111
    } else {
        0b01000111
    }
}

fn segment_pattern(number: u8) -> (r: u8)
    requires
        number < 14,
    ensures
        r == segment_bits(number),
{
    let segments_map: [u8; 14] = [
        0b00111111,
        0b00011000,
        0b01101110,
        0b01111100,
        0b01011001,
        0b01110101,
        0b01110111,
        0b00011100,
        0b01111111,
        0b01111101,
        0b00011111,
        0b00100111,
        0b01100111,
        0b01000111,
    ];
    segments_map[number as usize]
}

/// The initialisation commands of the panel, in order: display off, clock,
/// multiplex for 64 rows, offset, start line, charge pump on, horizontal
/// addressing, segment remap, COM scan direction, COM pins, contrast,
/// precharge, VCOMH level, resume from RAM, normal (not inverted), display on.
pub open spec fn init_sequence() -> Seq<u8> {
    seq![
        0xAEu8, 0xD5, 0x80, 0xA8, 0x3F, 0xD3, 0x00, 0x40, 0x8D, 0x14, 0x20, 0x00, 0xA1, 0xC8,
        0xDA, 0x12, 0x81, 0x01, 0xD9, 0x42, 0xDB, 0x40, 0xA4, 0xA6, 0xAF,
    ]
}

/// The initialisation commands of the panel, each to be sent in a command frame.
pub fn init_commands() -> (r: Vec<u8>)
    ensures
        r@ == init_sequence(),
{
    let r = vec![
        0xAEu8, 0xD5, 0x80, 0xA8, 0x3F, 0xD3, 0x00, 0x40, 0x8D, 0x14, 0x20, 0x00, 0xA1, 0xC8,
        0xDA, 0x12, 0x81, 0x01, 0xD9, 0x42, 0xDB, 0x40, 0xA4, 0xA6, 0xAF,
    ];
    assert(r@ =~= init_sequence());
    r
}

/// The frame that sends one command byte.
pub fn command_frame(cmd: u8) -> (r: [u8; 2])
    ensures
        r@ == seq![0x00u8, cmd],
{
    let r = [0x00, cmd];
    assert(r@ =~= seq![0x00u8, cmd]);
    r
}

/// The frame that sends one byte of pixel data.
pub fn data_frame(b: u8) -> (r: [u8; 2])
    ensures
        r@ == seq![0x40u8, b],
{
    let r = [0x40, b];
    assert(r@ =~= seq![0x40u8, b]);
    r
}

/// The frame that sets the column range of the data that follows.
pub fn column_range_frame(start: u8, end: u8) -> (r: [u8; 4])
    ensures
        r@ == seq![0x00u8, 0x21u8, start, end],
{
    let r = [0x00, 0x21, start, end];
    assert(r@ =~= seq![0x00u8, 0x21u8, start, end]);
    r
}

/// The frame that sets the page range of the data that follows.
pub fn page_range_frame(start: u8, end: u8) -> (r: [u8; 4])
    ensures
        r@ == seq![0x00u8, 0x22u8, start, end],
{
    let r = [0x00, 0x22, start, end];
    assert(r@ =~= seq![0x00u8, 0x22u8, start, end]);
    r
}

/// A large digit of the time (47 by 20 pixels, stroke 7) at the bottom.
pub open spec fn large_digit(x: u8, number: u8) -> DigitDraw {
    DigitDraw { height: 47, width: 20, thickness: 7, x, y: 0, number }
}

/// A small digit of the seconds (7 by 5 pixels, stroke 1) at the bottom.
pub open spec fn small_digit(x: u8, number: u8) -> DigitDraw {
    DigitDraw { height: 7, width: 5, thickness: 1, x, y: 0, number }
}

/// A symbol of the top line (14 by 8 pixels, stroke 3).
pub open spec fn top_symbol(x: u8, number: u8) -> DigitDraw {
    DigitDraw { height: 14, width: 8, thickness: 3, x, y: 48, number }
}

/// The digits drawn to show a time. In quick mode only what may have
/// changed is redrawn: the hours at the full hour, the minutes in the first
/// two seconds of a minute, and always the seconds.
pub open spec fn time_draw_list(hours: u8, minutes: u8, seconds: u8, quick_mode: bool) -> Seq<
    DigitDraw,
> {
    (if (seconds == 0 && minutes == 0) || !quick_mode {
        seq![large_digit(0, hours / 10), large_digit(25, hours % 10)]
    } else {
        Seq::empty()
    }) + (if seconds == 0 || seconds == 1 || !quick_mode {
        seq![large_digit(60, minutes / 10), large_digit(85, minutes % 10)]
    } else {
        Seq::empty()
    }) + seq![small_digit(110, seconds / 10), small_digit(117, seconds % 10)]
}

/// The symbols drawn on the top line to show a date: day, month, year.
pub open spec fn date_draw_list(date: u8, month: u8, year: u8) -> Seq<DigitDraw> {
    seq![
        top_symbol(20, date / 10),
        top_symbol(30, date % 10),
        top_symbol(50, month / 10),
        top_symbol(60, month % 10),
        top_symbol(90, year / 10),
        top_symbol(100, year % 10),
    ]
}

/// The word drawn on the top line for an alarm frequency: "on", "off", "once".
pub open spec fn frequency_draw_list(f: AlarmFrequency) -> Seq<DigitDraw> {
    match f {
        AlarmFrequency::On => seq![top_symbol(30, 0), top_symbol(40, 10)],
        AlarmFrequency::Off => seq![top_symbol(30, 0), top_symbol(40, 13), top_symbol(50, 13)],
        AlarmFrequency::Once => seq![
            top_symbol(30, 0),
            top_symbol(40, 10),
            top_symbol(50, 11),
            top_symbol(60, 12),
        ],
    }
}

/// Every symbol of a list can be drawn.
pub open spec fn all_drawable(draws: Seq<DigitDraw>) -> bool {
    forall|i: int| 0 <= i < draws.len() ==> digit_drawable(#[trigger] draws[i])
}

/// The digits to draw to show a time; all of them can be drawn when each
/// value is below 140.
pub fn time_draws(hours: u8, minutes: u8, seconds: u8, quick_mode: bool) -> (r: Vec<DigitDraw>)
    ensures
        r@ == time_draw_list(hours, minutes, seconds, quick_mode),
        hours < 140 && minutes < 140 && seconds < 140 ==> all_drawable(r@),
{
    let mut r: Vec<DigitDraw> = Vec::new();
    if (seconds == 0 && minutes == 0) || !quick_mode {
        r.push(DigitDraw { height: 47, width: 20, thickness: 7, x: 0, y: 0, number: hours / 10 });
        r.push(DigitDraw { height: 47, width: 20, thickness: 7, x: 25, y: 0, number: hours % 10 });
    }
    if (seconds == 0) || (seconds == 1) || !quick_mode {
        r.push(DigitDraw { height: 47, width: 20, thickness: 7, x: 60, y: 0, number: minutes / 10 });
        r.push(DigitDraw { height: 47, width: 20, thickness: 7, x: 85, y: 0, number: minutes % 10 });
    }
    r.push(DigitDraw { height: 7, width: 5, thickness: 1, x: 110, y: 0, number: seconds / 10 });
    r.push(DigitDraw { height: 7, width: 5, thickness: 1, x: 117, y: 0, number: seconds % 10 });
    assert(r@ =~= time_draw_list(hours, minutes, seconds, quick_mode));
    r
}

/// The symbols to draw to show a date; all of them can be drawn when each
/// value is below 140.
pub fn date_draws(date: u8, month: u8, year: u8) -> (r: Vec<DigitDraw>)
    ensures
        r@ == date_draw_list(date, month, year),
        date < 140 && month < 140 && year < 140 ==> all_drawable(r@),
{
    let mut r: Vec<DigitDraw> = Vec::new();
    r.push(DigitDraw { height: 14, width: 8, thickness: 3, x: 20, y: 48, number: date / 10 });
    r.push(DigitDraw { height: 14, width: 8, thickness: 3, x: 30, y: 48, number: date % 10 });
    r.push(DigitDraw { height: 14, width: 8, thickness: 3, x: 50, y: 48, number: month / 10 });
    r.push(DigitDraw { height: 14, width: 8, thickness: 3, x: 60, y: 48, number: month % 10 });
    r.push(DigitDraw { height: 14, width: 8, thickness: 3, x: 90, y: 48, number: year / 10 });
    r.push(DigitDraw { height: 14, width: 8, thickness: 3, x: 100, y: 48, number: year % 10 });
    assert(r@ =~= date_draw_list(date, month, year));
    r
}

/// The symbols to draw to show an alarm frequency; all of them can be drawn.
pub fn frequency_draws(frequency: AlarmFrequency) -> (r: Vec<DigitDraw>)
    ensures
        r@ == frequency_draw_list(frequency),
        all_drawable(r@),
{
    let mut r: Vec<DigitDraw> = Vec::new();
    r.push(DigitDraw { height: 14, width: 8, thickness: 3, x: 30, y: 48, number: 0 });
    match frequency {
        AlarmFrequency::On => {
            r.push(DigitDraw { height: 14, width: 8, thickness: 3, x: 40, y: 48, number: 10 });
        },
        AlarmFrequency::Off => {
            r.push(DigitDraw { height: 14, width: 8, thickness: 3, x: 40, y: 48, number: 13 });
            r.push(DigitDraw { height: 14, width: 8, thickness: 3, x: 50, y: 48, number: 13 });
        },
        AlarmFrequency::Once => {
            r.push(DigitDraw { height: 14, width: 8, thickness: 3, x: 40, y: 48, number: 10 });
            r.push(DigitDraw { height: 14, width: 8, thickness: 3, x: 50, y: 48, number: 11 });
            r.push(DigitDraw { height: 14, width: 8, thickness: 3, x: 60, y: 48, number: 12 });
        },
    }
    assert(r@ =~= frequency_draw_list(frequency));
    r
}

/// Symbol numbers of the letters drawn on the panel's top line.
pub const GLYPH_O: u8 = 0;
pub const GLYPH_N: u8 = 10;
pub const GLYPH_C: u8 = 11;
pub const GLYPH_E: u8 = 12;
pub const GLYPH_F: u8 = 13;

/// The bit of a glyph's segment pattern that lights a stroke.
pub open spec fn glyph_mask(s: Stroke) -> u8 {
    match s {
        Stroke::UpperLeft => 0x01,
        Stroke::LowerLeft => 0x02,
        Stroke::Top => 0x04,
        Stroke::UpperRight => 0x08,
        Stroke::LowerRight => 0x10,
        Stroke::Bottom => 0x20,
        Stroke::Middle => 0x40,
    }
}

/// The symbols whose figure has each stroke, listed stroke by stroke: the
/// digits 0 to 9 in the usual seven-segment shapes, and the letters n (an
/// arch), c, e and f.
pub open spec fn glyph_shows_stroke(number: u8, s: Stroke) -> bool {
    match s {
        Stroke::UpperLeft => number == 0 || number == 4 || number == 5 || number == 6 || number
            == 8 || number == 9 || number == GLYPH_N || number == GLYPH_C || number == GLYPH_E
            || number == GLYPH_F,
        Stroke::LowerLeft => number == 0 || number == 2 || number == 6 || number == 8 || number
            == GLYPH_N || number == GLYPH_C || number == GLYPH_E || number == GLYPH_F,
        Stroke::Top => number == 0 || number == 2 || number == 3 || number == 5 || number == 6
            || number == 7 || number == 8 || number == 9 || number == GLYPH_N || number == GLYPH_C
            || number == GLYPH_E || number == GLYPH_F,
        Stroke::UpperRight => number == 0 || number == 1 || number == 2 || number == 3 || number
            == 4 || number == 7 || number == 8 || number == 9 || number == GLYPH_N,
        Stroke::LowerRight => number == 0 || number == 1 || number == 3 || number == 4 || number
            == 5 || number == 6 || number == 7 || number == 8 || number == 9 || number == GLYPH_N,
        Stroke::Bottom => number == 0 || number == 2 || number == 3 || number == 5 || number == 6
            || number == 8 || number == 9 || number == GLYPH_C || number == GLYPH_E,
        Stroke::Middle => number == 2 || number == 3 || number == 4 || number == 5 || number == 6
            || number == 8 || number == 9 || number == GLYPH_E || number == GLYPH_F,
    }
}

/// Each symbol's segment pattern lights exactly the strokes of its figure.
pub proof fn lemma_glyph_patterns_draw_symbols(number: u8, s: Stroke)
    requires
        number < 14,
    ensures
        seg(segment_bits(number), glyph_mask(s)) == glyph_shows_stroke(number, s),
{
    lemma_byte_bits(segment_bits(number));
}

/// The pixels of a stroke of a glyph placed by `d`: the vertical strokes
/// are `thickness` wide and half the height tall, the horizontal ones span
/// the width and are `thickness` tall; the middle one is centred on half
/// the height.
pub open spec fn in_stroke(d: DigitDraw, s: Stroke, px: int, py: int) -> bool {
    let half = d.height / 2;
    let (x, y, w, t, h) = (d.x as int, d.y as int, d.width as int, d.thickness as int, d.height as int);
    match s {
        Stroke::UpperLeft => in_rect(px, py, x, y + half, t, half as int),
        Stroke::LowerLeft => in_rect(px, py, x, y, t, half as int),
        Stroke::Top => in_rect(px, py, x, y + h - t, w, t),
        Stroke::UpperRight => in_rect(px, py, x + w - t, y + half, t, half as int),
        Stroke::LowerRight => in_rect(px, py, x + w - t, y, t, half as int),
        Stroke::Bottom => in_rect(px, py, x, y, w, t),
        Stroke::Middle => in_rect(px, py, x, y + half - t / 2, w, t),
    }
}

/// A drawn glyph lights a pixel exactly when the pixel lies in one of the
/// strokes of the symbol's figure.
pub proof fn lemma_glyph_lights_its_strokes(d: DigitDraw, px: int, py: int)
    requires
        d.number < 14,
    ensures
        digit_lit(d, px, py) == exists|s: Stroke|
            glyph_shows_stroke(d.number, s) && #[trigger] in_stroke(d, s, px, py),
{
    lemma_glyph_patterns_draw_symbols(d.number, Stroke::UpperLeft);
    lemma_glyph_patterns_draw_symbols(d.number, Stroke::LowerLeft);
    lemma_glyph_patterns_draw_symbols(d.number, Stroke::Top);
    lemma_glyph_patterns_draw_symbols(d.number, Stroke::UpperRight);
    lemma_glyph_patterns_draw_symbols(d.number, Stroke::LowerRight);
    lemma_glyph_patterns_draw_symbols(d.number, Stroke::Bottom);
    lemma_glyph_patterns_draw_symbols(d.number, Stroke::Middle);
    if digit_lit(d, px, py) {
        if seg(segment_bits(d.number), 0x01) && in_stroke(d, Stroke::UpperLeft, px, py) {
        } else if seg(segment_bits(d.number), 0x02) && in_stroke(d, Stroke::LowerLeft, px, py) {
        } else if seg(segment_bits(d.number), 0x04) && in_stroke(d, Stroke::Top, px, py) {
        } else if seg(segment_bits(d.number), 0x08) && in_stroke(d, Stroke::UpperRight, px, py) {
        } else if seg(segment_bits(d.number), 0x10) && in_stroke(d, Stroke::LowerRight, px, py) {
        } else if seg(segment_bits(d.number), 0x20) && in_stroke(d, Stroke::Bottom, px, py) {
        } else {
            assert(in_stroke(d, Stroke::Middle, px, py));
        }
    }
}

/// The glyphs of a list stand left to right, in list order, without touching.
pub open spec fn left_to_right(l: Seq<DigitDraw>) -> bool {
    forall|i: int, j: int| 0 <= i < j < l.len() ==> #[trigger] l[i].x + l[i].width < #[trigger] l[j].x
}

/// Two glyphs, left then right, read as the two-digit decimal value `v`.
pub open spec fn pair_reads(tens: DigitDraw, ones: DigitDraw, v: u8) -> bool {
    tens.number < 10 && ones.number < 10 && tens.number * 10 + ones.number == v
}

/// The symbols of a list, in order.
pub open spec fn symbols(l: Seq<DigitDraw>) -> Seq<u8> {
    l.map_values(|d: DigitDraw| d.number)
}

/// A full time display is hours, minutes and seconds read left to right:
/// four large glyphs for hours and minutes, two small ones for the seconds,
/// all on the bottom edge. Quick mode draws only the pairs that may have
/// changed: the hours at the full hour, the minutes in the first two seconds
/// of a minute, the seconds always.
pub proof fn lemma_time_layout(hours: u8, minutes: u8, seconds: u8)
    requires
        hours < 100,
        minutes < 100,
        seconds < 100,
    ensures
        ({
            let l = time_draw_list(hours, minutes, seconds, false);
            &&& l.len() == 6
            &&& left_to_right(l)
            &&& pair_reads(l[0], l[1], hours)
            &&& pair_reads(l[2], l[3], minutes)
            &&& pair_reads(l[4], l[5], seconds)
            &&& forall|i: int| 0 <= i < 6 ==> (#[trigger] l[i]).y == 0
            &&& forall|i: int| 0 <= i < 4 ==> (#[trigger] l[i]).height == 47
            &&& l[4].height == 7 && l[5].height == 7
            &&& time_draw_list(hours, minutes, seconds, true) == (if seconds == 0 && minutes == 0 {
                l.subrange(0, 2)
            } else {
                Seq::empty()
            }) + (if seconds == 0 || seconds == 1 {
                l.subrange(2, 4)
            } else {
                Seq::empty()
            }) + l.subrange(4, 6)
        }),
{
    let l = time_draw_list(hours, minutes, seconds, false);
    assert(l =~= seq![
        large_digit(0, hours / 10),
        large_digit(25, hours % 10),
        large_digit(60, minutes / 10),
        large_digit(85, minutes % 10),
        small_digit(110, seconds / 10),
        small_digit(117, seconds % 10),
    ]);
    let q = time_draw_list(hours, minutes, seconds, true);
    let e = Seq::<DigitDraw>::empty();
    assert(q =~= (if seconds == 0 && minutes == 0 {
        l.subrange(0, 2)
    } else {
        e
    }) + (if seconds == 0 || seconds == 1 {
        l.subrange(2, 4)
    } else {
        e
    }) + l.subrange(4, 6));
}

/// The date line reads day, month and year left to right, as three pairs
/// of top-line glyphs.
pub proof fn lemma_date_layout(date: u8, month: u8, year: u8)
    requires
        date < 100,
        month < 100,
        year < 100,
    ensures
        ({
            let l = date_draw_list(date, month, year);
            &&& l.len() == 6
            &&& left_to_right(l)
            &&& pair_reads(l[0], l[1], date)
            &&& pair_reads(l[2], l[3], month)
            &&& pair_reads(l[4], l[5], year)
            &&& forall|i: int| 0 <= i < 6 ==> (#[trigger] l[i]).y == 48 && l[i].height == 14
        }),
{
}

/// The frequency word spells "on", "off" or "once" left to right on the top line.
pub proof fn lemma_frequency_word(f: AlarmFrequency)
    ensures
        left_to_right(frequency_draw_list(f)),
        forall|i: int|
            0 <= i < frequency_draw_list(f).len() ==> (#[trigger] frequency_draw_list(f)[i]).y == 48,
        symbols(frequency_draw_list(f)) == match f {
            AlarmFrequency::On => seq![GLYPH_O, GLYPH_N],
            AlarmFrequency::Off => seq![GLYPH_O, GLYPH_F, GLYPH_F],
            AlarmFrequency::Once => seq![GLYPH_O, GLYPH_N, GLYPH_C, GLYPH_E],
        },
{
    let l = frequency_draw_list(f);
    assert(symbols(l) =~= match f {
        AlarmFrequency::On => seq![GLYPH_O, GLYPH_N],
        AlarmFrequency::Off => seq![GLYPH_O, GLYPH_F, GLYPH_F],
        AlarmFrequency::Once => seq![GLYPH_O, GLYPH_N, GLYPH_C, GLYPH_E],
    });
}

/// Clearing the top turns off exactly the upper sixteen rows of pixels and
/// keeps every other pixel; clearing the buffer turns off every pixel.
pub proof fn lemma_clearing_pixels(buf: Seq<u8>)
    requires
        buf.len() == OLED_BUFFER_LEN,
    ensures
        forall|x: int, y: int|
            on_screen(x, y) ==> (#[trigger] pixel_on(top_cleared(buf), x, y) == (y < 48
                && pixel_on(buf, x, y))),
        forall|x: int, y: int|
            on_screen(x, y) ==> !#[trigger] pixel_on(
                blank_buffer(),
                x,
                y,
            ),
{
    assert forall|x: int, y: int| on_screen(x, y) implies (#[trigger] pixel_on(
        top_cleared(buf),
        x,
        y,
    ) == (y < 48 && pixel_on(buf, x, y))) by {
        lemma_pixel_index(x, y);
        lemma_mask_bits(0u8, (y % 8) as u8, (y % 8) as u8);
    }
    assert forall|x: int, y: int| on_screen(x, y) implies !#[trigger] pixel_on(
        blank_buffer(),
        x,
        y,
    ) by {
        lemma_pixel_index(x, y);
        lemma_mask_bits(0u8, (y % 8) as u8, (y % 8) as u8);
    }
}

} // verus!
