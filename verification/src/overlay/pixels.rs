//! Conversion of a captured X image region into RGBA bytes.

use vstd::prelude::*;
use vstd::arithmetic::power2::{pow2, lemma_pow2_unfold, lemma_pow2_pos, lemma2_to64};
use crate::selection::{SelectionRect, spec_clamped};

verus! {

/// The pixel data of a captured screen image, as the X server laid it out:
/// `height` rows of `bytes_per_line` bytes, each pixel `bits_per_pixel / 8`
/// bytes in little-endian order, with the colour channels picked out by the
/// three masks.
pub struct RawImage {
    pub width: u32,
    pub height: u32,
    pub bytes_per_line: usize,
    pub bits_per_pixel: u32,
    pub red_mask: u32,
    pub green_mask: u32,
    pub blue_mask: u32,
    pub data: Vec<u8>,
}

/// Whole bytes per pixel.
pub open spec fn bytes_per_pixel(img: &RawImage) -> int {
    (img.bits_per_pixel / 8) as int
}

impl RawImage {
    /// The buffer holds every row, and every row holds its pixels.
    pub open spec fn wf(&self) -> bool {
        &&& self.data@.len() >= self.height * self.bytes_per_line
        &&& self.bytes_per_line >= self.width * bytes_per_pixel(self)
    }
}

/// The number of trailing zero bits of a mask (zero for the empty mask): the
/// right shift that moves the mask's lowest set bit to bit 0.
pub open spec fn lowest_set_bit(mask: nat) -> nat
    decreases mask,
{
    if mask == 0 {
        0
    } else if mask % 2 == 1 {
        0
    } else {
        1 + lowest_set_bit(mask / 2)
    }
}

/// The little-endian value of the first `min(n, 4)` bytes at `off`.
pub open spec fn pixel_word(d: Seq<u8>, off: int, n: int) -> u32 {
    if n <= 0 {
        0
    } else if n == 1 {
        d[off] as u32
    } else if n == 2 {
        (d[off] as u32) | ((d[off + 1] as u32) << 8u32)
    } else if n == 3 {
        (d[off] as u32) | ((d[off + 1] as u32) << 8u32) | ((d[off + 2] as u32) << 16u32)
    } else {
        (d[off] as u32) | ((d[off + 1] as u32) << 8u32) | ((d[off + 2] as u32) << 16u32) | ((
        d[off + 3] as u32) << 24u32)
    }
}

/// The channel of a pixel word selected by `mask`, shifted down to bit 0 and
/// cut to a byte.
pub open spec fn channel(word: u32, mask: u32) -> u8 {
    ((word & mask) >> (lowest_set_bit(mask as nat) as u32)) as u8
}

/// The pixel word at column `px`, row `py` of the image.
pub open spec fn word_at(img: &RawImage, px: int, py: int) -> u32 {
    pixel_word(
        img.data@,
        py * img.bytes_per_line + px * bytes_per_pixel(img),
        bytes_per_pixel(img),
    )
}

/// Byte `c` (red, green, blue, alpha) of the RGBA pixel at column `col`,
/// row `row` of the region `r` of the image; alpha is always opaque.
pub open spec fn rgba_in(img: &RawImage, r: SelectionRect, row: int, col: int, c: int) -> u8 {
    let w = word_at(img, r.x + col, r.y + row);
    if c == 0 {
        channel(w, img.red_mask)
    } else if c == 1 {
        channel(w, img.green_mask)
    } else if c == 2 {
        channel(w, img.blue_mask)
    } else {
        255
    }
}

/// The position of byte `c` of the pixel at `row`, `col` in an RGBA buffer
/// whose rows are `w` pixels wide.
pub open spec fn slot(w: int, row: int, col: int, c: int) -> int {
    (row * w + col) * 4 + c
}

/// The right shift that moves a mask's lowest set bit to bit 0.
proof fn lemma_lowest_set_bit_below(m: nat, k: nat)
    requires
        0 < m < pow2(k),
    ensures
        lowest_set_bit(m) < k,
    decreases k,
{
    lemma_pow2_pos(k);
    if k == 0 {
        lemma2_to64();
    } else {
        lemma_pow2_unfold(k);
        if m % 2 == 0 {
            lemma_lowest_set_bit_below(m / 2, (k - 1) as nat);
        }
    }
}

proof fn lemma_low_bit(m: u32) by (bit_vector)
    ensures
        (m & 1 == 0) == (m % 2 == 0),
        m >> 1 == m / 2,
{
}

/// Calculates the right shift that moves a mask's lowest set bit to bit 0.
pub fn mask_shift(mask: u32) -> (s: u32)
    ensures
        s == lowest_set_bit(mask as nat),
        s < 32,
{
    if mask == 0 {
        return 0;
    }
    proof {
        lemma2_to64();
        lemma_lowest_set_bit_below(mask as nat, 32);
    }
    let mut s: u32 = 0;
    let mut m: u32 = mask;
    while m & 1 == 0
        invariant
            m > 0,
            s + lowest_set_bit(m as nat) == lowest_set_bit(mask as nat),
            lowest_set_bit(mask as nat) < 32,
        decreases m,
    {
        proof {
            lemma_low_bit(m);
        }
        s = s + 1;
        m = m >> 1;
    }
    proof {
        lemma_low_bit(m);
    }
    s
}

/// With the usual 24-bit colour masks, the channels of a 3- or 4-byte pixel
/// are its bytes 2, 1 and 0.
proof fn lemma_standard_masks(b0: u8, b1: u8, b2: u8, b3: u8) by (bit_vector)
    ensures
        ((((b0 as u32) | ((b1 as u32) << 8u32) | ((b2 as u32) << 16u32) | ((b3 as u32) << 24u32))
            & 0xFF0000u32) >> 16u32) as u8 == b2,
        ((((b0 as u32) | ((b1 as u32) << 8u32) | ((b2 as u32) << 16u32) | ((b3 as u32) << 24u32))
            & 0xFF00u32) >> 8u32) as u8 == b1,
        ((((b0 as u32) | ((b1 as u32) << 8u32) | ((b2 as u32) << 16u32) | ((b3 as u32) << 24u32))
            & 0xFFu32) >> 0u32) as u8 == b0,
        ((((b0 as u32) | ((b1 as u32) << 8u32) | ((b2 as u32) << 16u32)) & 0xFF0000u32)
            >> 16u32) as u8 == b2,
        ((((b0 as u32) | ((b1 as u32) << 8u32) | ((b2 as u32) << 16u32)) & 0xFF00u32) >> 8u32)
            as u8 == b1,
        ((((b0 as u32) | ((b1 as u32) << 8u32) | ((b2 as u32) << 16u32)) & 0xFFu32) >> 0u32)
            as u8 == b0,
{
}

/// The shifts of the usual 24-bit colour masks.
proof fn lemma_standard_shifts()
    ensures
        lowest_set_bit(0xFF0000) == 16,
        lowest_set_bit(0xFF00) == 8,
        lowest_set_bit(0xFF) == 0,
{
    reveal_with_fuel(lowest_set_bit, 17);
}

/// Reads the little-endian value of the first `min(bpp, 4)` bytes at `off`.
fn read_pixel_word(data: &Vec<u8>, off: usize, bpp: usize) -> (w: u32)
    requires
        bpp < 4 ==> off + bpp <= data@.len(),
        bpp >= 4 ==> off + 4 <= data@.len(),
    ensures
        w == pixel_word(data@, off as int, bpp as int),
{
    let len = data.len();
    if bpp == 0 {
        0
    } else if bpp == 1 {
        data[off] as u32
    } else if bpp == 2 {
        (data[off] as u32) | ((data[off + 1] as u32) << 8u32)
    } else if bpp == 3 {
        (data[off] as u32) | ((data[off + 1] as u32) << 8u32) | ((data[off + 2] as u32) << 16u32)
    } else {
        (data[off] as u32) | ((data[off + 1] as u32) << 8u32) | ((data[off + 2] as u32) << 16u32)
            | ((data[off + 3] as u32) << 24u32)
    }
}

/// Appends the RGBA bytes of the pixel at byte offset `off`.
fn push_pixel(
    pixels: &mut Vec<u8>,
    img: &RawImage,
    off: usize,
    bpp: usize,
    shifts: (u32, u32, u32),
    standard: bool,
)
    requires
        bpp as int == bytes_per_pixel(img),
        off + bpp <= img.data@.len(),
        shifts.0 == lowest_set_bit(img.red_mask as nat),
        shifts.1 == lowest_set_bit(img.green_mask as nat),
        shifts.2 == lowest_set_bit(img.blue_mask as nat),
        shifts.0 < 32 && shifts.1 < 32 && shifts.2 < 32,
        standard == ((bpp == 4 || bpp == 3) && img.red_mask == 0xFF0000 && img.green_mask
            == 0xFF00 && img.blue_mask == 0xFF),
    ensures
        ({
            let w = pixel_word(img.data@, off as int, bpp as int);
            final(pixels)@ == old(pixels)@.push(channel(w, img.red_mask)).push(
                channel(w, img.green_mask),
            ).push(channel(w, img.blue_mask)).push(255u8)
        }),
{
    let len = img.data.len();
    if standard {
        proof {
            lemma_standard_shifts();
            if bpp == 4 {
                lemma_standard_masks(
                    img.data@[off as int],
                    img.data@[off + 1],
                    img.data@[off + 2],
                    img.data@[off + 3],
                );
            } else {
                lemma_standard_masks(img.data@[off as int], img.data@[off + 1], img.data@[off + 2], 0);
            }
        }
        pixels.push(img.data[off + 2]);
        pixels.push(img.data[off + 1]);
        pixels.push(img.data[off]);
        pixels.push(255);
    } else {
        let word = read_pixel_word(&img.data, off, bpp);
        pixels.push(#[verifier::truncate] (((word & img.red_mask) >> shifts.0) as u8));
        pixels.push(#[verifier::truncate] (((word & img.green_mask) >> shifts.1) as u8));
        pixels.push(#[verifier::truncate] (((word & img.blue_mask) >> shifts.2) as u8));
        pixels.push(255);
    }
}

/// Pixel positions of earlier rows, and earlier columns of the same row, lie
/// before the position of the current pixel.
proof fn lemma_slot_order(w: int, row: int, col: int, c: int, y: int, x: int)
    by (nonlinear_arith)
    requires
        0 <= c < 4,
        0 <= col,
        0 <= x,
        (0 <= row < y && col < w) || (row == y && col < x),
    ensures
        slot(w, row, col, c) < slot(w, y, x, 0),
{
}

/// A row of the image lies within the buffer.
proof fn lemma_row_in_bounds(h: int, bpl: int, py: int, len: int)
    by (nonlinear_arith)
    requires
        0 <= py < h,
        0 <= bpl,
        len >= h * bpl,
    ensures
        py * bpl + bpl <= len,
        0 <= py * bpl,
{
}

/// A pixel of a row lies within the row.
proof fn lemma_column_in_bounds(bpl: int, w: int, bpp: int, px: int)
    by (nonlinear_arith)
    requires
        0 <= px < w,
        0 <= bpp,
        bpl >= w * bpp,
    ensures
        px * bpp + bpp <= bpl,
        0 <= px * bpp,
{
}

/// Copies the selected region of the image into RGBA bytes, row by row.
///
/// The selection is first clamped to the image so that no read falls
/// outside it. With the common 24-bit colour masks the bytes are read
/// directly; otherwise each channel is picked out by its mask.
pub fn extract_region(img: &RawImage, sel: &SelectionRect) -> (pixels: Vec<u8>)
    requires
        img.wf(),
    ensures
        ({
            let r = spec_clamped(*sel, img.width, img.height);
            &&& pixels@.len() == r.width * r.height * 4
            &&& forall|row: int, col: int, c: int|
                0 <= row < r.height && 0 <= col < r.width && 0 <= c < 4
                    ==> #[trigger] pixels@[slot(r.width as int, row, col, c)] == rgba_in(
                    img,
                    r,
                    row,
                    col,
                    c,
                )
        }),
{
    let r = sel.clamped_to(img.width, img.height);
    proof {
        crate::selection::lemma_clamped_within_screen(*sel, img.width, img.height);
    }
    let bpp: usize = (img.bits_per_pixel / 8) as usize;
    let shifts = (mask_shift(img.red_mask), mask_shift(img.green_mask), mask_shift(img.blue_mask));
    let standard = (bpp == 4 || bpp == 3) && img.red_mask == 0xFF0000 && img.green_mask == 0xFF00
        && img.blue_mask == 0xFF;
    let ghost w = r.width as int;
    let data_len = img.data.len();
    let mut pixels: Vec<u8> = Vec::new();
    let mut y: usize = 0;
    while y < r.height as usize
        invariant
            img.wf(),
            data_len == img.data@.len(),
            r == spec_clamped(*sel, img.width, img.height),
            r.x + r.width <= img.width,
            r.y + r.height <= img.height,
            w == r.width,
            bpp as int == bytes_per_pixel(img),
            shifts.0 == lowest_set_bit(img.red_mask as nat),
            shifts.1 == lowest_set_bit(img.green_mask as nat),
            shifts.2 == lowest_set_bit(img.blue_mask as nat),
            shifts.0 < 32 && shifts.1 < 32 && shifts.2 < 32,
            standard == ((bpp == 4 || bpp == 3) && img.red_mask == 0xFF0000 && img.green_mask
                == 0xFF00 && img.blue_mask == 0xFF),
            y <= r.height,
            pixels@.len() == slot(w, y as int, 0, 0),
            forall|row: int, col: int, c: int|
                0 <= row < y && 0 <= col < w && 0 <= c < 4 ==> #[trigger] pixels@[slot(
                    w,
                    row,
                    col,
                    c,
                )] == rgba_in(img, r, row, col, c),
        decreases r.height - y,
    {
        proof {
            lemma_row_in_bounds(
                img.height as int,
                img.bytes_per_line as int,
                r.y + y,
                img.data@.len() as int,
            );
        }
        let row_start: usize = (r.y as usize + y) * img.bytes_per_line;
        let mut x: usize = 0;
        while x < r.width as usize
            invariant
                img.wf(),
                data_len == img.data@.len(),
                r.x + r.width <= img.width,
                r.y + r.height <= img.height,
                w == r.width,
                bpp as int == bytes_per_pixel(img),
                shifts.0 == lowest_set_bit(img.red_mask as nat),
                shifts.1 == lowest_set_bit(img.green_mask as nat),
                shifts.2 == lowest_set_bit(img.blue_mask as nat),
                shifts.0 < 32 && shifts.1 < 32 && shifts.2 < 32,
                standard == ((bpp == 4 || bpp == 3) && img.red_mask == 0xFF0000
                    && img.green_mask == 0xFF00 && img.blue_mask == 0xFF),
                y < r.height,
                row_start == (r.y + y) * img.bytes_per_line,
                x <= r.width,
                pixels@.len() == slot(w, y as int, x as int, 0),
                forall|row: int, col: int, c: int|
                    ((0 <= row < y && 0 <= col < w) || (row == y && 0 <= col < x)) && 0 <= c < 4
                        ==> #[trigger] pixels@[slot(w, row, col, c)] == rgba_in(
                        img,
                        r,
                        row,
                        col,
                        c,
                    ),
            decreases r.width - x,
        {
            proof {
                lemma_row_in_bounds(
                    img.height as int,
                    img.bytes_per_line as int,
                    r.y + y,
                    img.data@.len() as int,
                );
                lemma_column_in_bounds(
                    img.bytes_per_line as int,
                    img.width as int,
                    bpp as int,
                    r.x + x,
                );
            }
            let off: usize = row_start + (r.x as usize + x) * bpp;
            let ghost before = pixels@;
            push_pixel(&mut pixels, img, off, bpp, shifts, standard);
            proof {
                assert(slot(w, y as int, x as int, 0) + 1 == slot(w, y as int, x as int, 1));
                assert(slot(w, y as int, x as int, 0) + 2 == slot(w, y as int, x as int, 2));
                assert(slot(w, y as int, x as int, 0) + 3 == slot(w, y as int, x as int, 3));
                assert(slot(w, y as int, x as int + 1, 0) == slot(w, y as int, x as int, 0) + 4);
                assert forall|row: int, col: int, c: int|
                    ((0 <= row < y && 0 <= col < w) || (row == y && 0 <= col < x + 1)) && 0 <= c
                        < 4 implies #[trigger] pixels@[slot(w, row, col, c)] == rgba_in(
                    img,
                    r,
                    row,
                    col,
                    c,
                ) by {
                    if row == y && col == x {
                    } else {
                        lemma_slot_order(w, row, col, c, y as int, x as int);
                        assert(pixels@[slot(w, row, col, c)] == before[slot(w, row, col, c)]);
                    }
                }
            }
            x = x + 1;
        }
        proof {
            assert(slot(w, y as int, w, 0) == slot(w, y + 1, 0, 0)) by (nonlinear_arith);
        }
        y = y + 1;
    }
    proof {
        assert(slot(w, r.height as int, 0, 0) == r.width * r.height * 4) by (nonlinear_arith)
            requires
                w == r.width,
        ;
    }
    pixels
}

/// With the common 24-bit colour masks, a 3- or 4-byte pixel reads as blue,
/// green, red in memory order: its RGBA bytes are its bytes 2, 1 and 0, and
/// an opaque alpha.
pub proof fn lemma_standard_masks_read_bgr(img: &RawImage, r: SelectionRect, row: int, col: int)
    requires
        bytes_per_pixel(img) == 4 || bytes_per_pixel(img) == 3,
        img.red_mask == 0xFF0000,
        img.green_mask == 0xFF00,
        img.blue_mask == 0xFF,
    ensures
        ({
            let off = (r.y + row) * img.bytes_per_line + (r.x + col) * bytes_per_pixel(img);
            &&& rgba_in(img, r, row, col, 0) == img.data@[off + 2]
            &&& rgba_in(img, r, row, col, 1) == img.data@[off + 1]
            &&& rgba_in(img, r, row, col, 2) == img.data@[off]
            &&& rgba_in(img, r, row, col, 3) == 255
        }),
{
    let off = (r.y + row) * img.bytes_per_line + (r.x + col) * bytes_per_pixel(img);
    lemma_standard_shifts();
    if bytes_per_pixel(img) == 4 {
        lemma_standard_masks(img.data@[off], img.data@[off + 1], img.data@[off + 2], img.data@[off + 3]);
    } else {
        lemma_standard_masks(img.data@[off], img.data@[off + 1], img.data@[off + 2], 0);
    }
}

} // verus!
