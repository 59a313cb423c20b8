//! The picture that is sent to the display: one bit a pixel, row by row, the
//! leftmost pixel of a byte in its highest bit. A bit that is set is a pixel
//! that is off.

use vstd::prelude::*;

verus! {

/// Width and height of the picture in pixels.
pub const WIDTH: usize = 200;

/// Number of bytes of the picture.
pub const BUFFER_SIZE: usize = 5000;

/// A picture of the size of the display.
pub struct DrawBuffer([u8; 5000]);

/// The byte that holds the pixel in column `x` of row `y`.
pub open spec fn pixel_byte(x: int, y: int) -> int {
    (x + y * WIDTH) / 8
}

/// The bit of its byte that holds the pixel in column `x` of row `y`.
pub open spec fn pixel_mask(x: int, y: int) -> u8 {
    1u8 << ((7 - (x + y * WIDTH) % 8) as u8)
}

/// Whether the picture has a pixel in column `x` of row `y`.
pub open spec fn on_screen(x: int, y: int) -> bool {
    0 <= x < WIDTH && 0 <= y < WIDTH
}

/// What a byte of the picture holds once its pixel under `mask` has been
/// drawn.
pub open spec fn drawn_byte(byte: u8, mask: u8, on: bool) -> u8 {
    if on {
        byte & !mask
    } else {
        (byte & !mask) | mask
    }
}

/// Whether the pixel in column `x` of row `y` of the picture `bytes` is off.
pub open spec fn pixel_is_off(bytes: Seq<u8>, x: int, y: int) -> bool {
    bytes[pixel_byte(x, y)] & pixel_mask(x, y) != 0
}

/// The picture `bytes` after the pixel in column `x` of row `y` has been
/// drawn.
pub open spec fn drawn(bytes: Seq<u8>, x: int, y: int, on: bool) -> Seq<u8> {
    if on_screen(x, y) {
        bytes.update(pixel_byte(x, y), drawn_byte(bytes[pixel_byte(x, y)], pixel_mask(x, y), on))
    } else {
        bytes
    }
}

/// Drawing a pixel switches that pixel on or off and leaves every other
/// pixel of the picture as it was.
pub proof fn lemma_draw_changes_one_pixel(
    bytes: Seq<u8>,
    x: int,
    y: int,
    on: bool,
    other_x: int,
    other_y: int,
)
    requires
        bytes.len() == BUFFER_SIZE,
        on_screen(x, y),
        on_screen(other_x, other_y),
    ensures
        pixel_is_off(drawn(bytes, x, y, on), other_x, other_y) == if other_x == x && other_y == y {
            !on
        } else {
            pixel_is_off(bytes, other_x, other_y)
        },
{
    let index = x + y * WIDTH;
    let other = other_x + other_y * WIDTH;
    let byte = bytes[index / 8];
    let shift = (7 - index % 8) as u8;
    let other_shift = (7 - other % 8) as u8;
    let mask = 1u8 << shift;
    let other_mask = 1u8 << other_shift;
    assert((byte & !mask) & mask == 0 && ((byte & !mask) | mask) & mask != 0) by (bit_vector)
        requires
            mask == 1u8 << shift,
            shift < 8,
    ;
    assert(shift != other_shift ==> (byte & !mask) & other_mask == byte & other_mask && ((byte
        & !mask) | mask) & other_mask == byte & other_mask) by (bit_vector)
        requires
            mask == 1u8 << shift,
            other_mask == 1u8 << other_shift,
            shift < 8,
            other_shift < 8,
    ;
}

impl View for DrawBuffer {
    type V = Seq<u8>;

    closed spec fn view(&self) -> Seq<u8> {
        self.0@
    }
}

impl DrawBuffer {
    /// Whether the pixel in column `x` of row `y` is off.
    pub open spec fn is_off(&self, x: int, y: int) -> bool {
        pixel_is_off(self@, x, y)
    }

    /// The picture with every pixel off.
    pub fn empty() -> (picture: Self)
        ensures
            picture@.len() == BUFFER_SIZE,
            forall|i: int| 0 <= i < BUFFER_SIZE ==> picture@[i] == 0xFFu8,
    {
        DrawBuffer([0xFF;5000])
    }

    /// The bytes of the picture.
    pub fn buffer(&self) -> (bytes: &[u8])
        ensures
            bytes@ == self@,
    {
        self.0.as_slice()
    }

    /// Width and height of the picture in pixels.
    pub fn size(&self) -> (size: (u32, u32))
        ensures
            size == (WIDTH as u32, WIDTH as u32),
    {
        (WIDTH as u32, WIDTH as u32)
    }

    /// Draws one pixel: switches the pixel in column `x` of row `y` on or
    /// off. A pixel that the picture does not have is dropped.
    pub fn draw_pixel(&mut self, x: i32, y: i32, on: bool)
        ensures
            final(self)@.len() == old(self)@.len(),
            old(self)@.len() == BUFFER_SIZE,
            final(self)@ == drawn(old(self)@, x as int, y as int, on),
    {
        if 0 <= x && x <= 199 && 0 <= y && y <= 199 {
            let index = x as usize + y as usize * WIDTH;
            let shift = (7 - (index % 8)) as u8;
            let mask: u8 = 1u8 << shift;
            let byte = self.0[index / 8];
            let cleared = byte & !mask;
            if on {
                self.0[index / 8] = cleared;
            } else {
                self.0[index / 8] = cleared | mask;
            }
        }
    }
}

} // verus!
