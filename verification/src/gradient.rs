//! The pattern generator: fills a `PixelSurface` with a diagonally animated
//! two-channel gradient. For the pixel at column `x`, row `y`, the four bytes
//! in memory are blue `0`, green `0`, red `(x + x_offset) mod 256`, alpha
//! `(y + y_offset) mod 256`. The result is a pure function of the surface
//! size and the two scroll offsets.

use vstd::prelude::*;
use vstd::arithmetic::div_mod::lemma_add_mod_noop;
use vstd::arithmetic::div_mod::lemma_fundamental_div_mod_converse_div;
use vstd::arithmetic::div_mod::lemma_fundamental_div_mod_converse_mod;
use crate::surface::PixelSurface;
use crate::surface::BYTES_PER_PIXEL;

verus! {

/// The byte at channel `c` (0 blue, 1 green, 2 red, 3 alpha) of the gradient
/// pixel at column `x`, row `y`, under scroll offsets `(x_offset, y_offset)`.
pub open spec fn pixel_byte(x: int, y: int, c: int, x_offset: int, y_offset: int) -> u8 {
    if c == 2 {
        ((x + x_offset) % 256) as u8
    } else if c == 3 {
        ((y + y_offset) % 256) as u8
    } else {
        0u8
    }
}

/// The whole gradient image for a `width` by `height` surface, as the byte
/// sequence laid out row-major with four bytes per pixel.
pub open spec fn gradient_bytes(width: nat, height: nat, x_offset: int, y_offset: int) -> Seq<
    u8,
> {
    Seq::new(
        width * height * 4,
        |i: int|
            pixel_byte(
                (i / 4) % (width as int),
                (i / 4) / (width as int),
                i % 4,
                x_offset,
                y_offset,
            ),
    )
}

/// The gradient image has exactly `width * height * 4` bytes, and the four
/// bytes of the pixel at column `x`, row `y` are blue 0, green 0, red
/// `(x + x_offset) mod 256`, alpha `(y + y_offset) mod 256`.
pub proof fn lemma_gradient_pixel(
    width: nat,
    height: nat,
    x_offset: int,
    y_offset: int,
    x: int,
    y: int,
)
    requires
        0 <= x < width,
        0 <= y < height,
    ensures
        gradient_bytes(width, height, x_offset, y_offset).len() == width * height * 4,
        gradient_bytes(width, height, x_offset, y_offset)[(y * width + x) * 4] == 0u8,
        gradient_bytes(width, height, x_offset, y_offset)[(y * width + x) * 4 + 1] == 0u8,
        gradient_bytes(width, height, x_offset, y_offset)[(y * width + x) * 4 + 2] == ((x
            + x_offset) % 256) as u8,
        gradient_bytes(width, height, x_offset, y_offset)[(y * width + x) * 4 + 3] == ((y
            + y_offset) % 256) as u8,
{
    let w = width as int;
    let q = y * w + x;
    assert(0 <= q && q * 4 + 3 < width * height * 4) by (nonlinear_arith)
        requires
            0 <= x < width,
            0 <= y < height,
            w == width,
            q == y * w + x,
    ;
    lemma_fundamental_div_mod_converse_div(q * 4, 4, q, 0);
    lemma_fundamental_div_mod_converse_mod(q * 4, 4, q, 0);
    lemma_fundamental_div_mod_converse_div(q * 4 + 1, 4, q, 1);
    lemma_fundamental_div_mod_converse_mod(q * 4 + 1, 4, q, 1);
    lemma_fundamental_div_mod_converse_div(q * 4 + 2, 4, q, 2);
    lemma_fundamental_div_mod_converse_mod(q * 4 + 2, 4, q, 2);
    lemma_fundamental_div_mod_converse_div(q * 4 + 3, 4, q, 3);
    lemma_fundamental_div_mod_converse_mod(q * 4 + 3, 4, q, 3);
    lemma_fundamental_div_mod_converse_div(q, w, y, x);
    lemma_fundamental_div_mod_converse_mod(q, w, y, x);
}

/// Fill the whole surface with the gradient for the given scroll offsets.
/// Touches every byte of the buffer and nothing else; a zero-sized surface
/// is left untouched (zero writes) and the call still succeeds.
pub fn generate(surface: &mut PixelSurface, x_offset: u32, y_offset: u32)
    requires
        old(surface).wf(),
    ensures
        final(surface).wf(),
        final(surface).width == old(surface).width,
        final(surface).height == old(surface).height,
        final(surface).buffer@ == gradient_bytes(
            old(surface).width as nat,
            old(surface).height as nat,
            x_offset as int,
            y_offset as int,
        ),
{
    let width = surface.width;
    let height = surface.height;
    let ghost g = gradient_bytes(width as nat, height as nat, x_offset as int, y_offset as int);
    let mut y: usize = 0;
    while y < height
        invariant
            surface.wf(),
            surface.width == width,
            surface.height == height,
            y <= height,
            g == gradient_bytes(width as nat, height as nat, x_offset as int, y_offset as int),
            surface.buffer@.len() == width * height * 4,
            forall|i: int| 0 <= i < y * width * 4 ==> surface.buffer@[i] == g[i],
        decreases height - y,
    {
        proof {
            assert(0 <= y * width && y * width * 4 + width * 4 <= width * height * 4 && (y + 1) * (
            width as int) * 4 <= width * height * 4) by (nonlinear_arith)
                requires
                    y < height,
            ;
        }
        let row_base = y * width * BYTES_PER_PIXEL;
        let mut x: usize = 0;
        while x < width
            invariant
                surface.wf(),
                surface.width == width,
                surface.height == height,
                y < height,
                x <= width,
                row_base == y * width * 4,
                (y + 1) * (width as int) * 4 <= width * height * 4,
                g == gradient_bytes(width as nat, height as nat, x_offset as int, y_offset as int),
                surface.buffer@.len() == width * height * 4,
                forall|i: int| 0 <= i < y * width * 4 + x * 4 ==> surface.buffer@[i] == g[i],
            decreases width - x,
        {
            proof {
                assert(y * width * 4 + x * 4 + 4 <= (y + 1) * (width as int) * 4)
                    by (nonlinear_arith)
                    requires
                        x < width,
                ;
            }
            let base = row_base + x * BYTES_PER_PIXEL;
            let red = (((x % 256) as u32 + x_offset % 256) % 256) as u8;
            let alpha = (((y % 256) as u32 + y_offset % 256) % 256) as u8;
            proof {
                let w = width as int;
                let q = (y as int) * w + (x as int);
                assert(base == q * 4);
                lemma_fundamental_div_mod_converse_div(q * 4, 4, q, 0);
                lemma_fundamental_div_mod_converse_mod(q * 4, 4, q, 0);
                lemma_fundamental_div_mod_converse_div(q * 4 + 1, 4, q, 1);
                lemma_fundamental_div_mod_converse_mod(q * 4 + 1, 4, q, 1);
                lemma_fundamental_div_mod_converse_div(q * 4 + 2, 4, q, 2);
                lemma_fundamental_div_mod_converse_mod(q * 4 + 2, 4, q, 2);
                lemma_fundamental_div_mod_converse_div(q * 4 + 3, 4, q, 3);
                lemma_fundamental_div_mod_converse_mod(q * 4 + 3, 4, q, 3);
                lemma_fundamental_div_mod_converse_div(q, w, y as int, x as int);
                lemma_fundamental_div_mod_converse_mod(q, w, y as int, x as int);
                lemma_add_mod_noop(x as int, x_offset as int, 256);
                lemma_add_mod_noop(y as int, y_offset as int, 256);
                assert(g[base as int] == 0u8);
                assert(g[base as int + 1] == 0u8);
                assert(g[base as int + 2] == red);
                assert(g[base as int + 3] == alpha);
            }
            surface.buffer.set(base, 0u8);
            surface.buffer.set(base + 1, 0u8);
            surface.buffer.set(base + 2, red);
            surface.buffer.set(base + 3, alpha);
            x = x + 1;
            proof {
                assert(y * width * 4 + x * 4 == base + 4) by (nonlinear_arith)
                    requires
                        base == (y as int) * (width as int) * 4 + (x as int - 1) * 4,
                        x >= 1,
                ;
                assert forall|i: int| 0 <= i < y * width * 4 + x * 4 implies surface.buffer@[i]
                    == g[i] by {}
            }
        }
        y = y + 1;
        proof {
            assert(y * width * 4 == (y - 1) * (width as int) * 4 + width * 4)
                by (nonlinear_arith);
            assert forall|i: int| 0 <= i < y * width * 4 implies surface.buffer@[i] == g[i] by {}
        }
    }
    proof {
        assert(height * width * 4 == width * height * 4) by (nonlinear_arith);
        assert(surface.buffer@ =~= g);
    }
}

} // verus!
