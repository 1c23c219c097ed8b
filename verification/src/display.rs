//! The display compositor: draws a run of sprite bytes into the 64x32
//! framebuffer. Each byte is expanded most-significant-bit-first into 8
//! pixels; every pixel is XORed onto the screen at a position that wraps
//! on each axis independently, and the draw reports whether any lit pixel
//! was turned off.

use crate::machine::{DISPLAY_HEIGHT, DISPLAY_SIZE, DISPLAY_WIDTH};
use vstd::prelude::*;

verus! {

/// The 8 pixels of one sprite byte, most significant bit first.
pub open spec fn byte_bits(b: u8) -> Seq<bool> {
    seq![
        1u8 == (1u8 & (b >> 7)),
        1u8 == (1u8 & (b >> 6)),
        1u8 == (1u8 & (b >> 5)),
        1u8 == (1u8 & (b >> 4)),
        1u8 == (1u8 & (b >> 3)),
        1u8 == (1u8 & (b >> 2)),
        1u8 == (1u8 & (b >> 1)),
        1u8 == (1u8 & b),
    ]
}

/// Expands one sprite byte into its 8 pixels, most significant bit first.
pub fn byte_to_bits(b: &u8) -> (r: Vec<bool>)
    ensures
        r@ == byte_bits(*b),
{
    let mut r: Vec<bool> = Vec::new();
    r.push(1u8 == (1u8 & (*b >> 7)));
    r.push(1u8 == (1u8 & (*b >> 6)));
    r.push(1u8 == (1u8 & (*b >> 5)));
    r.push(1u8 == (1u8 & (*b >> 4)));
    r.push(1u8 == (1u8 & (*b >> 3)));
    r.push(1u8 == (1u8 & (*b >> 2)));
    r.push(1u8 == (1u8 & (*b >> 1)));
    r.push(1u8 == (1u8 & *b));
    proof {
        assert(r@ =~= byte_bits(*b));
    }
    r
}

/// The framebuffer and collision flag after the pixels of one sprite row
/// from column `xx` on are XORed in. `row_base` is the framebuffer index
/// of the row's leftmost pixel; columns wrap at the screen width. The
/// collision flag, once set, is never cleared.
pub open spec fn draw_row_from(
    dm: Seq<bool>,
    collision: bool,
    row: u8,
    start_x: int,
    row_base: int,
    xx: int,
) -> (Seq<bool>, bool)
    decreases 8 - xx,
{
    if xx < 0 || xx >= 8 {
        (dm, collision)
    } else {
        let pos: int = (start_x + xx) % (DISPLAY_WIDTH as int) + row_base;
        let pix: bool = byte_bits(row)[xx];
        let lit: bool = dm[pos];
        draw_row_from(dm.update(pos, lit ^ pix), collision || (lit && pix), row, start_x, row_base, xx + 1)
    }
}

/// The framebuffer and collision flag after the sprite rows from `yy` on
/// are XORed in. Row `yy` of the sprite lands on screen row
/// `(start_y + yy) % 32`: both axes wrap, so the screen is a torus.
pub open spec fn draw_rows_from(
    dm: Seq<bool>,
    collision: bool,
    sprite: Seq<u8>,
    start_x: int,
    start_y: int,
    yy: int,
) -> (Seq<bool>, bool)
    decreases sprite.len() - yy,
{
    if yy < 0 || yy >= sprite.len() {
        (dm, collision)
    } else {
        let row_base: int = (DISPLAY_WIDTH as int) * ((start_y + yy) % (DISPLAY_HEIGHT as int));
        let drawn: (Seq<bool>, bool) = draw_row_from(dm, collision, sprite[yy], start_x, row_base, 0);
        draw_rows_from(drawn.0, drawn.1, sprite, start_x, start_y, yy + 1)
    }
}

/// The framebuffer and collision flag a whole sprite draw produces.
pub open spec fn draw_sprite_spec(
    dm: Seq<bool>,
    sprite: Seq<u8>,
    start_x: int,
    start_y: int,
) -> (Seq<bool>, bool) {
    draw_rows_from(dm, false, sprite, start_x, start_y, 0)
}

/// A copy of the given framebuffer.
fn copy_pixels(src: &Vec<bool>) -> (r: Vec<bool>)
    ensures
        r@ == src@,
{
    let mut r: Vec<bool> = Vec::new();
    let mut i: usize = 0;
    while i < src.len()
        invariant
            i <= src@.len(),
            r@.len() == i,
            forall|j: int| 0 <= j < i ==> r@[j] == src@[j],
        decreases src@.len() - i,
    {
        r.push(src[i]);
        i = i + 1;
    }
    proof {
        assert(r@ =~= src@);
    }
    r
}

/// Draws the `n` sprite bytes at `reg_i` in `memory` onto the framebuffer
/// at `(start_x, start_y)`, wrapping on both axes, and reports whether
/// any previously lit pixel was turned off. Pure compute: the caller
/// presents the returned framebuffer however it wishes.
pub fn draw_sprite(
    display_memory: &Vec<bool>,
    memory: &Vec<u8>,
    reg_i: u16,
    n: u8,
    start_x: u8,
    start_y: u8,
) -> (r: (Vec<bool>, bool))
    requires
        display_memory@.len() == DISPLAY_SIZE,
        reg_i + n <= memory@.len(),
    ensures
        r.0@ == draw_sprite_spec(
            display_memory@,
            memory@.subrange(reg_i as int, reg_i + n),
            start_x as int,
            start_y as int,
        ).0,
        r.1 == draw_sprite_spec(
            display_memory@,
            memory@.subrange(reg_i as int, reg_i + n),
            start_x as int,
            start_y as int,
        ).1,
        r.0@.len() == display_memory@.len(),
{
    let ghost dm0 = display_memory@;
    let ghost sprite = memory@.subrange(reg_i as int, reg_i + n);
    let sx = start_x as usize;
    let sy = start_y as usize;
    let mut dm = copy_pixels(display_memory);
    let mut collision = false;
    let mut yy: usize = 0;
    while yy < n as usize
        invariant
            yy <= n as usize,
            dm@.len() == DISPLAY_SIZE,
            reg_i + n <= memory@.len(),
            sprite == memory@.subrange(reg_i as int, reg_i + n),
            sx == start_x as int,
            sy == start_y as int,
            draw_rows_from(dm@, collision, sprite, start_x as int, start_y as int, yy as int)
                == draw_sprite_spec(dm0, sprite, start_x as int, start_y as int),
        decreases n as usize - yy,
    {
        let row: u8 = memory[reg_i as usize + yy];
        proof {
            assert(row == sprite[yy as int]);
        }
        let bits = byte_to_bits(&row);
        let row_base: usize = DISPLAY_WIDTH * ((sy + yy) % DISPLAY_HEIGHT);
        let ghost dm_row = dm@;
        let ghost collision_row = collision;
        let mut xx: usize = 0;
        while xx < 8
            invariant
                xx <= 8,
                dm@.len() == DISPLAY_SIZE,
                bits@ == byte_bits(row),
                sx == start_x as int,
                row_base == (DISPLAY_WIDTH as int) * ((start_y as int + yy as int) % (
                DISPLAY_HEIGHT as int)),
                draw_row_from(dm@, collision, row, start_x as int, row_base as int, xx as int)
                    == draw_row_from(dm_row, collision_row, row, start_x as int, row_base as int, 0),
            decreases 8 - xx,
        {
            let ghost dm_prev = dm@;
            let ghost collision_prev = collision;
            let pos: usize = (sx + xx) % DISPLAY_WIDTH + row_base;
            let pix: bool = bits[xx];
            let lit: bool = dm[pos];
            if lit && pix {
                collision = true;
            }
            dm.set(pos, lit ^ pix);
            proof {
                assert(draw_row_from(dm_prev, collision_prev, row, start_x as int, row_base as int, xx as int)
                    == draw_row_from(dm@, collision, row, start_x as int, row_base as int, xx + 1));
            }
            xx = xx + 1;
        }
        proof {
            assert(draw_rows_from(dm_row, collision_row, sprite, start_x as int, start_y as int, yy as int)
                == draw_rows_from(dm@, collision, sprite, start_x as int, start_y as int, yy + 1));
        }
        yy = yy + 1;
    }
    (dm, collision)
}

} // verus!
