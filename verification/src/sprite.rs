//! The sprite engine: XOR-blitting an 8-wide sprite into the framebuffer
//! with edge clipping and pixel-collision detection.

use vstd::prelude::*;
use vstd::arithmetic::div_mod::{lemma_fundamental_div_mod, lemma_fundamental_div_mod_converse};

verus! {

/// Whether bit `c` (counted from the most significant, so column `c` of
/// the drawn row) is set in sprite byte `b`.
pub open spec fn sprite_bit(b: u8, c: int) -> bool
    recommends
        0 <= c < 8,
{
    b & (0x80u8 >> (c as u8)) != 0
}

/// How many of the 8 sprite columns survive clipping at the right edge
/// when drawing starts at column `ox`.
pub open spec fn clipped_cols(ox: int) -> int {
    if ox + 8 <= crate::WIDTH { 8int } else { crate::WIDTH - ox }
}

/// Whether pixel `p` (row-major index) is covered by a set sprite bit when
/// `rows` sprite bytes at `base` in memory are drawn with their top-left
/// corner at `(ox, oy)`. Pixels past the right or bottom edge are clipped,
/// never wrapped.
pub open spec fn covers(ram: Seq<u8>, base: int, ox: int, oy: int, rows: int, p: int) -> bool {
    let px = p % (crate::WIDTH as int);
    let py = p / (crate::WIDTH as int);
    &&& oy <= py < oy + rows
    &&& ox <= px < ox + clipped_cols(ox)
    &&& sprite_bit(ram[base + (py - oy)], px - ox)
}

/// Whether the drawing collides: some covered pixel was already on.
pub open spec fn hits(ram: Seq<u8>, fb: Seq<bool>, base: int, ox: int, oy: int, rows: int) -> bool {
    exists|p: int|
        0 <= p < crate::VRAM_SIZE && covers(ram, base, ox, oy, rows, p) && fb[p]
}

/// Whether pixel `p` lies strictly before sprite row `r`, column `c` in
/// drawing order (row-major within the sprite).
spec fn before(ox: int, oy: int, r: int, c: int, p: int) -> bool {
    let px = p % (crate::WIDTH as int);
    let py = p / (crate::WIDTH as int);
    py - oy < r || (py - oy == r && px - ox < c)
}

/// `covers`, restricted to the part of the sprite already drawn.
spec fn covers_upto(
    ram: Seq<u8>,
    base: int,
    ox: int,
    oy: int,
    rows: int,
    r: int,
    c: int,
    p: int,
) -> bool {
    covers(ram, base, ox, oy, rows, p) && before(ox, oy, r, c, p)
}

/// A pixel index decomposes into the column and row it was built from.
proof fn lemma_pixel_coords(px: int, py: int)
    requires
        0 <= px < crate::WIDTH,
        0 <= py,
    ensures
        (px + crate::WIDTH * py) % (crate::WIDTH as int) == px,
        (px + crate::WIDTH * py) / (crate::WIDTH as int) == py,
{
    lemma_fundamental_div_mod_converse(px + crate::WIDTH * py, crate::WIDTH as int, py, px);
}

/// XOR `rows` sprite bytes read from `ram` at `base` into the framebuffer
/// with their top-left corner at `(ox, oy)`, clipping at the right and
/// bottom edges, and report whether any pixel that was on was turned off.
#[verifier::loop_isolation(false)]
pub fn blit(fb: &mut Vec<bool>, ram: &Vec<u8>, base: usize, ox: usize, oy: usize, rows: usize) -> (hit: bool)
    requires
        old(fb)@.len() == crate::VRAM_SIZE,
        ram@.len() == crate::RAM_SIZE,
        ox < crate::WIDTH,
        oy < crate::HEIGHT,
        oy + rows <= crate::HEIGHT,
        base + rows <= crate::RAM_SIZE,
    ensures
        final(fb)@.len() == crate::VRAM_SIZE,
        forall|p: int|
            0 <= p < crate::VRAM_SIZE ==> final(fb)@[p] == (old(fb)@[p] != covers(
                ram@,
                base as int,
                ox as int,
                oy as int,
                rows as int,
                p,
            )),
        hit == hits(ram@, old(fb)@, base as int, ox as int, oy as int, rows as int),
{
    let ghost bs = base as int;
    let ghost xs = ox as int;
    let ghost ys = oy as int;
    let ghost rs = rows as int;
    let cols: usize = if ox + 8 <= crate::WIDTH { 8 } else { crate::WIDTH - ox };
    let mut hit = false;
    let ghost mut wit: int = 0;
    let mut row: usize = 0;
    while row < rows
        invariant
            row <= rows,
            fb@.len() == crate::VRAM_SIZE,
            forall|p: int|
                0 <= p < crate::VRAM_SIZE ==> fb@[p] == (old(fb)@[p] != covers_upto(
                    ram@, bs, xs, ys, rs, row as int, 0, p,
                )),
            hit ==> 0 <= wit < crate::VRAM_SIZE && covers(ram@, bs, xs, ys, rs, wit)
                && old(fb)@[wit],
            !hit ==> forall|p: int|
                0 <= p < crate::VRAM_SIZE && covers_upto(ram@, bs, xs, ys, rs, row as int, 0, p)
                    ==> !old(fb)@[p],
        decreases rows - row,
    {
        let data = ram[base + row];
        let mut col: usize = 0;
        while col < cols
            invariant
                col <= cols,
                row < rows,
                fb@.len() == crate::VRAM_SIZE,
                forall|p: int|
                    0 <= p < crate::VRAM_SIZE ==> fb@[p] == (old(fb)@[p] != covers_upto(
                        ram@, bs, xs, ys, rs, row as int, col as int, p,
                    )),
                hit ==> 0 <= wit < crate::VRAM_SIZE && covers(ram@, bs, xs, ys, rs, wit)
                    && old(fb)@[wit],
                !hit ==> forall|p: int|
                    0 <= p < crate::VRAM_SIZE && covers_upto(
                        ram@, bs, xs, ys, rs, row as int, col as int, p,
                    ) ==> !old(fb)@[p],
            decreases cols - col,
        {
            let loc = ox + col + (oy + row) * crate::WIDTH;
            proof {
                lemma_pixel_coords(ox + col, oy + row);
                assert((loc as int) % (crate::WIDTH as int) == ox + col);
                assert((loc as int) / (crate::WIDTH as int) == oy + row);
                // the only pixel whose drawn-before status changes this step is loc
                assert forall|p: int| 0 <= p < crate::VRAM_SIZE && p != loc implies covers_upto(
                    ram@, bs, xs, ys, rs, row as int, (col + 1) as int, p,
                ) == covers_upto(ram@, bs, xs, ys, rs, row as int, col as int, p) by {
                    lemma_fundamental_div_mod(p, crate::WIDTH as int);
                }
                assert(!before(xs, ys, row as int, col as int, loc as int));
                assert(before(xs, ys, row as int, (col + 1) as int, loc as int));
            }
            let on = data & (0x80u8 >> (col as u8)) != 0;
            proof {
                assert(on == sprite_bit(ram@[bs + row], col as int));
                assert(covers(ram@, bs, xs, ys, rs, loc as int) == on);
            }
            if on {
                if fb[loc] {
                    fb[loc] = false;
                    hit = true;
                    proof {
                        wit = loc as int;
                    }
                } else {
                    fb[loc] = true;
                }
            }
            col += 1;
        }
        proof {
            assert forall|p: int| 0 <= p < crate::VRAM_SIZE implies covers_upto(
                ram@, bs, xs, ys, rs, row as int, cols as int, p,
            ) == covers_upto(ram@, bs, xs, ys, rs, (row + 1) as int, 0, p) by {
                lemma_fundamental_div_mod(p, crate::WIDTH as int);
            }
        }
        row += 1;
    }
    proof {
        assert forall|p: int| 0 <= p < crate::VRAM_SIZE implies covers_upto(
            ram@, bs, xs, ys, rs, rows as int, 0, p,
        ) == covers(ram@, bs, xs, ys, rs, p) by {
            lemma_fundamental_div_mod(p, crate::WIDTH as int);
        }
        if hit {
            assert(hits(ram@, old(fb)@, bs, xs, ys, rs));
        }
    }
    hit
}

} // verus!
