//! Sprite drawing: which pixels a sprite flips and the collision flag it leaves.

use vstd::prelude::*;

use crate::model::addr_at;

verus! {

/// Bit `k` of a sprite row, counting from the most significant bit.
pub open spec fn sprite_bit(row: u8, k: int) -> bool {
    (row >> ((7 - k) as u8)) & 1u8 == 1u8
}

/// The screen pixel hit by column `k` of row `j` of a sprite drawn at
/// `(dx, dy)`: both coordinates wrap around the screen edges.
pub open spec fn pixel_at(dx: int, dy: int, j: int, k: int) -> int {
    (dx + k) % 64 + ((dy + j) % 32) * 64
}

/// The sprite column that falls on pixel `p` when the sprite's left edge is at `dx`.
pub open spec fn col_offset(p: int, dx: int) -> int {
    (p % 64 - dx) % 64
}

/// The sprite row that falls on pixel `p` when the sprite's top edge is at `dy`.
pub open spec fn row_offset(p: int, dy: int) -> int {
    (p / 64 - dy) % 32
}

/// Pixel `p` is under a set bit of the `n`-row sprite stored at `i`, drawn at `(dx, dy)`.
pub open spec fn lit(mem: Seq<u8>, i: u16, dx: int, dy: int, n: int, p: int) -> bool {
    let j = row_offset(p, dy);
    let k = col_offset(p, dx);
    k < 8 && j < n && sprite_bit(mem[addr_at(i, j)], k)
}

/// The position of pixel `p` in the order the sprite is drawn: row by row,
/// left to right.
pub open spec fn scan_index(p: int, dx: int, dy: int) -> int {
    row_offset(p, dy) * 8 + col_offset(p, dx)
}

/// The screen after the first `t` sprite bits, in drawing order, have been
/// drawn: each set bit flips the pixel under it.
pub open spec fn drawn_upto(
    vmem: Seq<u8>,
    mem: Seq<u8>,
    i: u16,
    dx: int,
    dy: int,
    n: int,
    t: int,
) -> Seq<u8> {
    Seq::new(
        vmem.len(),
        |p: int|
            if lit(mem, i, dx, dy, n, p) && scan_index(p, dx, dy) < t {
                vmem[p] ^ 1u8
            } else {
                vmem[p]
            },
    )
}

/// The screen after the whole sprite has been drawn.
pub open spec fn drawn(vmem: Seq<u8>, mem: Seq<u8>, i: u16, dx: int, dy: int, n: int) -> Seq<u8> {
    drawn_upto(vmem, mem, i, dx, dy, n, 8 * n)
}

/// The collision flag after the first `t` sprite bits have been drawn: each
/// set bit replaces it with the old value of the pixel under it, so it ends as
/// that value for the last set bit, or 0 if no bit is set.
pub open spec fn collision(vmem: Seq<u8>, mem: Seq<u8>, i: u16, dx: int, dy: int, t: nat) -> u8
    decreases t,
{
    if t == 0 {
        0
    } else {
        let j = (t - 1) / 8;
        let k = (t - 1) % 8;
        if sprite_bit(mem[addr_at(i, j)], k) {
            vmem[pixel_at(dx, dy, j, k)]
        } else {
            collision(vmem, mem, i, dx, dy, (t - 1) as nat)
        }
    }
}

/// Where a sprite bit lands, and that no other bit lands there.
pub proof fn lemma_pixel_at(dx: int, dy: int, j: int, k: int)
    requires
        0 <= dx < 64,
        0 <= dy < 32,
        0 <= j < 32,
        0 <= k < 8,
    ensures
        0 <= pixel_at(dx, dy, j, k) < 2048,
        col_offset(pixel_at(dx, dy, j, k), dx) == k,
        row_offset(pixel_at(dx, dy, j, k), dy) == j,
        forall|p: int|
            0 <= p < 2048 && col_offset(p, dx) == k && row_offset(p, dy) == j ==> p == pixel_at(
                dx,
                dy,
                j,
                k,
            ),
{
    let px = (dx + k) % 64;
    let py = (dy + j) % 32;
    assert(0 <= px < 64 && 0 <= py < 32);
    let q = px + py * 64;
    assert(q % 64 == px && q / 64 == py);
    assert forall|p: int|
        0 <= p < 2048 && col_offset(p, dx) == k && row_offset(p, dy) == j implies p == q by {
        assert(p % 64 == px);
        assert(p / 64 == py);
        assert(p == (p / 64) * 64 + p % 64);
    }
}

} // verus!
