//! Proof support for the sprite draw: how far a row-by-row draw has got.
use vstd::prelude::*;

use crate::model::{sprite_bit, sprite_hit};

verus! {

/// Pixels `px` are `old_px` with the first `t` sprite cells drawn, the
/// cells being taken row by row, eight to a row.
#[verifier::opaque]
pub open spec fn drawn_upto(px: Seq<bool>, old_px: Seq<bool>, mem: Seq<u8>, i: int, vx: int, vy: int, n: int, t: int) -> bool {
    forall|rr: int, cc: int|
        0 <= rr < 32 && 0 <= cc < 64 ==> px[rr * 64 + cc] == (old_px[rr * 64 + cc] != (#[trigger] sprite_hit(
            mem,
            i,
            vx,
            vy,
            n,
            rr,
            cc,
        ) && (rr - vy) * 8 + (cc - vx % 64) < t))
}

pub proof fn lemma_drawn_at(
    px: Seq<bool>,
    old_px: Seq<bool>,
    mem: Seq<u8>,
    i: int,
    vx: int,
    vy: int,
    n: int,
    t: int,
    rr: int,
    cc: int,
)
    requires
        drawn_upto(px, old_px, mem, i, vx, vy, n, t),
        0 <= rr < 32,
        0 <= cc < 64,
    ensures
        px[rr * 64 + cc] == (old_px[rr * 64 + cc] != (sprite_hit(mem, i, vx, vy, n, rr, cc) && (rr - vy) * 8 + (cc
            - vx % 64) < t)),
{
    reveal(drawn_upto);
    let h = sprite_hit(mem, i, vx, vy, n, rr, cc);
    assert(px[rr * 64 + cc] == (old_px[rr * 64 + cc] != (h && (rr - vy) * 8 + (cc - vx % 64) < t)));
}

/// Drawing the cell `k` of sprite row `row` extends the drawn cells by one.
pub proof fn lemma_draw_column(
    before: Seq<bool>,
    px: Seq<bool>,
    old_px: Seq<bool>,
    mem: Seq<u8>,
    i: int,
    vx: int,
    vy: int,
    n: int,
    row: int,
    k: int,
)
    requires
        drawn_upto(before, old_px, mem, i, vx, vy, n, (row - vy) * 8 + k),
        vy <= row < vy + n,
        0 <= row < 32,
        0 <= k < 8,
        before.len() == 2048,
        px == (if vx % 64 + k < 64 && sprite_bit(mem[i + (row - vy)], k) {
            before.update(row * 64 + vx % 64 + k, !before[row * 64 + vx % 64 + k])
        } else {
            before
        }),
    ensures
        drawn_upto(px, old_px, mem, i, vx, vy, n, (row - vy) * 8 + k + 1),
{
    reveal(drawn_upto);
    let col = vx % 64 + k;
    let t = (row - vy) * 8 + k;
    assert forall|rr: int, cc: int| 0 <= rr < 32 && 0 <= cc < 64 implies px[rr * 64 + cc] == (old_px[rr * 64 + cc]
        != (#[trigger] sprite_hit(mem, i, vx, vy, n, rr, cc) && (rr - vy) * 8 + (cc - vx % 64) < t + 1)) by {
        lemma_drawn_at(before, old_px, mem, i, vx, vy, n, t, rr, cc);
        let h = sprite_hit(mem, i, vx, vy, n, rr, cc);
        let flip = col < 64 && sprite_bit(mem[i + (row - vy)], k);
        assert(0 <= rr * 64 + cc < 2048);
        if rr == row && cc == col {
            assert(h == flip);
            assert(px[rr * 64 + cc] == (if flip { !before[rr * 64 + cc] } else { before[rr * 64 + cc] }));
        } else {
            if h {
                let d = cc - vx % 64;
                assert(0 <= d < 8);
                assert((rr - vy) * 8 + d != (row - vy) * 8 + k) by (nonlinear_arith)
                    requires
                        0 <= d < 8,
                        0 <= k < 8,
                        rr != row || d != k,
                ;
            }
            if col < 64 {
                assert(rr * 64 + cc != row * 64 + col) by (nonlinear_arith)
                    requires
                        0 <= cc < 64,
                        0 <= col < 64,
                        rr != row || cc != col,
                ;
            }
            assert(px[rr * 64 + cc] == before[rr * 64 + cc]);
        }
    }
}

/// Before the first cell nothing is drawn.
pub proof fn lemma_drawn_none(px: Seq<bool>, mem: Seq<u8>, i: int, vx: int, vy: int, n: int)
    ensures
        drawn_upto(px, px, mem, i, vx, vy, n, 0),
{
    reveal(drawn_upto);
    assert forall|rr: int, cc: int| 0 <= rr < 32 && 0 <= cc < 64 implies px[rr * 64 + cc] == (px[rr * 64 + cc]
        != (#[trigger] sprite_hit(mem, i, vx, vy, n, rr, cc) && (rr - vy) * 8 + (cc - vx % 64) < 0)) by {
        let h = sprite_hit(mem, i, vx, vy, n, rr, cc);
        assert(h ==> rr >= vy && cc >= vx % 64);
    }
}

} // verus!
