//! Laws of the execution core that relate several operations: the
//! stickiness of the draw collision flag, the safety of drawing on a
//! freshly cleared display, and the two faces of the key-wait opcode.

use crate::cpu::{cycle_spec, draw_upto, sprite_row_upto, CycleError, CycleEvent};
use crate::display::cleared_grid;
use crate::kbrd::lowest_key_down;
use crate::mem::{vreg, vreg_set, MemView};
use vstd::prelude::*;

verus! {

/// Law: the collision flag of a draw call is sticky. If drawing the
/// first `r` sprite rows has already collided, drawing any further
/// rows of the same call still reports the collision: no later row
/// resets it.
pub proof fn lemma_draw_collision_sticky(
    ram: Seq<u8>,
    i: u16,
    sx: u8,
    sy: u8,
    d: Seq<u8>,
    r: int,
    s: int,
)
    requires
        0 <= r <= s,
        draw_upto(ram, i, sx, sy, d, r).1,
    ensures
        draw_upto(ram, i, sx, sy, d, s).1,
    decreases s - r,
{
    if s > r {
        lemma_draw_collision_sticky(ram, i, sx, sy, d, r, s - 1);
    }
}

/// Law: a draw of any sprite (height at most 15) onto an all-off
/// display never reports a collision. In particular, a clear-screen
/// followed immediately by any draw reports none: the clear left
/// nothing lit to collide with.
pub proof fn lemma_draw_on_cleared_never_collides(ram: Seq<u8>, i: u16, sx: u8, sy: u8, n: int)
    requires
        0 <= n <= 15,
    ensures
        !draw_upto(ram, i, sx, sy, cleared_grid(), n).1,
{
    lemma_draw_from_clear_rows(ram, i, sx, sy, n, n);
}

/// Law: a draw opcode (Dxyn) executed right after a clear-screen — so
/// against an all-off display — leaves the collision flag VF at 0,
/// whatever the sprite, its address or its coordinates.
pub proof fn lemma_cycle_draw_after_clear_no_collision(
    m: MemView,
    k: Seq<u8>,
    bit_shift_instructions_use_vy: bool,
    store_read_instructions_change_i: bool,
    rnd: u8,
)
    requires
        m.wf(),
        m.pc + 1 < 4096,
        m.ram[m.pc as int] >> 4u8 == 0xD,
    ensures
        ({
            let t = cycle_spec(
                m,
                cleared_grid(),
                k,
                bit_shift_instructions_use_vy,
                store_read_instructions_change_i,
                rnd,
            );
            vreg(t.0.v, 15) == 0
        }),
{
    let b0 = m.ram[m.pc as int];
    let b1 = m.ram[m.pc as int + 1];
    assert(b0 >> 4u8 == 0xD ==> b0 >= 208) by (bit_vector);
    assert(b1 & 0x0F < 16) by (bit_vector);
    let vf0 = vreg_set(m.v, 15, 0);
    lemma_draw_on_cleared_never_collides(
        m.ram,
        m.i,
        vreg(vf0, b0 & 0x0F),
        vreg(vf0, b1 >> 4u8),
        (b1 & 0x0F) as int,
    );
}

/// Law: a key-wait opcode (Fx0A) in a cycle where no key is down
/// changes nothing: machine state, display and program counter stay
/// as they were, and the cycle reports the waiting state.
pub proof fn lemma_key_wait_stalls(
    m: MemView,
    d: Seq<u8>,
    k: Seq<u8>,
    bit_shift_instructions_use_vy: bool,
    store_read_instructions_change_i: bool,
    rnd: u8,
)
    requires
        m.wf(),
        m.pc + 1 < 4096,
        m.ram[m.pc as int] >> 4u8 == 0xF,
        m.ram[m.pc as int + 1] == 0x0A,
        lowest_key_down(k) is None,
    ensures
        cycle_spec(m, d, k, bit_shift_instructions_use_vy, store_read_instructions_change_i, rnd)
            == (m, d, Ok::<CycleEvent, CycleError>(CycleEvent::WaitingForKey)),
{
    let b0 = m.ram[m.pc as int];
    assert(b0 >> 4u8 == 0xF ==> b0 >= 240) by (bit_vector);
}

/// Law: a key-wait opcode (Fx0A) in a cycle where some key is down
/// writes the lowest such key's index to v[x] and advances the
/// program counter by 2.
pub proof fn lemma_key_wait_advances(
    m: MemView,
    d: Seq<u8>,
    k: Seq<u8>,
    bit_shift_instructions_use_vy: bool,
    store_read_instructions_change_i: bool,
    rnd: u8,
    key: u8,
)
    requires
        m.wf(),
        m.pc + 1 < 4096,
        m.ram[m.pc as int] >> 4u8 == 0xF,
        m.ram[m.pc as int + 1] == 0x0A,
        lowest_key_down(k) == Some(key),
    ensures
        ({
            let t = cycle_spec(
                m,
                d,
                k,
                bit_shift_instructions_use_vy,
                store_read_instructions_change_i,
                rnd,
            );
            &&& t.0 == (MemView {
                v: vreg_set(m.v, m.ram[m.pc as int] & 0x0F, key),
                pc: ((m.pc + 2) % 0x10000) as u16,
                ..m
            })
            &&& t.1 == d
            &&& t.2 == Ok::<CycleEvent, CycleError>(CycleEvent::Executed)
        }),
{
    let b0 = m.ram[m.pc as int];
    assert(b0 >> 4u8 == 0xF ==> b0 >= 240) by (bit_vector);
}

/// The display column that bit `a` of a sprite row starting at
/// column sx lands on.
spec fn col_of(sx: u8, a: int) -> int {
    (sx + a) % 64
}

/// The display row that sprite row `r` of a sprite starting at row sy
/// lands on.
spec fn row_of(sy: u8, r: int) -> int {
    (sy + r) % 32
}

/// The grid cell at a row/column pair.
spec fn grid_cell(d: Seq<u8>, row: int, col: int) -> u8 {
    d[64 * row + col]
}

/// Wrapping a sum into the 256-byte space and then into a row or
/// column keeps the shorter wrap, since 64 and 32 divide 256.
proof fn lemma_mod_256_shorter(t: u16)
    by (bit_vector)
    ensures
        (t % 256) % 64 == t % 64,
        (t % 256) % 32 == t % 32,
{
}

/// Two distinct bits of one sprite row land on distinct display columns.
proof fn lemma_col_distinct(sx: u8, a: u8, b: u8)
    by (bit_vector)
    requires
        a < 8,
        b < 8,
        a != b,
    ensures
        (sx + a) % 64 != (sx + b) % 64,
{
}

/// Two distinct rows of one sprite (height at most 15) land on
/// distinct display rows.
proof fn lemma_row_distinct(sy: u8, a: u8, b: u8)
    by (bit_vector)
    requires
        a < 16,
        b < 16,
        a != b,
    ensures
        (sy + a) % 32 != (sy + b) % 32,
{
}

/// Drawing one sprite row whose eight target cells are all off
/// collides nowhere, leaves its remaining target cells off, and
/// touches no other display row.
proof fn lemma_row_from_clear(d: Seq<u8>, byte: u8, sx: u8, py8: u8, c: int)
    requires
        d.len() == 2048,
        0 <= c <= 8,
        forall|a: int| 0 <= a < 8 ==> grid_cell(d, py8 as int % 32, #[trigger] col_of(sx, a)) == 0,
    ensures
        ({
            let res = sprite_row_upto(d, byte, sx, py8, c);
            &&& res.0.len() == 2048
            &&& !res.1
            &&& forall|a: int|
                c <= a < 8 ==> grid_cell(res.0, py8 as int % 32, #[trigger] col_of(sx, a)) == 0
            &&& forall|row2: int, col: int|
                0 <= row2 < 32 && 0 <= col < 64 && row2 != py8 as int % 32
                    ==> #[trigger] grid_cell(res.0, row2, col) == grid_cell(d, row2, col)
        }),
    decreases c,
{
    if c > 0 {
        lemma_row_from_clear(d, byte, sx, py8, c - 1);
        let prev = sprite_row_upto(d, byte, sx, py8, c - 1);
        let py = py8 as int % 32;
        if (byte >> ((8 - c) as u8)) & 1 == 1 {
            let x8 = ((sx + c - 1) % 256) as u8;
            lemma_mod_256_shorter((sx + c - 1) as u16);
            assert(x8 as int % 64 == col_of(sx, c - 1));
            assert(0 <= col_of(sx, c - 1) < 64) by {
                assert(0 <= (sx + (c - 1) as u8) % 64 < 64);
            }
            let idx = 64 * py + col_of(sx, c - 1);
            assert(grid_cell(prev.0, py, col_of(sx, c - 1)) == 0);
            assert(prev.0[idx] == 0);
            let res = sprite_row_upto(d, byte, sx, py8, c);
            assert(res.0 == prev.0.update(idx, 1u8));
            assert forall|a: int| c <= a < 8 implies grid_cell(res.0, py, #[trigger] col_of(sx, a)) == 0 by {
                lemma_col_distinct(sx, a as u8, (c - 1) as u8);
                assert(col_of(sx, a) != col_of(sx, c - 1));
                assert(0 <= col_of(sx, a) < 64);
            }
            assert forall|row2: int, col: int|
                0 <= row2 < 32 && 0 <= col < 64 && row2 != py
                    implies #[trigger] grid_cell(res.0, row2, col) == grid_cell(d, row2, col) by {
                assert(grid_cell(prev.0, row2, col) == grid_cell(d, row2, col));
                assert(0 <= 64 * row2 + col < 2048);
                assert(64 * row2 + col != idx);
                assert(res.0[64 * row2 + col] == prev.0[64 * row2 + col]);
            }
        }
    }
}

/// Drawing rows onto an all-off display collides nowhere and leaves
/// every display row of the not-yet-drawn sprite rows all off.
proof fn lemma_draw_from_clear_rows(ram: Seq<u8>, i: u16, sx: u8, sy: u8, n: int, r: int)
    requires
        0 <= r <= n <= 15,
    ensures
        ({
            let res = draw_upto(ram, i, sx, sy, cleared_grid(), r);
            &&& res.0.len() == 2048
            &&& !res.1
            &&& forall|r2: int, col: int|
                r <= r2 < n && 0 <= col < 64
                    ==> #[trigger] grid_cell(res.0, row_of(sy, r2), col) == 0
        }),
    decreases r,
{
    if r == 0 {
        assert forall|r2: int, col: int|
            0 <= r2 < n && 0 <= col < 64
                implies #[trigger] grid_cell(cleared_grid(), row_of(sy, r2), col) == 0 by {
            assert(0 <= (sy + r2) % 32 < 32);
        }
    } else {
        lemma_draw_from_clear_rows(ram, i, sx, sy, n, r - 1);
        let prev = draw_upto(ram, i, sx, sy, cleared_grid(), r - 1);
        let byte = ram[(i + r - 1) % 4096];
        let py8 = ((sy + r - 1) % 256) as u8;
        lemma_mod_256_shorter((sy + r - 1) as u16);
        assert(py8 as int % 32 == row_of(sy, r - 1));
        assert forall|a: int|
            0 <= a < 8 implies grid_cell(prev.0, py8 as int % 32, #[trigger] col_of(sx, a)) == 0 by {
            assert(grid_cell(prev.0, row_of(sy, r - 1), col_of(sx, a)) == 0);
        }
        lemma_row_from_clear(prev.0, byte, sx, py8, 8);
        let row = sprite_row_upto(prev.0, byte, sx, py8, 8);
        assert forall|r2: int, col: int|
            r <= r2 < n && 0 <= col < 64 implies #[trigger] grid_cell(row.0, row_of(sy, r2), col) == 0 by {
            lemma_row_distinct(sy, r2 as u8, (r - 1) as u8);
            assert(row_of(sy, r2) != py8 as int % 32);
            assert(0 <= row_of(sy, r2) < 32);
            assert(grid_cell(row.0, row_of(sy, r2), col) == grid_cell(prev.0, row_of(sy, r2), col));
        }
    }
}

} // verus!
