//! Properties of the instruction semantics that span several instructions
//! or hold of every state: what a sprite drawn twice leaves on the display,
//! what a call followed by a return leaves in the program counter, what a
//! register store followed by a load gives back, and what the arithmetic
//! instructions compute as whole numbers.

use vstd::prelude::*;
use crate::chip8::cpu::{CpuState, sprite_bit, blank_screen, FONT_SPRITES};
use crate::cpu::{MEMORY_SIZE, PROGRAM_START};
use crate::cpu::CpuState as CoreState;
use crate::opcode::{family, x_of, y_of, n_of, word};
use vstd::arithmetic::div_mod::{
    lemma_fundamental_div_mod, lemma_fundamental_div_mod_converse_mod, lemma_mod_bound,
};

verus! {

/// Whether the sprite drawn by `Dxyn` from state `s` covers display pixel
/// (`r`, `c`) with a set bit; the coordinates wrap at the display edges.
pub open spec fn sprite_covers(s: CpuState, x: int, y: int, n: int, r: int, c: int) -> bool {
    let byte = (r - s.v[y]) % 32;
    let bit = (c - s.v[x]) % 64;
    byte < n && bit < 8 && sprite_bit(s.memory[s.i + byte], bit)
}

/// Whether pixel `c` of display row `row` is lit and lies under a set bit
/// among the first `count` bits of sprite row `byte`.
pub open spec fn bit_erases(s: CpuState, x: int, row: int, byte: int, count: int, c: int) -> bool {
    let bit = (c - s.v[x]) % 64;
    bit < count && sprite_bit(s.memory[s.i + byte], bit) && s.vram[row][c]
}

/// Whether some lit display pixel lies under a set bit of the sprite that
/// `Dxyn` draws from state `s`.
pub open spec fn sprite_erases(s: CpuState, x: int, y: int, n: int) -> bool {
    exists|r: int, c: int|
        0 <= r < 32 && 0 <= c < 64 && #[trigger] sprite_covers(s, x, y, n, r, c) && s.vram[r][c]
}

proof fn lemma_flag_or(b: u8)
    requires
        b <= 1,
    ensures
        b | 0u8 == b,
        b | 1u8 == 1u8,
{
    assert(b <= 1 ==> b | 0u8 == b && b | 1u8 == 1u8) by (bit_vector);
}

proof fn lemma_wrap(c: int, a: int, k: int, m: int)
    requires
        0 <= c < m,
        0 <= k < m,
        0 <= a,
        m == 32 || m == 64,
    ensures
        ((c - a) % m == k) == (c == (a + k) % m),
{
    let q = (a + k) / m;
    lemma_fundamental_div_mod(a + k, m);
    assert(m * q == q * m) by (nonlinear_arith);
    lemma_mod_bound(a + k, m);
    if c == (a + k) % m {
        assert(c - a == (-q) * m + k) by (nonlinear_arith)
            requires
                a + k == q * m + c,
        ;
        lemma_fundamental_div_mod_converse_mod(c - a, m, -q, k);
    }
    if (c - a) % m == k {
        let p = (c - a) / m;
        lemma_fundamental_div_mod(c - a, m);
        assert(m * p == p * m) by (nonlinear_arith);
        assert(a + k == (-p) * m + c) by (nonlinear_arith)
            requires
                c - a == p * m + k,
        ;
        lemma_fundamental_div_mod_converse_mod(a + k, m, -p, c);
    }
}

/// Drawing the first `count` pixels of a sprite row changes only `VF` and
/// the pixels of display row `row` whose column offset from `Vx` is below
/// `count` and whose sprite bit is set; those it toggles.
proof fn lemma_draw_bits(s: CpuState, x: int, row: int, byte: int, count: nat)
    requires
        s.well_sized(),
        0 <= x < 15,
        0 <= row < 32,
        count <= 8,
        s.v[0xF] <= 1,
    ensures
        ({
            let t = s.draw_bits(x, row, byte, count);
            &&& t.v[0xF] <= 1
            &&& (t.v[0xF] == 1) == (s.v[0xF] == 1 || exists|c: int|
                0 <= c < 64 && #[trigger] bit_erases(s, x, row, byte, count as int, c))
            &&& t.well_sized()
            &&& t.v.len() == 16
            &&& forall|r: int| 0 <= r < 15 ==> #[trigger] t.v[r] == s.v[r]
            &&& t.memory == s.memory
            &&& t.i == s.i
            &&& t.opcode == s.opcode
            &&& t.pc == s.pc
            &&& t.sp == s.sp
            &&& t.stack == s.stack
            &&& t.key_buffer == s.key_buffer
            &&& t.delay_timer == s.delay_timer
            &&& t.sound_timer == s.sound_timer
            &&& t.update_vram == s.update_vram
            &&& forall|r: int, c: int|
                0 <= r < 32 && 0 <= c < 64 ==> #[trigger] t.vram[r][c] == (s.vram[r][c] != (r
                    == row && (c - s.v[x]) % 64 < count && sprite_bit(
                    s.memory[s.i + byte],
                    (c - s.v[x]) % 64,
                )))
        }),
    decreases count,
{
    if count > 0 {
        let p = s.draw_bits(x, row, byte, (count - 1) as nat);
        lemma_draw_bits(s, x, row, byte, (count - 1) as nat);
        let bit = count - 1;
        let col = (p.v[x] + bit) % 64;
        let t = s.draw_bits(x, row, byte, count);
        assert(t == p.draw_pixel(row, col, p.memory[p.i + byte], bit));
        assert(p.vram[row].len() == 64);
        assert forall|r: int| 0 <= r < 32 implies #[trigger] t.vram[r].len() == 64 by {
            assert(p.vram[r].len() == 64);
        }
        assert forall|r: int, c: int| 0 <= r < 32 && 0 <= c < 64 implies #[trigger] t.vram[r][c]
            == (s.vram[r][c] != (r == row && (c - s.v[x]) % 64 < count && sprite_bit(
            s.memory[s.i + byte],
            (c - s.v[x]) % 64,
        ))) by {
            lemma_wrap(c, s.v[x] as int, bit, 64);
            assert(p.vram[r][c] == (s.vram[r][c] != (r == row && (c - s.v[x]) % 64 < bit
                && sprite_bit(s.memory[s.i + byte], (c - s.v[x]) % 64))));
            assert(0 <= (c - s.v[x]) % 64 < 64);
        }
        // the collision flag
        lemma_mod_bound(p.v[x] + bit, 64);
        lemma_wrap(col, s.v[x] as int, bit, 64);
        assert(p.vram[row][col] == s.vram[row][col]);
        let color = sprite_bit(p.memory[p.i + byte], bit);
        let lit = p.vram[row][col];
        lemma_flag_or(p.v[0xF]);
        assert(t.v[0xF] == p.v[0xF] | (if color && lit { 1u8 } else { 0u8 }));
        if color && lit {
            assert(bit_erases(s, x, row, byte, count as int, col));
        }
        if exists|c: int| 0 <= c < 64 && #[trigger] bit_erases(s, x, row, byte, count as int, c) {
            let c = choose|c: int| 0 <= c < 64 && #[trigger] bit_erases(s, x, row, byte, count as int, c);
            lemma_wrap(c, s.v[x] as int, bit, 64);
            if (c - s.v[x]) % 64 < bit {
                assert(bit_erases(s, x, row, byte, bit, c));
            } else {
                assert(c == col);
            }
        }
        if exists|c: int| 0 <= c < 64 && #[trigger] bit_erases(s, x, row, byte, bit, c) {
            let c = choose|c: int| 0 <= c < 64 && #[trigger] bit_erases(s, x, row, byte, bit, c);
            assert(bit_erases(s, x, row, byte, count as int, c));
        }
    }
}


/// Drawing the first `rows` rows of a sprite changes only `VF` and the
/// pixels covered by a set bit of those rows; those it toggles.
proof fn lemma_draw_rows(s: CpuState, x: int, y: int, rows: nat)
    requires
        s.well_sized(),
        0 <= x < 15,
        0 <= y < 15,
        rows <= 32,
        s.v[0xF] <= 1,
    ensures
        ({
            let t = s.draw_rows(x, y, rows);
            &&& t.v[0xF] <= 1
            &&& (t.v[0xF] == 1) == (s.v[0xF] == 1 || sprite_erases(s, x, y, rows as int))
            &&& t.well_sized()
            &&& forall|r: int| 0 <= r < 15 ==> #[trigger] t.v[r] == s.v[r]
            &&& t.memory == s.memory
            &&& t.i == s.i
            &&& t.opcode == s.opcode
            &&& t.pc == s.pc
            &&& t.sp == s.sp
            &&& t.stack == s.stack
            &&& t.key_buffer == s.key_buffer
            &&& t.delay_timer == s.delay_timer
            &&& t.sound_timer == s.sound_timer
            &&& t.update_vram == s.update_vram
            &&& forall|r: int, c: int|
                0 <= r < 32 && 0 <= c < 64 ==> #[trigger] t.vram[r][c] == (s.vram[r][c]
                    != sprite_covers(s, x, y, rows as int, r, c))
        }),
    decreases rows,
{
    if rows > 0 {
        let p = s.draw_rows(x, y, (rows - 1) as nat);
        lemma_draw_rows(s, x, y, (rows - 1) as nat);
        let byte = rows - 1;
        let row = (p.v[y] + byte) % 32;
        let t = s.draw_rows(x, y, rows);
        assert(t == p.draw_bits(x, row, byte, 8));
        lemma_draw_bits(p, x, row, byte, 8);
        assert forall|r: int, c: int| 0 <= r < 32 && 0 <= c < 64 implies #[trigger] t.vram[r][c]
            == (s.vram[r][c] != sprite_covers(s, x, y, rows as int, r, c)) by {
            lemma_wrap(r, s.v[y] as int, byte, 32);
            lemma_mod_bound(r - s.v[y], 32);
            assert(p.vram[r][c] == (s.vram[r][c] != sprite_covers(s, x, y, byte, r, c)));
        }
        // the collision flag
        lemma_mod_bound(p.v[y] + byte, 32);
        lemma_wrap(row, s.v[y] as int, byte, 32);
        if exists|c: int| 0 <= c < 64 && #[trigger] bit_erases(p, x, row, byte, 8, c) {
            let c = choose|c: int| 0 <= c < 64 && #[trigger] bit_erases(p, x, row, byte, 8, c);
            assert(p.vram[row][c] == (s.vram[row][c] != sprite_covers(s, x, y, byte, row, c)));
            assert(sprite_covers(s, x, y, rows as int, row, c));
        }
        if sprite_erases(s, x, y, rows as int) {
            let (r, c) = choose|r: int, c: int|
                0 <= r < 32 && 0 <= c < 64 && #[trigger] sprite_covers(s, x, y, rows as int, r, c)
                    && s.vram[r][c];
            lemma_wrap(r, s.v[y] as int, byte, 32);
            if (r - s.v[y]) % 32 < byte {
                assert(sprite_covers(s, x, y, byte, r, c));
            } else {
                assert(r == row);
                assert(p.vram[row][c] == (s.vram[row][c] != sprite_covers(s, x, y, byte, row, c)));
                assert(bit_erases(p, x, row, byte, 8, c));
            }
        }
        if sprite_erases(s, x, y, byte) {
            let (r, c) = choose|r: int, c: int|
                0 <= r < 32 && 0 <= c < 64 && #[trigger] sprite_covers(s, x, y, byte, r, c)
                    && s.vram[r][c];
            assert(sprite_covers(s, x, y, rows as int, r, c));
        }
    }
}

/// `Dxyn` with `x` and `y` other than `F` XORs the sprite onto the display:
/// it toggles exactly the pixels covered by a set bit of the sprite, sets
/// `VF` to 1 when one of them was lit and to 0 otherwise, and leaves
/// `V0..VE`, memory and `I` unchanged.
pub proof fn law_draw_xors_sprite(s: CpuState, x: int, y: int, n: int)
    requires
        s.well_sized(),
        0 <= x < 15,
        0 <= y < 15,
        0 <= n <= 15,
    ensures
        ({
            let t = s.drawn(x, y, n);
            &&& t.well_sized()
            &&& forall|r: int| 0 <= r < 15 ==> #[trigger] t.v[r] == s.v[r]
            &&& t.memory == s.memory
            &&& t.i == s.i
            &&& t.pc == s.pc
            &&& t.update_vram
            &&& (t.v[0xF] == 1) == sprite_erases(s, x, y, n)
            &&& (t.v[0xF] == 0) == !sprite_erases(s, x, y, n)
            &&& forall|r: int, c: int|
                0 <= r < 32 && 0 <= c < 64 ==> #[trigger] t.vram[r][c] == (s.vram[r][c]
                    != sprite_covers(s, x, y, n, r, c))
        }),
{
    let s1 = s.set_v(0xF, 0);
    lemma_draw_rows(s1, x, y, n as nat);
    assert forall|r: int, c: int| 0 <= r < 32 && 0 <= c < 64 implies sprite_covers(s1, x, y, n, r, c)
        == sprite_covers(s, x, y, n, r, c) by {
        assert(s1.v[x] == s.v[x]);
        assert(s1.v[y] == s.v[y]);
    }
    if sprite_erases(s, x, y, n) {
        let (r, c) = choose|r: int, c: int|
            0 <= r < 32 && 0 <= c < 64 && #[trigger] sprite_covers(s, x, y, n, r, c) && s.vram[r][c];
        assert(sprite_covers(s1, x, y, n, r, c));
    }
    if sprite_erases(s1, x, y, n) {
        let (r, c) = choose|r: int, c: int|
            0 <= r < 32 && 0 <= c < 64 && #[trigger] sprite_covers(s1, x, y, n, r, c) && s1.vram[r][c];
        assert(sprite_covers(s, x, y, n, r, c));
    }
}

/// A sprite drawn twice at the same place leaves the display as it was:
/// drawing XORs the sprite onto the screen.
pub proof fn law_draw_twice_restores(s: CpuState, x: int, y: int, n: int)
    requires
        s.well_sized(),
        0 <= x < 15,
        0 <= y < 15,
        0 <= n <= 15,
    ensures
        s.drawn(x, y, n).drawn(x, y, n).vram == s.vram,
{
    let t = s.drawn(x, y, n);
    law_draw_xors_sprite(s, x, y, n);
    law_draw_xors_sprite(t, x, y, n);
    let u = t.drawn(x, y, n);
    assert forall|r: int, c: int| 0 <= r < 32 && 0 <= c < 64 implies u.vram[r][c] == s.vram[r][c] by {
        assert(sprite_covers(t, x, y, n, r, c) == sprite_covers(s, x, y, n, r, c)) by {
            assert(t.v[x] == s.v[x]);
            assert(t.v[y] == s.v[y]);
        }
    }
    assert forall|r: int| 0 <= r < 32 implies #[trigger] u.vram[r] =~= s.vram[r] by {
        assert(u.vram[r].len() == 64);
        assert(s.vram[r].len() == 64);
        assert forall|c: int| 0 <= c < 64 implies u.vram[r][c] == s.vram[r][c] by {}
    }
    assert(u.vram =~= s.vram);
}


/// Loading a program into the full core puts the font at the bottom of
/// memory, zeros up to `PROGRAM_START`, the program right above, and keeps
/// the bytes above the program.
pub proof fn law_load_places_font_and_program(s: CpuState, program: Seq<u8>)
    requires
        s.well_sized(),
        program.len() <= MEMORY_SIZE - PROGRAM_START,
    ensures
        ({
            let m = s.loaded(program).memory;
            &&& m.len() == MEMORY_SIZE
            &&& forall|k: int| 0 <= k < 80 ==> #[trigger] m[k] == FONT_SPRITES@[k]
            &&& forall|k: int| 80 <= k < PROGRAM_START ==> #[trigger] m[k] == 0
            &&& forall|k: int| 0 <= k < program.len() ==> #[trigger] m[PROGRAM_START + k] == program[k]
            &&& forall|k: int|
                PROGRAM_START + program.len() <= k < MEMORY_SIZE ==> #[trigger] m[k] == s.memory[k]
        }),
{
}

/// After a program of at least two bytes is loaded into the small core,
/// the first fetch from `PROGRAM_START` reads its first instruction.
pub proof fn law_load_then_fetch(s: CoreState, program: Seq<u8>)
    requires
        s.well_sized(),
        2 <= program.len() <= MEMORY_SIZE - PROGRAM_START,
        s.pc == PROGRAM_START,
    ensures
        s.loaded(program).fetched().opcode == word(program[0], program[1]),
{
    let m = s.loaded(program).memory;
    assert(m[PROGRAM_START as int] == program[0]);
    assert(m[PROGRAM_START + 1] == program[1]);
}

/// A call (`2nnn`) followed by a return (`00EE`) at the called address
/// resumes right after the call, with the stack pointer, the registers,
/// `I` and memory as before.
pub proof fn law_call_then_return(s: CpuState, r1: u8, r2: u8)
    requires
        s.well_sized(),
        0 <= s.sp < 16,
        s.can_fetch(),
        family(s.fetched().opcode) == 2,
        s.cycled(r1).can_fetch(),
        s.cycled(r1).fetched().opcode == 0x00EE,
    ensures
        ({
            let u = s.cycled(r1).cycled(r2);
            &&& u.pc == s.pc + 2
            &&& u.sp == s.sp
            &&& u.v == s.v
            &&& u.i == s.i
            &&& u.memory == s.memory
        }),
{
    let t = s.cycled(r1);
    assert(t.stack[s.sp] == s.pc as u16);
}

/// Storing `V0..=Vx` at `I` (`Fx55`) and reading them back from `I`
/// (`Fx65`) gives the registers back unchanged.
pub proof fn law_store_then_load(s: CpuState, x: int)
    requires
        s.well_sized(),
        0 <= x < 16,
        s.i + x < MEMORY_SIZE,
    ensures
        s.regs_stored(x).regs_loaded(x).v == s.v,
        s.regs_stored(x).regs_loaded(x).memory == s.regs_stored(x).memory,
{
    assert(s.regs_stored(x).regs_loaded(x).v =~= s.v);
}

/// `8xy4` on the full core, with `x` other than `F`: the new `Vx` and the
/// carry in `VF` make up the whole sum, `Vx + Vy == 256 * VF + Vx'`.
pub proof fn law_add_with_carry(s: CpuState, x: int, y: int)
    requires
        s.well_sized(),
        0 <= x < 15,
        0 <= y < 16,
    ensures
        ({
            let t = s.arith(x, y, 4);
            &&& t.v[0xF] <= 1
            &&& s.v[x] + s.v[y] == 256 * t.v[0xF] + t.v[x]
        }),
{
}

/// `8xy5` on the full core, with `x` other than `F`: `Vx' = Vx - Vy`
/// modulo 256, and `VF` is 1 exactly when `Vx > Vy`.
pub proof fn law_subtract(s: CpuState, x: int, y: int)
    requires
        s.well_sized(),
        0 <= x < 15,
        0 <= y < 15,
    ensures
        ({
            let t = s.arith(x, y, 5);
            &&& (t.v[0xF] == 1) == (s.v[x] > s.v[y])
            &&& (t.v[0xF] == 0) == (s.v[x] <= s.v[y])
            &&& t.v[x] == s.v[x] - s.v[y] + if s.v[x] >= s.v[y] { 0int } else { 256int }
        }),
{
}

/// `8xy6` on the full core, with `x` other than `F`: the shifted-out bit
/// lands in `VF`, so `Vx == 2 * Vx' + VF`.
pub proof fn law_shift_right(s: CpuState, x: int, y: int)
    requires
        s.well_sized(),
        0 <= x < 15,
        0 <= y < 16,
    ensures
        ({
            let t = s.arith(x, y, 6);
            &&& t.v[0xF] <= 1
            &&& s.v[x] == 2 * t.v[x] + t.v[0xF]
        }),
{
    let vx = s.v[x];
    assert(vx & 1 == vx % 2) by (bit_vector);
}

/// `8xyE` on the full core, with `x` other than `F`: the shifted-out bit
/// lands in `VF`, so `2 * Vx == 256 * VF + Vx'`.
pub proof fn law_shift_left(s: CpuState, x: int, y: int)
    requires
        s.well_sized(),
        0 <= x < 15,
        0 <= y < 16,
    ensures
        ({
            let t = s.arith(x, y, 0xE);
            &&& t.v[0xF] <= 1
            &&& 2 * s.v[x] == 256 * t.v[0xF] + t.v[x]
        }),
{
}

/// `Fx33`: the three bytes written at `I` are the decimal digits of `Vx`,
/// most significant first.
pub proof fn law_bcd_digits(s: CpuState, x: int)
    requires
        s.well_sized(),
        0 <= x < 16,
        s.i + 2 < MEMORY_SIZE,
    ensures
        ({
            let m = s.bcd_stored(x).memory;
            let a = s.i as int;
            &&& m[a] < 10 && m[a + 1] < 10 && m[a + 2] < 10
            &&& 100 * m[a] + 10 * m[a + 1] + m[a + 2] == s.v[x]
        }),
{
}

/// `8xy4` on the small core, with `x` other than `F`: `Vx + Vy == 256 * VF + Vx'`.
pub proof fn law_core_add_with_carry(s: CoreState, x: int, y: int)
    requires
        s.well_sized(),
        0 <= x < 15,
        0 <= y < 16,
    ensures
        ({
            let t = s.arith(x, y, 4);
            &&& t.v[0xF] <= 1
            &&& s.v[x] + s.v[y] == 256 * t.v[0xF] + t.v[x]
        }),
{
}

/// `8xy5` on the small core, with `x` and `y` other than `F`: `VF` is the
/// borrow, so `Vx - Vy == Vx' - 256 * VF`.
pub proof fn law_core_subtract_with_borrow(s: CoreState, x: int, y: int)
    requires
        s.well_sized(),
        0 <= x < 15,
        0 <= y < 15,
    ensures
        ({
            let t = s.arith(x, y, 5);
            &&& t.v[0xF] <= 1
            &&& s.v[x] - s.v[y] == t.v[x] - 256 * t.v[0xF]
        }),
{
}


proof fn lemma_draw_bits_shape(s: CpuState, x: int, row: int, byte: int, count: nat)
    requires
        s.well_sized(),
        0 <= row < 32,
    ensures
        s.draw_bits(x, row, byte, count).well_sized(),
        s.draw_bits(x, row, byte, count).sp == s.sp,
    decreases count,
{
    if count > 0 {
        let p = s.draw_bits(x, row, byte, (count - 1) as nat);
        lemma_draw_bits_shape(s, x, row, byte, (count - 1) as nat);
        let t = s.draw_bits(x, row, byte, count);
        assert forall|r: int| 0 <= r < 32 implies #[trigger] t.vram[r].len() == 64 by {
            assert(p.vram[r].len() == 64);
        }
    }
}

proof fn lemma_draw_rows_shape(s: CpuState, x: int, y: int, rows: nat)
    requires
        s.well_sized(),
    ensures
        s.draw_rows(x, y, rows).well_sized(),
        s.draw_rows(x, y, rows).sp == s.sp,
    decreases rows,
{
    if rows > 0 {
        let p = s.draw_rows(x, y, (rows - 1) as nat);
        lemma_draw_rows_shape(s, x, y, (rows - 1) as nat);
        lemma_mod_bound(p.v[y] + rows - 1, 32);
        lemma_draw_bits_shape(p, x, (p.v[y] + rows - 1) % 32, rows - 1, 8);
    }
}

/// Every cycle that runs to completion keeps the machine's shape: sixteen
/// registers, full memory, a sixteen-entry stack, a 64 x 32 display and
/// sixteen keys, with the stack pointer inside the stack.
pub proof fn law_cycle_keeps_shape(s: CpuState, rnd: u8)
    requires
        s.well_sized(),
        0 <= s.sp <= 16,
        s.can_cycle(),
    ensures
        s.cycled(rnd).well_sized(),
        0 <= s.cycled(rnd).sp <= 16,
        s.cycled(rnd).ticked().well_sized(),
{
    let f = CpuState { update_vram: false, ..s }.fetched();
    let op = f.opcode;
    if family(op) == 0xD {
        lemma_draw_rows_shape(f.set_v(0xF, 0), x_of(op), y_of(op), n_of(op) as nat);
    }
    if family(op) == 0 && n_of(op) == 0 {
        let b = blank_screen();
        assert forall|r: int| 0 <= r < 32 implies #[trigger] b[r].len() == 64 by {}
    }
}


/// `Ex9E` (SKP) and `ExA1` (SKNP) skip in exactly opposite cases: from the
/// same state, one of them skips the next instruction and the other does
/// not, and neither changes anything but the program counter.
pub proof fn law_key_skips_are_opposite(s: CpuState, x: int, rnd: u8)
    requires
        s.well_sized(),
        0 <= x < 16,
        s.v[x] < 16,
    ensures
        ({
            let key = s.key_buffer[s.v[x] as int];
            let a = s.with_opcode((0xE09E + 0x100 * x) as u16).executed(rnd);
            let b = s.with_opcode((0xE0A1 + 0x100 * x) as u16).executed(rnd);
            &&& a.pc == s.pc + if key { 4int } else { 2int }
            &&& b.pc == s.pc + if key { 2int } else { 4int }
            &&& a.pc + b.pc == 2 * s.pc + 6
            &&& a.jumped(s.pc) == s.with_opcode(a.opcode)
            &&& b.jumped(s.pc) == s.with_opcode(b.opcode)
        }),
{
    let a_op = (0xE09E + 0x100 * x) as u16;
    let b_op = (0xE0A1 + 0x100 * x) as u16;
    assert(family(a_op) == 0xE && x_of(a_op) == x && y_of(a_op) == 9 && n_of(a_op) == 0xE);
    assert(family(b_op) == 0xE && x_of(b_op) == x && y_of(b_op) == 0xA && n_of(b_op) == 1);
}

/// After a program is loaded, `Fx29` with a hexadecimal digit in `Vx`
/// points `I` at that digit's five-byte glyph in the font; the registers
/// stay and the program counter moves on.
pub proof fn law_font_glyph_address(s: CpuState, program: Seq<u8>, rnd: u8)
    requires
        s.well_sized(),
        program.len() <= MEMORY_SIZE - PROGRAM_START,
        family(s.opcode) == 0xF,
        y_of(s.opcode) == 2,
        n_of(s.opcode) == 9,
        s.v[x_of(s.opcode)] <= 0xF,
    ensures
        ({
            let l = s.loaded(program);
            let t = l.executed(rnd);
            let d = s.v[x_of(s.opcode)] as int;
            &&& t.i == 5 * d
            &&& forall|k: int| 0 <= k < 5 ==> #[trigger] t.memory[t.i + k] == FONT_SPRITES@[5 * d + k]
            &&& t.v == s.v
            &&& t.pc == s.pc + 2
        }),
{
    law_load_places_font_and_program(s, program);
    let l = s.loaded(program);
    let t = l.executed(rnd);
    let d = s.v[x_of(s.opcode)] as int;
    assert forall|k: int| 0 <= k < 5 implies #[trigger] t.memory[t.i + k] == FONT_SPRITES@[5 * d
        + k] by {
        assert(0 <= t.i + k < 80);
    }
}

} // verus!
