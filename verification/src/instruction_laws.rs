//! What one cycle does, instruction by instruction, stated over the plain
//! registers, memory, keypad and display before and after the cycle.
//!
//! Each law takes a state whose next instruction word (the word at the
//! program counter) belongs to one instruction group and says what the
//! cycle that `next_cycle` performs leaves behind.

use vstd::prelude::*;
use crate::chip8::cpu::{CpuState, last_pressed};
use crate::cpu::MEMORY_SIZE;
use crate::cpu::CpuState as CoreState;
use crate::opcode::{family, x_of, y_of, n_of, kk_of};

verus! {

/// The highest key down among the first `k`, if any: it is down, it is
/// below `k`, and every key above it (below `k`) is up; with none, all of
/// the first `k` keys are up.
proof fn lemma_last_pressed(keys: Seq<bool>, k: nat)
    ensures
        match last_pressed(keys, k) {
            Some(j) => 0 <= j < k && keys[j] && forall|i: int| j < i < k ==> !#[trigger] keys[i],
            None => forall|i: int| 0 <= i < k ==> !#[trigger] keys[i],
        },
    decreases k,
{
    if k > 0 {
        lemma_last_pressed(keys, (k - 1) as nat);
    }
}

/// `00E0`: after the cycle every one of the 32 x 64 display pixels is off,
/// the display is flagged for redrawing and execution goes on; registers
/// and memory stay.
pub proof fn law_cycle_clears_screen(s: CpuState, rnd: u8)
    requires
        s.well_sized(),
        s.can_fetch(),
        s.fetched().opcode == 0x00E0,
    ensures
        ({
            let t = s.cycled(rnd);
            &&& t.vram.len() == 32
            &&& forall|r: int| 0 <= r < 32 ==> #[trigger] t.vram[r].len() == 64
            &&& forall|r: int, c: int| 0 <= r < 32 && 0 <= c < 64 ==> !#[trigger] t.vram[r][c]
            &&& t.update_vram
            &&& t.pc == s.pc + 2
            &&& t.v == s.v
            &&& t.memory == s.memory
        }),
{
}

/// `Fx65`: after the cycle, each of `V0..=Vx` holds the byte at `I` plus
/// its index, whatever it held before; the registers above `x`, `I` and
/// memory stay, and execution goes on.
pub proof fn law_cycle_loads_registers(s: CpuState, rnd: u8)
    requires
        s.well_sized(),
        s.can_fetch(),
        family(s.fetched().opcode) == 0xF,
        y_of(s.fetched().opcode) == 6,
        n_of(s.fetched().opcode) == 5,
        s.i + x_of(s.fetched().opcode) < MEMORY_SIZE,
    ensures
        ({
            let x = x_of(s.fetched().opcode);
            let t = s.cycled(rnd);
            &&& t.v.len() == 16
            &&& forall|r: int| 0 <= r <= x ==> #[trigger] t.v[r] == s.memory[s.i + r]
            &&& forall|r: int| x < r < 16 ==> #[trigger] t.v[r] == s.v[r]
            &&& t.i == s.i
            &&& t.memory == s.memory
            &&& t.pc == s.pc + 2
        }),
{
}

/// `Fx55`: after the cycle, memory at `I + r` holds `Vr` for each `r` up
/// to `x`, every other byte of memory stays, and so do the registers and
/// `I`; execution goes on.
pub proof fn law_cycle_stores_registers(s: CpuState, rnd: u8)
    requires
        s.well_sized(),
        s.can_fetch(),
        family(s.fetched().opcode) == 0xF,
        y_of(s.fetched().opcode) == 5,
        n_of(s.fetched().opcode) == 5,
        s.i + x_of(s.fetched().opcode) < MEMORY_SIZE,
    ensures
        ({
            let x = x_of(s.fetched().opcode);
            let t = s.cycled(rnd);
            &&& t.memory.len() == MEMORY_SIZE
            &&& forall|r: int| 0 <= r <= x ==> #[trigger] t.memory[s.i + r] == s.v[r]
            &&& forall|m: int|
                0 <= m < MEMORY_SIZE && !(s.i <= m <= s.i + x) ==> #[trigger] t.memory[m]
                    == s.memory[m]
            &&& t.v == s.v
            &&& t.i == s.i
            &&& t.pc == s.pc + 2
        }),
{
}

/// `Fx33`: after the cycle, the three bytes at `I` are the decimal digits
/// of `Vx`, most significant first; the rest of memory and the registers
/// stay, and execution goes on.
pub proof fn law_cycle_stores_decimal_digits(s: CpuState, rnd: u8)
    requires
        s.well_sized(),
        s.can_fetch(),
        family(s.fetched().opcode) == 0xF,
        y_of(s.fetched().opcode) == 3,
        n_of(s.fetched().opcode) == 3,
        s.i + 2 < MEMORY_SIZE,
    ensures
        ({
            let x = x_of(s.fetched().opcode);
            let t = s.cycled(rnd);
            let a = s.i as int;
            &&& t.memory.len() == MEMORY_SIZE
            &&& t.memory[a] < 10 && t.memory[a + 1] < 10 && t.memory[a + 2] < 10
            &&& 100 * t.memory[a] + 10 * t.memory[a + 1] + t.memory[a + 2] == s.v[x]
            &&& forall|m: int|
                0 <= m < MEMORY_SIZE && !(a <= m <= a + 2) ==> #[trigger] t.memory[m] == s.memory[m]
            &&& t.v == s.v
            &&& t.pc == s.pc + 2
        }),
{
}

/// `Fx0A`: when some key is down, after the cycle `Vx` names a key that is
/// down, no higher key is down, the other registers stay and execution goes
/// on; when no key is down, the registers and the program counter stay, so
/// the instruction runs again.
pub proof fn law_cycle_waits_for_key(s: CpuState, rnd: u8)
    requires
        s.well_sized(),
        s.can_fetch(),
        family(s.fetched().opcode) == 0xF,
        y_of(s.fetched().opcode) == 0,
        n_of(s.fetched().opcode) == 0xA,
    ensures
        ({
            let x = x_of(s.fetched().opcode);
            let t = s.cycled(rnd);
            &&& (exists|k: int| 0 <= k < 16 && #[trigger] s.key_buffer[k]) ==> {
                &&& t.v[x] < 16
                &&& s.key_buffer[t.v[x] as int]
                &&& forall|k: int| t.v[x] < k < 16 ==> !#[trigger] s.key_buffer[k]
                &&& forall|r: int| 0 <= r < 16 && r != x ==> #[trigger] t.v[r] == s.v[r]
                &&& t.pc == s.pc + 2
            }
            &&& (forall|k: int| 0 <= k < 16 ==> !#[trigger] s.key_buffer[k]) ==> {
                &&& t.v == s.v
                &&& t.pc == s.pc
            }
        }),
{
    lemma_last_pressed(s.key_buffer, 16);
}

/// The conditional skips `3xkk`, `4xkk`, `5xy0` and `9xy0`: the program
/// counter moves by 4 when the condition holds (`Vx == kk`, `Vx != kk`,
/// `Vx == Vy`, `Vx != Vy`) and by 2 otherwise; registers and memory stay.
pub proof fn law_cycle_skips(s: CpuState, rnd: u8)
    requires
        s.well_sized(),
        s.can_fetch(),
        ({
            let f = family(s.fetched().opcode);
            f == 3 || f == 4 || f == 5 || f == 9
        }),
    ensures
        ({
            let op = s.fetched().opcode;
            let f = family(op);
            let vx = s.v[x_of(op)];
            let vy = s.v[y_of(op)];
            let kk = kk_of(op);
            let t = s.cycled(rnd);
            let cond = if f == 3 {
                vx == kk
            } else if f == 4 {
                vx != kk
            } else if f == 5 {
                vx == vy
            } else {
                vx != vy
            };
            &&& t.pc == s.pc + if cond { 4int } else { 2int }
            &&& t.v == s.v
            &&& t.memory == s.memory
        }),
{
}

/// The register instructions of family `8` with `x` other than `F`: the
/// value `Vx` takes, what `VF` reports, and that every other register
/// stays; execution goes on. For the flag-setting ones `y` is not `F`
/// either, since the flag is written before `Vx` is computed.
pub proof fn law_cycle_register_arithmetic(s: CpuState, rnd: u8)
    requires
        s.well_sized(),
        s.can_cycle(),
        family(s.fetched().opcode) == 8,
        x_of(s.fetched().opcode) < 15,
        n_of(s.fetched().opcode) >= 4 ==> y_of(s.fetched().opcode) < 15,
    ensures
        ({
            let op = s.fetched().opcode;
            let x = x_of(op);
            let y = y_of(op);
            let n = n_of(op);
            let vx = s.v[x];
            let vy = s.v[y];
            let t = s.cycled(rnd);
            let nx = t.v[x];
            let vf = t.v[0xF];
            &&& t.pc == s.pc + 2
            &&& t.v.len() == 16
            &&& n == 0 ==> nx == vy
            &&& n == 1 ==> nx == vx | vy
            &&& n == 2 ==> nx == vx & vy
            &&& n == 3 ==> nx == vx ^ vy
            &&& n <= 3 ==> forall|r: int| 0 <= r < 16 && r != x ==> #[trigger] t.v[r] == s.v[r]
            &&& n == 4 ==> vf <= 1 && vx + vy == 256 * vf + nx
            &&& n == 5 ==> (vf == 1) == (vx > vy) && vf <= 1 && nx == vx - vy + if vx >= vy {
                0int
            } else {
                256int
            }
            &&& n == 6 ==> vf <= 1 && vx == 2 * nx + vf
            &&& n == 7 ==> (vf == 1) == (vy > vx) && vf <= 1 && nx == vy - vx + if vy >= vx {
                0int
            } else {
                256int
            }
            &&& n == 0xE ==> vf <= 1 && 2 * vx == 256 * vf + nx
            &&& n >= 4 ==> forall|r: int|
                0 <= r < 15 && r != x ==> #[trigger] t.v[r] == s.v[r]
        }),
{
    let vx = s.v[x_of(s.fetched().opcode)];
    assert(vx & 1 == vx % 2) by (bit_vector);
}

/// The small core's conditional skips `3xkk`, `4xkk` and `5xy_`: the
/// program counter moves by 4 when the condition holds (`Vx == kk`,
/// `Vx != kk`, `Vx == Vy`) and by 2 otherwise; registers and memory stay.
pub proof fn law_core_cycle_skips(s: CoreState)
    requires
        s.well_sized(),
        s.can_fetch(),
        3 <= family(s.fetched().opcode) <= 5,
    ensures
        ({
            let op = s.fetched().opcode;
            let f = family(op);
            let vx = s.v[x_of(op)];
            let vy = s.v[y_of(op)];
            let kk = kk_of(op);
            let t = s.cycled();
            let cond = if f == 3 {
                vx == kk
            } else if f == 4 {
                vx != kk
            } else {
                vx == vy
            };
            &&& t.pc == s.pc + if cond { 4int } else { 2int }
            &&& t.v == s.v
            &&& t.memory == s.memory
        }),
{
}

/// The small core's register instructions `8xy0` to `8xy5` with `x` other
/// than `F`: the value `Vx` takes, what `VF` reports (carry for `8xy4`,
/// borrow for `8xy5`), and that every other register stays.
pub proof fn law_core_cycle_register_arithmetic(s: CoreState)
    requires
        s.well_sized(),
        s.can_cycle(),
        family(s.fetched().opcode) == 8,
        x_of(s.fetched().opcode) < 15,
        n_of(s.fetched().opcode) >= 4 ==> y_of(s.fetched().opcode) < 15,
    ensures
        ({
            let op = s.fetched().opcode;
            let x = x_of(op);
            let y = y_of(op);
            let n = n_of(op);
            let vx = s.v[x];
            let vy = s.v[y];
            let t = s.cycled();
            let nx = t.v[x];
            let vf = t.v[0xF];
            &&& t.pc == s.pc + 2
            &&& t.v.len() == 16
            &&& n == 0 ==> nx == vy
            &&& n == 1 ==> nx == vx | vy
            &&& n == 2 ==> nx == vx & vy
            &&& n == 3 ==> nx == vx ^ vy
            &&& n <= 3 ==> forall|r: int| 0 <= r < 16 && r != x ==> #[trigger] t.v[r] == s.v[r]
            &&& n == 4 ==> vf <= 1 && vx + vy == 256 * vf + nx
            &&& n == 5 ==> vf <= 1 && (vf == 1) == (vx < vy) && vx - vy == nx - 256 * vf
            &&& n >= 4 ==> forall|r: int|
                0 <= r < 15 && r != x ==> #[trigger] t.v[r] == s.v[r]
        }),
{
}

} // verus!
