//! The full CHIP-8 core: the whole instruction set with timers, keypad,
//! a 64 x 32 monochrome display and the built-in hexadecimal font.
//!
//! The semantics follow the modern ("non-legacy") shift convention: `8xy6`
//! and `8xyE` shift `Vx` itself.

use vstd::prelude::*;
use std::time::{Duration, Instant};
use crate::opcode::{
    family, x_of, y_of, n_of, nnn_of, kk_of, word, join_bytes, family_of, x_index, y_index,
    n_value, nnn_value, kk_value,
};
use crate::cpu::{byte_sub, loaded_memory, MEMORY_SIZE, PROGRAM_START, STACK_DEPTH};

verus! {

/// Declares `std::time::Instant`, the clock reading at which the timers
/// last ticked; Verus sees nothing inside a value of it.
#[verifier::external_type_specification]
#[verifier::external_body]
pub struct ExInstant(Instant);

/// Display width in pixels.
pub const SCREEN_WIDTH: usize = 64;

/// Display height in pixels.
pub const SCREEN_HEIGHT: usize = 32;

/// Milliseconds that make one tick of the delay and sound timers.
pub const TIMER_PERIOD_MS: u128 = 17;

/// Bytes per glyph of the built-in font.
pub const FONT_GLYPH_SIZE: u16 = 5;

/// The hexadecimal font: five rows of four pixels for each digit 0..F,
/// stored at the bottom of memory.
pub const FONT_SPRITES: [u8; 80] = [
    0xF0, 0x90, 0x90, 0x90, 0xF0,  // 0
    0x20, 0x60, 0x20, 0x20, 0x70,  // 1
    0xF0, 0x10, 0xF0, 0x80, 0xF0,  // 2
    0xF0, 0x10, 0xF0, 0x10, 0xF0,  // 3
    0x90, 0x90, 0xF0, 0x10, 0x10,  // 4
    0xF0, 0x80, 0xF0, 0x10, 0xF0,  // 5
    0xF0, 0x80, 0xF0, 0x90, 0xF0,  // 6
    0xF0, 0x10, 0x20, 0x40, 0x40,  // 7
    0xF0, 0x90, 0xF0, 0x90, 0xF0,  // 8
    0xF0, 0x90, 0xF0, 0x10, 0xF0,  // 9
    0xF0, 0x90, 0xF0, 0x90, 0x90,  // A
    0xE0, 0x90, 0xE0, 0x90, 0xE0,  // B
    0xF0, 0x80, 0x80, 0x80, 0xF0,  // C
    0xE0, 0x90, 0x90, 0x90, 0xE0,  // D
    0xF0, 0x80, 0xF0, 0x80, 0xF0,  // E
    0xF0, 0x80, 0xF0, 0x80, 0x80,  // F
];

/// The reserved area below `PROGRAM_START`: the font, then zeros.
pub open spec fn reserved_area() -> Seq<u8> {
    Seq::new(PROGRAM_START as nat, |i: int| if i < 80 { FONT_SPRITES@[i] } else { 0u8 })
}

/// Bit `bit` of a sprite row, counted from the most significant bit.
pub open spec fn sprite_bit(row: u8, bit: int) -> bool {
    (row >> ((7 - bit) as usize)) & 1u8 == 1u8
}

/// A blank display.
pub open spec fn blank_screen() -> Seq<Seq<bool>> {
    Seq::new(SCREEN_HEIGHT as nat, |r: int| Seq::new(SCREEN_WIDTH as nat, |c: int| false))
}

/// The index of the highest-numbered key among the first `k` that is down.
pub open spec fn last_pressed(keys: Seq<bool>, k: nat) -> Option<int>
    decreases k,
{
    if k == 0 {
        None
    } else if keys[k - 1] {
        Some(k - 1)
    } else {
        last_pressed(keys, (k - 1) as nat)
    }
}

/// A timer after one tick: it counts down to zero and stays there.
pub open spec fn tick(t: u8) -> u8 {
    if t > 0 {
        (t - 1) as u8
    } else {
        0
    }
}

/// The state right after power-on: everything zero, blank and released,
/// with `I` and the program counter at `PROGRAM_START`.
pub open spec fn power_on_state() -> CpuState {
    CpuState {
        opcode: 0,
        v: Seq::new(16, |r: int| 0u8),
        i: PROGRAM_START as u16,
        sound_timer: 0,
        delay_timer: 0,
        pc: PROGRAM_START as int,
        sp: 0,
        memory: Seq::new(MEMORY_SIZE as nat, |m: int| 0u8),
        stack: Seq::new(STACK_DEPTH as nat, |d: int| 0u16),
        vram: blank_screen(),
        key_buffer: Seq::new(16, |k: int| false),
        update_vram: false,
    }
}

/// The observable state of the core, as mathematical values.
#[verifier::ext_equal]
pub struct CpuState {
    pub opcode: u16,
    pub v: Seq<u8>,
    pub i: u16,
    pub sound_timer: u8,
    pub delay_timer: u8,
    pub pc: int,
    pub sp: int,
    pub memory: Seq<u8>,
    pub stack: Seq<u16>,
    pub vram: Seq<Seq<bool>>,
    pub key_buffer: Seq<bool>,
    pub update_vram: bool,
}

impl CpuState {
    /// Register `r` set to `b`.
    pub open spec fn set_v(self, r: int, b: u8) -> CpuState {
        CpuState { v: self.v.update(r, b), ..self }
    }

    /// The program counter moved past the current instruction.
    pub open spec fn advance(self) -> CpuState {
        CpuState { pc: self.pc + 2, ..self }
    }

    /// The program counter moved past the current instruction, and past the
    /// next one too when `cond` holds.
    pub open spec fn skip_if(self, cond: bool) -> CpuState {
        CpuState { pc: self.pc + if cond { 4int } else { 2int }, ..self }
    }

    /// Memory replaced by `m`.
    pub open spec fn with_memory(self, m: Seq<u8>) -> CpuState {
        CpuState { memory: m, ..self }
    }

    /// Memory after loading `program`: the reserved area below
    /// `PROGRAM_START`, the program above it, the rest unchanged.
    pub open spec fn loaded(self, program: Seq<u8>) -> CpuState {
        self.with_memory(loaded_memory(self.memory, reserved_area(), program))
    }

    /// The latched instruction word replaced by `op`.
    pub open spec fn with_opcode(self, op: u16) -> CpuState {
        CpuState { opcode: op, ..self }
    }

    /// Registers replaced by `regs`.
    pub open spec fn with_v(self, regs: Seq<u8>) -> CpuState {
        CpuState { v: regs, ..self }
    }

    /// `I` set to `a`.
    pub open spec fn with_i(self, a: u16) -> CpuState {
        CpuState { i: a, ..self }
    }

    /// The delay timer set to `t`.
    pub open spec fn with_delay(self, t: u8) -> CpuState {
        CpuState { delay_timer: t, ..self }
    }

    /// The sound timer set to `t`.
    pub open spec fn with_sound(self, t: u8) -> CpuState {
        CpuState { sound_timer: t, ..self }
    }

    /// The program counter set to `target`.
    pub open spec fn jumped(self, target: int) -> CpuState {
        CpuState { pc: target, ..self }
    }

    /// The program counter pushed on the stack, then set to `target`.
    pub open spec fn called(self, target: int) -> CpuState {
        CpuState {
            stack: self.stack.update(self.sp, self.pc as u16),
            sp: self.sp + 1,
            pc: target,
            ..self
        }
    }

    /// The top return address popped; execution continues after the call.
    pub open spec fn returned(self) -> CpuState {
        CpuState { sp: self.sp - 1, pc: self.stack[self.sp - 1] + 2, ..self }
    }

    /// The display blanked and flagged for redrawing.
    pub open spec fn cleared(self) -> CpuState {
        CpuState { vram: blank_screen(), update_vram: true, ..self }
    }

    /// The state has the sizes of the machine.
    pub open spec fn well_sized(self) -> bool {
        &&& self.v.len() == 16
        &&& self.memory.len() == MEMORY_SIZE
        &&& self.stack.len() == STACK_DEPTH
        &&& self.key_buffer.len() == 16
        &&& self.vram.len() == SCREEN_HEIGHT
        &&& forall|r: int| 0 <= r < SCREEN_HEIGHT ==> #[trigger] self.vram[r].len() == SCREEN_WIDTH
    }

    /// Whether the instruction word at the program counter can be read.
    pub open spec fn can_fetch(self) -> bool {
        0 <= self.pc && self.pc + 1 < MEMORY_SIZE
    }

    /// The state after reading the instruction word at the program counter.
    pub open spec fn fetched(self) -> CpuState {
        CpuState { opcode: word(self.memory[self.pc], self.memory[self.pc + 1]), ..self }
    }

    /// Pixel (`row`, `col`) of a sprite row XORed onto the display; `VF`
    /// gains a 1 when a lit pixel is erased.
    pub open spec fn draw_pixel(self, row: int, col: int, sprite_row: u8, bit: int) -> CpuState {
        let color = sprite_bit(sprite_row, bit);
        let lit = self.vram[row][col];
        CpuState {
            v: self.v.update(0xF, self.v[0xF] | (if color && lit { 1u8 } else { 0u8 })),
            vram: self.vram.update(row, self.vram[row].update(col, lit != color)),
            ..self
        }
    }

    /// The first `count` pixels of sprite row `byte` drawn on display row
    /// `row`; each column is taken from the current `Vx`.
    pub open spec fn draw_bits(self, x: int, row: int, byte: int, count: nat) -> CpuState
        decreases count,
    {
        if count == 0 {
            self
        } else {
            let s = self.draw_bits(x, row, byte, (count - 1) as nat);
            let bit = count - 1;
            s.draw_pixel(row, (s.v[x] + bit) % 64, s.memory[s.i + byte], bit)
        }
    }

    /// The first `rows` rows of the sprite at `I` drawn; each row's display
    /// row is taken from `Vy` when the row starts.
    pub open spec fn draw_rows(self, x: int, y: int, rows: nat) -> CpuState
        decreases rows,
    {
        if rows == 0 {
            self
        } else {
            let s = self.draw_rows(x, y, (rows - 1) as nat);
            let byte = rows - 1;
            s.draw_bits(x, (s.v[y] + byte) % 32, byte, 8)
        }
    }

    /// `Dxyn` before the program counter moves.
    pub open spec fn drawn(self, x: int, y: int, n: int) -> CpuState {
        let s = self.set_v(0xF, 0).draw_rows(x, y, n as nat);
        CpuState { update_vram: true, ..s }
    }

    /// `Fx0A`: while no key is down the state stays as it is, so the
    /// instruction runs again; otherwise `Vx` takes the highest key that is
    /// down and the program counter moves on.
    pub open spec fn key_loaded(self, x: int) -> CpuState {
        match last_pressed(self.key_buffer, 16) {
            Some(k) => self.set_v(x, k as u8).advance(),
            None => self,
        }
    }

    /// `Fx33`: the decimal digits of `Vx` at `I`, `I + 1`, `I + 2`.
    pub open spec fn bcd_stored(self, x: int) -> CpuState {
        let vx = self.v[x];
        let a = self.i as int;
        CpuState {
            memory: self.memory.update(a, (vx / 100) as u8).update(a + 1, ((vx % 100) / 10) as u8)
                .update(a + 2, (vx % 10) as u8),
            ..self
        }
    }

    /// `Fx55`: `V0..=Vx` copied to memory from `I` on.
    pub open spec fn regs_stored(self, x: int) -> CpuState {
        let a = self.i as int;
        CpuState {
            memory: Seq::new(
                self.memory.len(),
                |m: int| if a <= m <= a + x { self.v[m - a] } else { self.memory[m] },
            ),
            ..self
        }
    }

    /// `Fx65`: `V0..=Vx` read from memory from `I` on.
    pub open spec fn regs_loaded(self, x: int) -> CpuState {
        let a = self.i as int;
        CpuState {
            v: Seq::new(self.v.len(), |r: int| if r <= x { self.memory[a + r] } else { self.v[r] }),
            ..self
        }
    }

    /// Whether the latched instruction runs to completion: the core knows it
    /// and it neither overflows a register, `I` or the stack nor reads or
    /// writes outside memory or the keypad.
    pub open spec fn can_execute(self) -> bool {
        let op = self.opcode;
        let f = family(op);
        let x = x_of(op);
        let y = y_of(op);
        let n = n_of(op);
        let a = self.i as int;
        if f == 0 {
            x == 0 && y == 0xE && (n == 0 || (n == 0xE && 1 <= self.sp <= STACK_DEPTH))
        } else if f == 2 {
            0 <= self.sp < STACK_DEPTH
        } else if f == 5 || f == 9 {
            n == 0
        } else if f == 7 {
            self.v[x] + kk_of(op) <= 255
        } else if f == 8 {
            n <= 7 || n == 0xE
        } else if f == 0xD {
            n == 0 || a + n <= MEMORY_SIZE
        } else if f == 0xE {
            ((y == 9 && n == 0xE) || (y == 0xA && n == 1)) && self.v[x] < 16
        } else if f == 0xF {
            ||| y == 0 && (n == 7 || n == 0xA)
            ||| y == 1 && (n == 5 || n == 8)
            ||| y == 1 && n == 0xE && a + self.v[x] <= 0xFFFF
            ||| y == 2 && n == 9
            ||| y == 3 && n == 3 && a + 2 < MEMORY_SIZE
            ||| (y == 5 || y == 6) && n == 5 && a + x < MEMORY_SIZE
        } else {
            true
        }
    }

    /// The effect of an instruction of family `8` on the registers.
    pub open spec fn arith(self, x: int, y: int, n: int) -> CpuState {
        let vx = self.v[x];
        let vy = self.v[y];
        if n == 0 {
            self.set_v(x, vy)
        } else if n == 1 {
            self.set_v(x, vx | vy)
        } else if n == 2 {
            self.set_v(x, vx & vy)
        } else if n == 3 {
            self.set_v(x, vx ^ vy)
        } else if n == 4 {
            let sum = vx + vy;
            let s1 = self.set_v(0xF, if sum > 0xFF { 1u8 } else { 0u8 });
            s1.set_v(x, (sum % 0x100) as u8)
        } else if n == 5 {
            let s1 = self.set_v(0xF, if vx > vy { 1u8 } else { 0u8 });
            s1.set_v(x, byte_sub(s1.v[x], s1.v[y]))
        } else if n == 6 {
            let s1 = self.set_v(0xF, vx & 1);
            s1.set_v(x, s1.v[x] / 2)
        } else if n == 7 {
            let s1 = self.set_v(0xF, if vy > vx { 1u8 } else { 0u8 });
            s1.set_v(x, byte_sub(s1.v[y], s1.v[x]))
        } else {
            let s1 = self.set_v(0xF, vx / 128);
            s1.set_v(x, ((s1.v[x] * 2) % 0x100) as u8)
        }
    }

    /// The effect of the latched instruction; `rnd` is the random byte that
    /// `Cxkk` draws.
    pub open spec fn executed(self, rnd: u8) -> CpuState {
        let op = self.opcode;
        let f = family(op);
        let x = x_of(op);
        let y = y_of(op);
        let n = n_of(op);
        let kk = kk_of(op) as u8;
        let nnn = nnn_of(op);
        if f == 0 {
            if n == 0 {
                self.cleared().advance()
            } else {
                self.returned()
            }
        } else if f == 1 {
            self.jumped(nnn)
        } else if f == 2 {
            self.called(nnn)
        } else if f == 3 {
            self.skip_if(self.v[x] == kk)
        } else if f == 4 {
            self.skip_if(self.v[x] != kk)
        } else if f == 5 {
            self.skip_if(self.v[x] == self.v[y])
        } else if f == 6 {
            self.set_v(x, kk).advance()
        } else if f == 7 {
            self.set_v(x, (self.v[x] + kk) as u8).advance()
        } else if f == 8 {
            self.arith(x, y, n).advance()
        } else if f == 9 {
            self.skip_if(self.v[x] != self.v[y])
        } else if f == 0xA {
            self.with_i(nnn as u16).advance()
        } else if f == 0xB {
            self.jumped(nnn + self.v[0])
        } else if f == 0xC {
            self.set_v(x, rnd & kk).advance()
        } else if f == 0xD {
            self.drawn(x, y, n).advance()
        } else if f == 0xE {
            if y == 9 {
                self.skip_if(self.key_buffer[self.v[x] as int])
            } else {
                self.skip_if(!self.key_buffer[self.v[x] as int])
            }
        } else if y == 0 && n == 7 {
            self.set_v(x, self.delay_timer).advance()
        } else if y == 0 {
            self.key_loaded(x)
        } else if y == 1 && n == 5 {
            self.with_delay(self.v[x]).advance()
        } else if y == 1 && n == 8 {
            self.with_sound(self.v[x]).advance()
        } else if y == 1 {
            self.with_i((self.i + self.v[x]) as u16).advance()
        } else if y == 2 {
            self.with_i((self.v[x] * 5) as u16).advance()
        } else if y == 3 {
            self.bcd_stored(x).advance()
        } else if y == 5 {
            self.regs_stored(x).advance()
        } else {
            self.regs_loaded(x).advance()
        }
    }

    /// Both timers ticked once.
    pub open spec fn ticked(self) -> CpuState {
        CpuState { sound_timer: tick(self.sound_timer), delay_timer: tick(self.delay_timer), ..self }
    }

    /// Whether one cycle runs to completion from this state.
    pub open spec fn can_cycle(self) -> bool {
        self.can_fetch() && self.fetched().can_execute()
    }

    /// The state after one cycle, before the timers: the display flag
    /// cleared, the instruction fetched and executed with `rnd` as the
    /// random byte.
    pub open spec fn cycled(self, rnd: u8) -> CpuState {
        CpuState { update_vram: false, ..self }.fetched().executed(rnd)
    }
}

/// The full core.
pub struct Cpu {
    pub opcode: u16,
    pub v: [u8; 16],
    pub i: u16,
    pub sound_timer: u8,
    pub delay_timer: u8,
    pub pc: usize,
    pub sp: usize,
    pub memory: [u8; 4096],
    pub stack: [u16; 16],
    pub vram: [[bool; 64]; 32],
    pub key_buffer: [bool; 16],
    pub update_vram: bool,
    pub time_at_last_timer_count: Instant,
}

/// Wraps `std::time::Instant::now`: a reading of the monotonic clock.
/// Nothing is stated of the value, which depends on when the call is made.
#[verifier::external_body]
fn instant_now() -> (now: Instant) {
    Instant::now()
}

/// Wraps `std::time::Instant::duration_since`: the time from `earlier` to
/// `later`. Nothing is stated of the value, which depends on two clock
/// readings.
#[verifier::external_body]
fn duration_since(later: &Instant, earlier: &Instant) -> (d: Duration) {
    later.duration_since(*earlier)
}

/// Wraps `std::time::Duration::as_millis`: the whole milliseconds of `d`.
/// Nothing is stated of the value, since a `Duration` is opaque here.
#[verifier::external_body]
fn whole_millis(d: &Duration) -> (ms: u128) {
    d.as_millis()
}

/// Wraps `rand::random::<u8>()`: a byte from the thread-local generator.
/// Any byte may come back; nothing is stated of it.
#[verifier::external_body]
fn random_byte() -> (b: u8) {
    rand::random::<u8>()
}

impl Cpu {
    /// The state of the core as mathematical values.
    pub open spec fn state(&self) -> CpuState {
        CpuState {
            opcode: self.opcode,
            v: self.v@,
            i: self.i,
            sound_timer: self.sound_timer,
            delay_timer: self.delay_timer,
            pc: self.pc as int,
            sp: self.sp as int,
            memory: self.memory@,
            stack: self.stack@,
            vram: self.vram@.map_values(|row: [bool; 64]| row@),
            key_buffer: self.key_buffer@,
            update_vram: self.update_vram,
        }
    }
}


impl Cpu {
    /// A powered-on core: registers, memory, stack, display and keypad
    /// cleared, `I` and the program counter at the start of the program
    /// area, and the timer clock started now.
    pub fn new() -> (cpu: Cpu)
        ensures
            cpu.state() == power_on_state(),
    {
        let cpu = Cpu {
            opcode: 0,
            v: [0; 16],
            i: 0x200,
            sound_timer: 0,
            delay_timer: 0,
            pc: 0x200,
            sp: 0,
            memory: [0; 4096],
            stack: [0; 16],
            vram: [[false; 64]; 32],
            key_buffer: [false; 16],
            update_vram: false,
            time_at_last_timer_count: instant_now(),
        };
        assert(cpu.state().vram =~~= blank_screen());
        assert(cpu.state() =~= power_on_state());
        cpu
    }

    /// Writes the font and zeros below `PROGRAM_START` and copies the
    /// program right above; memory above the program keeps its bytes.
    pub fn load_program(&mut self, program: Vec<u8>)
        requires
            program.len() <= MEMORY_SIZE - PROGRAM_START,
        ensures
            final(self).time_at_last_timer_count == old(self).time_at_last_timer_count,
            final(self).state() == old(self).state().loaded(program@),
    {
        let mut data: Vec<u8> = vec![0; 0x200];
        let mut k: usize = 0;
        while k < 80
            invariant
                self.time_at_last_timer_count == old(self).time_at_last_timer_count,
                k <= 80,
                data@.len() == PROGRAM_START,
                forall|i: int| 0 <= i < k ==> data@[i] == FONT_SPRITES@[i],
                forall|i: int| k <= i < PROGRAM_START ==> data@[i] == 0u8,
            decreases 80 - k,
        {
            data.set(k, FONT_SPRITES[k]);
            k = k + 1;
        }
        let ghost reserved = data@;
        assert(reserved =~= reserved_area());
        let mut j: usize = 0;
        while j < program.len()
            invariant
                self.time_at_last_timer_count == old(self).time_at_last_timer_count,
                j <= program.len(),
                program.len() <= MEMORY_SIZE - PROGRAM_START,
                data@ =~= reserved + program@.take(j as int),
            decreases program.len() - j,
        {
            data.push(program[j]);
            j = j + 1;
        }
        assert(program@.take(program.len() as int) =~= program@);
        let ghost start = self.state();
        let mut index: usize = 0;
        while index < data.len()
            invariant
                self.time_at_last_timer_count == old(self).time_at_last_timer_count,
                index <= data.len(),
                data@ == reserved + program@,
                data.len() <= MEMORY_SIZE,
                start == old(self).state(),
                start.memory.len() == MEMORY_SIZE,
                self.state() == start.with_memory(self.memory@),
                forall|i: int| 0 <= i < index ==> self.memory@[i] == data@[i],
                forall|i: int| index <= i < MEMORY_SIZE ==> self.memory@[i] == start.memory[i],
            decreases data.len() - index,
        {
            self.memory[index] = data[index];
            index = index + 1;
        }
        assert(self.memory@ =~= loaded_memory(start.memory, reserved, program@));
    }

    /// Latches the instruction word at the program counter.
    fn fetch_opcode(&mut self)
        requires
            old(self).state().can_fetch(),
        ensures
            final(self).time_at_last_timer_count == old(self).time_at_last_timer_count,
            final(self).state() == old(self).state().fetched(),
    {
        self.opcode = join_bytes(self.memory[self.pc], self.memory[self.pc + 1]);
    }

    /// Moves the program counter past the current instruction.
    fn inc_pc(&mut self)
        requires
            old(self).pc + 2 <= usize::MAX,
        ensures
            final(self).time_at_last_timer_count == old(self).time_at_last_timer_count,
            final(self).state() == old(self).state().advance(),
    {
        self.pc = self.pc + 2;
    }

    /// `00E0` CLS: blank the display and flag it for redrawing.
    fn op_cls(&mut self)
        requires
            old(self).pc + 2 <= usize::MAX,
        ensures
            final(self).time_at_last_timer_count == old(self).time_at_last_timer_count,
            final(self).state() == old(self).state().cleared().advance(),
    {
        self.vram = [[false; 64]; 32];
        self.update_vram = true;
        self.inc_pc();
        assert(self.state().vram =~~= blank_screen());
    }

    /// `00EE` RET: pop the return address and continue after the call.
    fn op_ret(&mut self)
        requires
            1 <= old(self).sp <= STACK_DEPTH,
        ensures
            final(self).time_at_last_timer_count == old(self).time_at_last_timer_count,
            final(self).state() == old(self).state().returned(),
    {
        self.sp = self.sp - 1;
        self.pc = self.stack[self.sp] as usize;
        self.inc_pc();
    }

    /// `1nnn` JP: jump to `nnn`.
    fn op_jp_addr(&mut self, nnn: usize)
        ensures
            final(self).time_at_last_timer_count == old(self).time_at_last_timer_count,
            final(self).state() == old(self).state().jumped(nnn as int),
    {
        self.pc = nnn;
    }

    /// `2nnn` CALL: push the program counter and jump to `nnn`.
    fn op_call_addr(&mut self, nnn: usize)
        requires
            old(self).sp < STACK_DEPTH,
            old(self).pc + 2 <= usize::MAX,
        ensures
            final(self).time_at_last_timer_count == old(self).time_at_last_timer_count,
            final(self).state() == old(self).state().called(nnn as int),
    {
        self.stack[self.sp] = self.pc as u16;
        self.sp = self.sp + 1;
        self.pc = nnn;
    }

    /// `3xkk` SE: skip the next instruction when `Vx == kk`.
    fn op_se(&mut self, x: usize, kk: u8)
        requires
            x < 16,
            old(self).pc + 4 <= usize::MAX,
        ensures
            final(self).time_at_last_timer_count == old(self).time_at_last_timer_count,
            final(self).state() == old(self).state().skip_if(old(self).v@[x as int] == kk),
    {
        if self.v[x] == kk {
            self.inc_pc();
        }
        self.inc_pc();
    }

    /// `4xkk` SNE: skip the next instruction when `Vx != kk`.
    fn op_sne(&mut self, x: usize, kk: u8)
        requires
            x < 16,
            old(self).pc + 4 <= usize::MAX,
        ensures
            final(self).time_at_last_timer_count == old(self).time_at_last_timer_count,
            final(self).state() == old(self).state().skip_if(old(self).v@[x as int] != kk),
    {
        if self.v[x] != kk {
            self.inc_pc();
        }
        self.inc_pc();
    }

    /// `5xy0` SE: skip the next instruction when `Vx == Vy`.
    fn op_se_xy(&mut self, x: usize, y: usize)
        requires
            x < 16,
            y < 16,
            old(self).pc + 4 <= usize::MAX,
        ensures
            final(self).time_at_last_timer_count == old(self).time_at_last_timer_count,
            final(self).state() == old(self).state().skip_if(
                old(self).v@[x as int] == old(self).v@[y as int],
            ),
    {
        if self.v[x] == self.v[y] {
            self.inc_pc();
        }
        self.inc_pc();
    }

    /// `6xkk` LD: `Vx = kk`.
    fn op_ld_vx(&mut self, x: usize, kk: u8)
        requires
            x < 16,
            old(self).pc + 2 <= usize::MAX,
        ensures
            final(self).time_at_last_timer_count == old(self).time_at_last_timer_count,
            final(self).state() == old(self).state().set_v(x as int, kk).advance(),
    {
        self.v[x] = kk;
        self.inc_pc();
    }

    /// `7xkk` ADD: `Vx = Vx + kk`; the sum must fit in a byte.
    fn op_add_vx(&mut self, x: usize, kk: u8)
        requires
            x < 16,
            old(self).v@[x as int] + kk <= 255,
            old(self).pc + 2 <= usize::MAX,
        ensures
            final(self).time_at_last_timer_count == old(self).time_at_last_timer_count,
            final(self).state() == old(self).state().set_v(
                x as int,
                (old(self).v@[x as int] + kk) as u8,
            ).advance(),
    {
        self.v[x] = self.v[x] + kk;
        self.inc_pc();
    }
}


impl Cpu {
    /// `8xy0` LD: `Vx = Vy`.
    fn op_ld_vx_vy(&mut self, x: usize, y: usize)
        requires
            x < 16,
            y < 16,
            old(self).pc + 2 <= usize::MAX,
        ensures
            final(self).time_at_last_timer_count == old(self).time_at_last_timer_count,
            final(self).state() == old(self).state().arith(x as int, y as int, 0).advance(),
    {
        self.v[x] = self.v[y];
        self.inc_pc();
    }

    /// `8xy1` OR: `Vx = Vx | Vy`.
    fn op_or_vx_vy(&mut self, x: usize, y: usize)
        requires
            x < 16,
            y < 16,
            old(self).pc + 2 <= usize::MAX,
        ensures
            final(self).time_at_last_timer_count == old(self).time_at_last_timer_count,
            final(self).state() == old(self).state().arith(x as int, y as int, 1).advance(),
    {
        self.v[x] = self.v[x] | self.v[y];
        self.inc_pc();
    }

    /// `8xy2` AND: `Vx = Vx & Vy`.
    fn op_and_vx_vy(&mut self, x: usize, y: usize)
        requires
            x < 16,
            y < 16,
            old(self).pc + 2 <= usize::MAX,
        ensures
            final(self).time_at_last_timer_count == old(self).time_at_last_timer_count,
            final(self).state() == old(self).state().arith(x as int, y as int, 2).advance(),
    {
        self.v[x] = self.v[x] & self.v[y];
        self.inc_pc();
    }

    /// `8xy3` XOR: `Vx = Vx ^ Vy`.
    fn op_xor_vy_vy(&mut self, x: usize, y: usize)
        requires
            x < 16,
            y < 16,
            old(self).pc + 2 <= usize::MAX,
        ensures
            final(self).time_at_last_timer_count == old(self).time_at_last_timer_count,
            final(self).state() == old(self).state().arith(x as int, y as int, 3).advance(),
    {
        self.v[x] = self.v[x] ^ self.v[y];
        self.inc_pc();
    }

    /// `8xy4` ADD: `Vx = Vx + Vy` modulo 256, `VF` = carry.
    fn op_add_vx_vy(&mut self, x: usize, y: usize)
        requires
            x < 16,
            y < 16,
            old(self).pc + 2 <= usize::MAX,
        ensures
            final(self).time_at_last_timer_count == old(self).time_at_last_timer_count,
            final(self).state() == old(self).state().arith(x as int, y as int, 4).advance(),
    {
        let sum: u16 = self.v[x] as u16 + self.v[y] as u16;
        self.v[0xf] = if sum > 0xff { 1 } else { 0 };
        assert(sum & 0x00ff == sum % 0x100) by (bit_vector);
        self.v[x] = (sum & 0x00ff) as u8;
        self.inc_pc();
    }

    /// `8xy5` SUB: `VF = (Vx > Vy)`, then `Vx = Vx - Vy` modulo 256.
    fn op_sub_vx_vy(&mut self, x: usize, y: usize)
        requires
            x < 16,
            y < 16,
            old(self).pc + 2 <= usize::MAX,
        ensures
            final(self).time_at_last_timer_count == old(self).time_at_last_timer_count,
            final(self).state() == old(self).state().arith(x as int, y as int, 5).advance(),
    {
        if self.v[x] > self.v[y] {
            self.v[0xf] = 1;
        } else {
            self.v[0xf] = 0;
        }
        self.v[x] = self.v[x].wrapping_sub(self.v[y]);
        self.inc_pc();
    }

    /// `8xy6` SHR: `VF` = the low bit of `Vx`, then `Vx = Vx >> 1`.
    fn op_shr_vx_vy(&mut self, x: usize, y: usize)
        requires
            x < 16,
            y < 16,
            old(self).pc + 2 <= usize::MAX,
        ensures
            final(self).time_at_last_timer_count == old(self).time_at_last_timer_count,
            final(self).state() == old(self).state().arith(x as int, y as int, 6).advance(),
    {
        self.v[0xf] = self.v[x] & 0x01;
        let vx = self.v[x];
        assert(vx >> 1 == vx / 2) by (bit_vector);
        self.v[x] = vx >> 1;
        self.inc_pc();
    }

    /// `8xy7` SUBN: `VF = (Vy > Vx)`, then `Vx = Vy - Vx` modulo 256.
    fn op_subn_vx_vy(&mut self, x: usize, y: usize)
        requires
            x < 16,
            y < 16,
            old(self).pc + 2 <= usize::MAX,
        ensures
            final(self).time_at_last_timer_count == old(self).time_at_last_timer_count,
            final(self).state() == old(self).state().arith(x as int, y as int, 7).advance(),
    {
        if self.v[y] > self.v[x] {
            self.v[0xf] = 1;
        } else {
            self.v[0xf] = 0;
        }
        self.v[x] = self.v[y].wrapping_sub(self.v[x]);
        self.inc_pc();
    }

    /// `8xyE` SHL: `VF` = the high bit of `Vx`, then `Vx = Vx << 1`.
    fn op_shl_vx_vy(&mut self, x: usize, y: usize)
        requires
            x < 16,
            y < 16,
            old(self).pc + 2 <= usize::MAX,
        ensures
            final(self).time_at_last_timer_count == old(self).time_at_last_timer_count,
            final(self).state() == old(self).state().arith(x as int, y as int, 0xE).advance(),
    {
        let v0 = self.v[x];
        assert(v0 >> 7 == v0 / 128) by (bit_vector);
        self.v[0xf] = v0 >> 7;
        let vx = self.v[x];
        assert((vx << 1) as int == (vx as int * 2) % 0x100) by (bit_vector);
        self.v[x] = vx << 1;
        self.inc_pc();
    }

    /// `9xy0` SNE: skip the next instruction when `Vx != Vy`.
    fn op_sne_vx_vy(&mut self, x: usize, y: usize)
        requires
            x < 16,
            y < 16,
            old(self).pc + 4 <= usize::MAX,
        ensures
            final(self).time_at_last_timer_count == old(self).time_at_last_timer_count,
            final(self).state() == old(self).state().skip_if(
                old(self).v@[x as int] != old(self).v@[y as int],
            ),
    {
        if self.v[x] != self.v[y] {
            self.inc_pc();
        }
        self.inc_pc();
    }

    /// `Annn` LD I: `I = nnn`.
    fn op_ldi(&mut self, nnn: usize)
        requires
            nnn < 0x1000,
            old(self).pc + 2 <= usize::MAX,
        ensures
            final(self).time_at_last_timer_count == old(self).time_at_last_timer_count,
            final(self).state() == old(self).state().with_i(nnn as u16).advance(),
    {
        self.i = nnn as u16;
        self.inc_pc();
    }

    /// `Bnnn` JP V0: jump to `nnn + V0`.
    fn op_jp_addr_v0(&mut self, nnn: usize)
        requires
            nnn < 0x1000,
        ensures
            final(self).time_at_last_timer_count == old(self).time_at_last_timer_count,
            final(self).state() == old(self).state().jumped(nnn + old(self).v@[0]),
    {
        self.pc = nnn + self.v[0x0] as usize;
    }

    /// `Cxkk` RND: `Vx` = a random byte masked with `kk`.
    fn op_rnd_vx(&mut self, x: usize, kk: u8)
        requires
            x < 16,
            old(self).pc + 2 <= usize::MAX,
        ensures
            final(self).time_at_last_timer_count == old(self).time_at_last_timer_count,
            exists|rnd: u8|
                final(self).state() == #[trigger] old(self).state().set_v(x as int, rnd & kk).advance(),
    {
        let rnd = random_byte();
        self.set_masked_random(x, kk, rnd);
    }

    /// The rest of `Cxkk` once the random byte `rnd` is drawn: `Vx = rnd & kk`.
    pub fn set_masked_random(&mut self, x: usize, kk: u8, rnd: u8)
        requires
            x < 16,
            old(self).pc + 2 <= usize::MAX,
        ensures
            final(self).time_at_last_timer_count == old(self).time_at_last_timer_count,
            final(self).state() == old(self).state().set_v(x as int, rnd & kk).advance(),
    {
        self.v[x] = rnd & kk;
        self.inc_pc();
    }

    /// `Ex9E` SKP: skip the next instruction when key `Vx` is down.
    fn op_skp_vx(&mut self, x: usize)
        requires
            x < 16,
            old(self).v@[x as int] < 16,
            old(self).pc + 4 <= usize::MAX,
        ensures
            final(self).time_at_last_timer_count == old(self).time_at_last_timer_count,
            final(self).state() == old(self).state().skip_if(
                old(self).key_buffer@[old(self).v@[x as int] as int],
            ),
    {
        let key = self.v[x] as usize;
        if self.key_buffer[key] {
            self.inc_pc();
        }
        self.inc_pc();
    }

    /// `ExA1` SKNP: skip the next instruction when key `Vx` is up.
    fn op_sknp_vx(&mut self, x: usize)
        requires
            x < 16,
            old(self).v@[x as int] < 16,
            old(self).pc + 4 <= usize::MAX,
        ensures
            final(self).time_at_last_timer_count == old(self).time_at_last_timer_count,
            final(self).state() == old(self).state().skip_if(
                !old(self).key_buffer@[old(self).v@[x as int] as int],
            ),
    {
        let key = self.v[x] as usize;
        if !self.key_buffer[key] {
            self.inc_pc();
        }
        self.inc_pc();
    }

    /// `Fx07` LD Vx, DT: `Vx` = the delay timer.
    fn op_ld_vx_dt(&mut self, x: usize)
        requires
            x < 16,
            old(self).pc + 2 <= usize::MAX,
        ensures
            final(self).time_at_last_timer_count == old(self).time_at_last_timer_count,
            final(self).state() == old(self).state().set_v(x as int, old(self).delay_timer).advance(),
    {
        self.v[x] = self.delay_timer;
        self.inc_pc();
    }

    /// `Fx0A` LD Vx, K: waits for a key. While none is down the program
    /// counter stays, so the instruction runs again; otherwise `Vx` takes
    /// the highest key that is down and execution goes on.
    fn op_ld_vx_k(&mut self, x: usize)
        requires
            x < 16,
            old(self).pc + 2 <= usize::MAX,
        ensures
            final(self).time_at_last_timer_count == old(self).time_at_last_timer_count,
            final(self).state() == old(self).state().key_loaded(x as int),
    {
        let mut exit = false;
        let ghost start = self.state();
        let mut k: usize = 0;
        while k < 16
            invariant
                self.time_at_last_timer_count == old(self).time_at_last_timer_count,
                k <= 16,
                x < 16,
                start == old(self).state(),
                self.state() == start.set_v(x as int, self.v@[x as int]),
                exit == (last_pressed(start.key_buffer, k as nat) is Some),
                self.v@[x as int] == match last_pressed(start.key_buffer, k as nat) {
                    Some(key) => key as u8,
                    None => start.v[x as int],
                },
            decreases 16 - k,
        {
            if self.key_buffer[k] {
                self.v[x] = k as u8;
                exit = true;
            }
            k = k + 1;
        }
        if exit {
            self.inc_pc();
        } else {
            assert(self.state() =~= start);
        }
    }

    /// `Fx15` LD DT, Vx: the delay timer = `Vx`.
    fn op_ld_dt_vx(&mut self, x: usize)
        requires
            x < 16,
            old(self).pc + 2 <= usize::MAX,
        ensures
            final(self).time_at_last_timer_count == old(self).time_at_last_timer_count,
            final(self).state() == old(self).state().with_delay(old(self).v@[x as int]).advance(),
    {
        self.delay_timer = self.v[x];
        self.inc_pc();
    }

    /// `Fx18` LD ST, Vx: the sound timer = `Vx`.
    fn op_ld_st_vx(&mut self, x: usize)
        requires
            x < 16,
            old(self).pc + 2 <= usize::MAX,
        ensures
            final(self).time_at_last_timer_count == old(self).time_at_last_timer_count,
            final(self).state() == old(self).state().with_sound(old(self).v@[x as int]).advance(),
    {
        self.sound_timer = self.v[x];
        self.inc_pc();
    }

    /// `Fx1E` ADD I, Vx: `I = I + Vx`; the sum must fit in 16 bits.
    fn op_add_i_vx(&mut self, x: usize)
        requires
            x < 16,
            old(self).i + old(self).v@[x as int] <= 0xFFFF,
            old(self).pc + 2 <= usize::MAX,
        ensures
            final(self).time_at_last_timer_count == old(self).time_at_last_timer_count,
            final(self).state() == old(self).state().with_i(
                (old(self).i + old(self).v@[x as int]) as u16,
            ).advance(),
    {
        self.i = self.i + self.v[x] as u16;
        self.inc_pc();
    }

    /// `Fx29` LD F, Vx: `I` = the address of the font glyph for `Vx`.
    fn op_ld_f_vx(&mut self, x: usize)
        requires
            x < 16,
            old(self).pc + 2 <= usize::MAX,
        ensures
            final(self).time_at_last_timer_count == old(self).time_at_last_timer_count,
            final(self).state() == old(self).state().with_i(
                (old(self).v@[x as int] * 5) as u16,
            ).advance(),
    {
        self.i = self.v[x] as u16 * FONT_GLYPH_SIZE;
        self.inc_pc();
    }

    /// `Fx33` LD B, Vx: the hundreds, tens and ones digits of `Vx` at `I`,
    /// `I + 1` and `I + 2`.
    fn op_ld_b_vx(&mut self, x: usize)
        requires
            x < 16,
            old(self).i + 2 < MEMORY_SIZE,
            old(self).pc + 2 <= usize::MAX,
        ensures
            final(self).time_at_last_timer_count == old(self).time_at_last_timer_count,
            final(self).state() == old(self).state().bcd_stored(x as int).advance(),
    {
        let vx = self.v[x];
        let i = self.i as usize;
        self.memory[i] = vx / 100;
        self.memory[i + 1] = (vx % 100) / 10;
        self.memory[i + 2] = (vx % 100) % 10;
        self.inc_pc();
    }

    /// `Fx55` LD [I], Vx: `V0..=Vx` stored in memory from `I` on.
    fn op_ld_i_vx(&mut self, x: usize)
        requires
            x < 16,
            old(self).i + x < MEMORY_SIZE,
            old(self).pc + 2 <= usize::MAX,
        ensures
            final(self).time_at_last_timer_count == old(self).time_at_last_timer_count,
            final(self).state() == old(self).state().regs_stored(x as int).advance(),
    {
        let x = x as u16;
        let ghost start = self.state();
        let ghost a = self.i as int;
        let mut n: u16 = 0;
        while n < x + 1
            invariant
                self.time_at_last_timer_count == old(self).time_at_last_timer_count,
                n <= x + 1,
                x < 16,
                a == start.i,
                a + x < MEMORY_SIZE,
                start == old(self).state(),
                self.state() == start.with_memory(self.memory@),
                self.memory@.len() == MEMORY_SIZE,
                forall|m: int|
                    0 <= m < MEMORY_SIZE ==> #[trigger] self.memory@[m] == if a <= m < a + n {
                        start.v[m - a]
                    } else {
                        start.memory[m]
                    },
            decreases x + 1 - n,
        {
            self.memory[(self.i + n) as usize] = self.v[n as usize];
            n = n + 1;
        }
        assert(self.state() =~= start.regs_stored(x as int));
        self.inc_pc();
    }

    /// `Fx65` LD Vx, [I]: `V0..=Vx` read from memory from `I` on.
    fn op_ld_vx_i(&mut self, x: usize)
        requires
            x < 16,
            old(self).i + x < MEMORY_SIZE,
            old(self).pc + 2 <= usize::MAX,
        ensures
            final(self).time_at_last_timer_count == old(self).time_at_last_timer_count,
            final(self).state() == old(self).state().regs_loaded(x as int).advance(),
    {
        let x = x as u16;
        let ghost start = self.state();
        let ghost a = self.i as int;
        let mut n: u16 = 0;
        while n < x + 1
            invariant
                self.time_at_last_timer_count == old(self).time_at_last_timer_count,
                n <= x + 1,
                x < 16,
                a == start.i,
                a + x < MEMORY_SIZE,
                start == old(self).state(),
                self.state() == start.with_v(self.v@),
                self.v@.len() == 16,
                forall|r: int|
                    0 <= r < 16 ==> #[trigger] self.v@[r] == if r < n {
                        start.memory[a + r]
                    } else {
                        start.v[r]
                    },
            decreases x + 1 - n,
        {
            self.v[n as usize] = self.memory[(self.i + n) as usize];
            n = n + 1;
        }
        assert(self.state() =~= start.regs_loaded(x as int));
        self.inc_pc();
    }
}


impl Cpu {
    /// `Dxyn` DRW: XORs the `n`-byte sprite at `I` onto the display at
    /// (`Vx`, `Vy`), wrapping at the edges; `VF` = 1 when a lit pixel was
    /// erased, else 0. The display is flagged for redrawing.
    fn op_drw_vx_vy_n(&mut self, x: usize, y: usize, n: usize)
        requires
            x < 16,
            y < 16,
            n < 16,
            n == 0 || old(self).i + n <= MEMORY_SIZE,
            old(self).pc + 2 <= usize::MAX,
        ensures
            final(self).time_at_last_timer_count == old(self).time_at_last_timer_count,
            final(self).state() == old(self).state().drawn(x as int, y as int, n as int).advance(),
    {
        self.v[0x0f] = 0;
        let ghost s0 = self.state();
        assert(s0 == old(self).state().set_v(0xF, 0));
        for byte in 0..n
            invariant
                self.time_at_last_timer_count == old(self).time_at_last_timer_count,
                x < 16,
                y < 16,
                n == 0 || s0.i + n <= MEMORY_SIZE,
                self.i == old(self).i,
                self.pc == old(self).pc,
                old(self).pc + 2 <= usize::MAX,
                s0.i == old(self).i,
                self.state() == s0.draw_rows(x as int, y as int, byte as nat),
        {
            let row = (self.v[y] as usize + byte) % 32;
            let ghost s_row = self.state();
            for bit in 0..8
                invariant
                    self.time_at_last_timer_count == old(self).time_at_last_timer_count,
                    x < 16,
                    row < 32,
                    n == 0 || s0.i + n <= MEMORY_SIZE,
                    byte < n,
                    self.i == old(self).i,
                    self.pc == old(self).pc,
                    old(self).pc + 2 <= usize::MAX,
                    s0.i == old(self).i,
                    self.state() == s_row.draw_bits(x as int, row as int, byte as int, bit as nat),
            {
                let ghost prev = self.state();
                let col = (self.v[x] as usize + bit) % 64;
                let color = ((self.memory[(self.i as usize) + byte] >> (7 - bit)) & 1) == 1;
                let lit = self.vram[row][col];
                self.v[0x0f] = self.v[0x0f] | (if color && lit { 1 } else { 0 });
                self.vram[row][col] = lit ^ color;
                proof {
                    let next = prev.draw_pixel(row as int, col as int, prev.memory[prev.i + byte], bit as int);
                    assert(self.state().vram =~~= next.vram);
                    assert(self.state() =~= next);
                }
            }
        }
        self.update_vram = true;
        self.inc_pc();
    }
}


impl Cpu {
    /// Runs one cycle: clears the redraw flag, fetches and executes the
    /// instruction at the program counter, then ticks the timers when a
    /// timer period has passed since their last tick. The caller sends the
    /// display on when `update_vram` is set afterwards.
    pub fn next_cycle(&mut self)
        requires
            old(self).state().can_cycle(),
        ensures
            exists|rnd: u8|
                {
                    let s = #[trigger] old(self).state().cycled(rnd);
                    ||| final(self).state() == s.ticked()
                    ||| final(self).state() == s && final(self).time_at_last_timer_count
                        == old(self).time_at_last_timer_count
                },
    {
        self.update_vram = false;
        self.fetch_opcode();
        let ghost mid = self.state();
        self.execute_opcode();
        let ghost r = choose|r: u8| self.state() == #[trigger] mid.executed(r);
        let ghost after = self.state();
        let elapsed = self.count_timers();
        assert(old(self).state().cycled(r) == after);

    }

    /// Whether `next_cycle` can run from this state: the instruction word at
    /// the program counter lies in memory, is one the core knows, and
    /// neither overflows nor reaches outside memory, the stack or the keypad.
    pub fn can_cycle(&self) -> (ok: bool)
        ensures
            ok == self.state().can_cycle(),
    {
        if self.pc >= MEMORY_SIZE - 1 {
            return false;
        }
        let op = join_bytes(self.memory[self.pc], self.memory[self.pc + 1]);
        let f = family_of(op);
        let x = x_index(op);
        let y = y_index(op);
        let n = n_value(op);
        let a = self.i as usize;
        if f == 0 {
            x == 0 && y == 0xE && (n == 0 || (n == 0xE && 1 <= self.sp && self.sp <= STACK_DEPTH))
        } else if f == 2 {
            self.sp < STACK_DEPTH
        } else if f == 5 || f == 9 {
            n == 0
        } else if f == 7 {
            self.v[x] as u16 + kk_value(op) as u16 <= 255
        } else if f == 8 {
            n <= 7 || n == 0xE
        } else if f == 0xD {
            n == 0 || a + n as usize <= MEMORY_SIZE
        } else if f == 0xE {
            ((y == 9 && n == 0xE) || (y == 0xA && n == 1)) && self.v[x] < 16
        } else if f == 0xF {
            (y == 0 && (n == 7 || n == 0xA)) || (y == 1 && (n == 5 || n == 8)) || (y == 1 && n
                == 0xE && a + (self.v[x] as usize) <= 0xFFFF) || (y == 2 && n == 9) || (y == 3 && n
                == 3 && a + 2 < MEMORY_SIZE) || ((y == 5 || y == 6) && n == 5 && a + x
                < MEMORY_SIZE)
        } else {
            true
        }
    }

    /// Ticks both timers when at least `TIMER_PERIOD_MS` have passed since
    /// their last tick, and restarts the period; returns the milliseconds
    /// it measured since the last tick.
    fn count_timers(&mut self) -> (elapsed_ms: u128)
        ensures
            elapsed_ms >= TIMER_PERIOD_MS ==> final(self).state() == old(self).state().ticked(),
            elapsed_ms < TIMER_PERIOD_MS ==> final(self).state() == old(self).state(),
            elapsed_ms < TIMER_PERIOD_MS ==> final(self).time_at_last_timer_count
                == old(self).time_at_last_timer_count,
    {
        let now = instant_now();
        let elapsed = whole_millis(&duration_since(&now, &self.time_at_last_timer_count));
        if Self::timer_due(elapsed) {
            self.time_at_last_timer_count = instant_now();
            self.tick_timers();
        }
        elapsed
    }

    /// Whether a timer period has passed after `elapsed_ms` milliseconds.
    pub fn timer_due(elapsed_ms: u128) -> (due: bool)
        ensures
            due == (elapsed_ms >= TIMER_PERIOD_MS),
    {
        elapsed_ms >= TIMER_PERIOD_MS
    }

    /// One tick of the sound and delay timers: each counts down by one and
    /// stops at zero.
    pub fn tick_timers(&mut self)
        ensures
            final(self).time_at_last_timer_count == old(self).time_at_last_timer_count,
            final(self).state() == old(self).state().ticked(),
    {
        if self.sound_timer > 0 {
            self.sound_timer = self.sound_timer - 1;
        }
        if self.delay_timer > 0 {
            self.delay_timer = self.delay_timer - 1;
        }
    }

    /// Executes the latched instruction, dispatching on its four nibbles.
    fn execute_opcode(&mut self)
        requires
            old(self).state().can_execute(),
            old(self).pc + 4 <= usize::MAX,
        ensures
            final(self).time_at_last_timer_count == old(self).time_at_last_timer_count,
            exists|rnd: u8| final(self).state() == #[trigger] old(self).state().executed(rnd),
    {
        let op = self.opcode;
        let components = (
            family_of(op) as u8,
            x_index(op) as u8,
            y_index(op) as u8,
            n_value(op) as u8,
        );
        let nnn = nnn_value(op) as usize;
        let kk = kk_value(op);
        let x = components.1 as usize;
        let y = components.2 as usize;
        let n = components.3 as usize;
        match components {
            (0x0, 0x0, 0xE, 0x0) => self.op_cls(),
            (0x0, 0x0, 0xE, 0xE) => self.op_ret(),
            (0x1, _, _, _) => self.op_jp_addr(nnn),
            (0x2, _, _, _) => self.op_call_addr(nnn),
            (0x3, _, _, _) => self.op_se(x, kk),
            (0x4, _, _, _) => self.op_sne(x, kk),
            (0x5, _, _, 0x0) => self.op_se_xy(x, y),
            (0x6, _, _, _) => self.op_ld_vx(x, kk),
            (0x7, _, _, _) => self.op_add_vx(x, kk),
            (0x8, _, _, 0x0) => self.op_ld_vx_vy(x, y),
            (0x8, _, _, 0x1) => self.op_or_vx_vy(x, y),
            (0x8, _, _, 0x2) => self.op_and_vx_vy(x, y),
            (0x8, _, _, 0x3) => self.op_xor_vy_vy(x, y),
            (0x8, _, _, 0x4) => self.op_add_vx_vy(x, y),
            (0x8, _, _, 0x5) => self.op_sub_vx_vy(x, y),
            (0x8, _, _, 0x6) => self.op_shr_vx_vy(x, y),
            (0x8, _, _, 0x7) => self.op_subn_vx_vy(x, y),
            (0x8, _, _, 0xE) => self.op_shl_vx_vy(x, y),
            (0x9, _, _, 0x0) => self.op_sne_vx_vy(x, y),
            (0xA, _, _, _) => self.op_ldi(nnn),
            (0xB, _, _, _) => self.op_jp_addr_v0(nnn),
            (0xC, _, _, _) => {
                self.op_rnd_vx(x, kk);
                proof {
                    let r = choose|r: u8|
                        self.state() == #[trigger] old(self).state().set_v(x as int, r & kk).advance();
                    assert(self.state() == old(self).state().executed(r));
                }
            },
            (0xD, _, _, _) => self.op_drw_vx_vy_n(x, y, n),
            (0xE, _, 0x9, 0xE) => self.op_skp_vx(x),
            (0xE, _, 0xA, 0x1) => self.op_sknp_vx(x),
            (0xF, _, 0x0, 0x7) => self.op_ld_vx_dt(x),
            (0xF, _, 0x0, 0xA) => self.op_ld_vx_k(x),
            (0xF, _, 0x1, 0x5) => self.op_ld_dt_vx(x),
            (0xF, _, 0x1, 0x8) => self.op_ld_st_vx(x),
            (0xF, _, 0x1, 0xE) => self.op_add_i_vx(x),
            (0xF, _, 0x2, 0x9) => self.op_ld_f_vx(x),
            (0xF, _, 0x3, 0x3) => self.op_ld_b_vx(x),
            (0xF, _, 0x5, 0x5) => self.op_ld_i_vx(x),
            (0xF, _, 0x6, 0x5) => self.op_ld_vx_i(x),
            (_, _, _, _) => {},
        }
        proof {
            if family(op) != 0xC {
                assert(self.state() == old(self).state().executed(0u8));
            }
        }
    }
}

} // verus!
