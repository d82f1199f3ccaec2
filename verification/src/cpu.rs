//! The small CHIP-8 core: jumps, calls, skips, register loads and the
//! register-to-register arithmetic of family `8`.
//!
//! A state whose next instruction lies outside that set, or would overflow
//! a register or the stack, is outside what `next_cycle` accepts.

use vstd::prelude::*;
use crate::opcode::{
    family, x_of, y_of, n_of, nnn_of, kk_of, word, join_bytes, family_of, x_index, y_index,
    n_value, nnn_value, kk_value,
};

verus! {

/// Number of bytes of addressable memory.
pub const MEMORY_SIZE: usize = 4096;

/// Address at which a program is loaded; the bytes below it are reserved.
pub const PROGRAM_START: usize = 0x200;

/// Number of return addresses the call stack holds.
pub const STACK_DEPTH: usize = 16;

/// The observable state of the small core, as mathematical values.
#[verifier::ext_equal]
pub struct CpuState {
    pub opcode: u16,
    pub v: Seq<u8>,
    pub pc: int,
    pub sp: int,
    pub memory: Seq<u8>,
    pub stack: Seq<u16>,
}

/// Subtraction of bytes modulo 256.
pub open spec fn byte_sub(a: u8, b: u8) -> u8 {
    if a >= b {
        (a - b) as u8
    } else {
        (a - b + 256) as u8
    }
}

impl CpuState {
    /// Register `i` set to `b`.
    pub open spec fn set_v(self, i: int, b: u8) -> CpuState {
        CpuState { v: self.v.update(i, b), ..self }
    }

    /// The program counter moved past the current instruction.
    pub open spec fn advance(self) -> CpuState {
        CpuState { pc: self.pc + 2, ..self }
    }

    /// The program counter moved past the current instruction, and past the
    /// next one too when `cond` holds.
    pub open spec fn skip_if(self, cond: bool) -> CpuState {
        CpuState { pc: self.pc + if cond { 4int } else { 2int }, ..self }
    }

    /// The state has the sizes of the machine.
    pub open spec fn well_sized(self) -> bool {
        &&& self.v.len() == 16
        &&& self.memory.len() == MEMORY_SIZE
        &&& self.stack.len() == STACK_DEPTH
    }

    /// The instruction word at the program counter.
    pub open spec fn word_at_pc(self) -> u16 {
        word(self.memory[self.pc], self.memory[self.pc + 1])
    }

    /// Whether the instruction word at the program counter can be read.
    pub open spec fn can_fetch(self) -> bool {
        0 <= self.pc && self.pc + 1 < MEMORY_SIZE
    }

    /// Memory after loading `program`: zeros below `PROGRAM_START`, the
    /// program above, the rest unchanged.
    pub open spec fn loaded(self, program: Seq<u8>) -> CpuState {
        CpuState {
            memory: loaded_memory(
                self.memory,
                Seq::new(PROGRAM_START as nat, |i: int| 0u8),
                program,
            ),
            ..self
        }
    }

    /// The state after reading the instruction word at the program counter.
    pub open spec fn fetched(self) -> CpuState {
        CpuState { opcode: self.word_at_pc(), ..self }
    }

    /// Whether the latched instruction runs to completion: it is one this
    /// core knows and it does not overflow the stack or a register.
    pub open spec fn can_execute(self) -> bool {
        let op = self.opcode;
        let f = family(op);
        &&& 1 <= f <= 8
        &&& f == 2 ==> 0 <= self.sp < STACK_DEPTH
        &&& f == 7 ==> self.v[x_of(op)] + kk_of(op) <= 255
        &&& f == 8 ==> n_of(op) <= 5
    }

    /// The effect of an instruction of family `8` on the registers.
    pub open spec fn arith(self, x: int, y: int, n: int) -> CpuState {
        let vx = self.v[x];
        let vy = self.v[y];
        if n == 0 {
            self.set_v(x, vy)
        } else if n == 1 {
            self.set_v(x, vx | vy)
        } else if n == 2 {
            self.set_v(x, vx & vy)
        } else if n == 3 {
            self.set_v(x, vx ^ vy)
        } else if n == 4 {
            let sum = vx + vy;
            let s1 = self.set_v(0xF, if sum > 0xFF { 1u8 } else { 0u8 });
            s1.set_v(x, (sum % 0x100) as u8)
        } else {
            let s1 = self.set_v(0xF, if vx < vy { 1u8 } else { 0u8 });
            s1.set_v(x, byte_sub(s1.v[x], s1.v[y]))
        }
    }

    /// The effect of the latched instruction.
    pub open spec fn executed(self) -> CpuState {
        let op = self.opcode;
        let f = family(op);
        let x = x_of(op);
        let y = y_of(op);
        let kk = kk_of(op) as u8;
        let nnn = nnn_of(op);
        if f == 1 {
            CpuState { pc: nnn, ..self }
        } else if f == 2 {
            CpuState {
                stack: self.stack.update(self.sp, self.pc as u16),
                sp: self.sp + 1,
                pc: nnn,
                ..self
            }
        } else if f == 3 {
            self.skip_if(self.v[x] == kk)
        } else if f == 4 {
            self.skip_if(self.v[x] != kk)
        } else if f == 5 {
            self.skip_if(self.v[x] == self.v[y])
        } else if f == 6 {
            self.set_v(x, kk).advance()
        } else if f == 7 {
            self.set_v(x, (self.v[x] + kk) as u8).advance()
        } else {
            self.arith(x, y, n_of(op)).advance()
        }
    }

    /// Whether one cycle runs to completion from this state.
    pub open spec fn can_cycle(self) -> bool {
        self.can_fetch() && self.fetched().can_execute()
    }

    /// The state after one cycle: fetch, then execute.
    pub open spec fn cycled(self) -> CpuState {
        self.fetched().executed()
    }
}

/// Memory after a load: the reserved area `low` at the bottom, the program
/// right above it, and the rest of `mem` unchanged.
pub open spec fn loaded_memory(mem: Seq<u8>, low: Seq<u8>, program: Seq<u8>) -> Seq<u8> {
    let image = low + program;
    Seq::new(mem.len(), |i: int| if i < image.len() { image[i] } else { mem[i] })
}

/// The small core. Its fields are public so that a test bench can set up
/// registers and memory directly.
pub struct Cpu {
    pub opcode: u16,
    pub v: [u8; 16],
    pub pc: usize,
    pub sp: usize,
    pub memory: [u8; 4096],
    pub stack: [u16; 16],
}

impl Cpu {
    /// The state of the core as mathematical values.
    pub open spec fn state(&self) -> CpuState {
        CpuState {
            opcode: self.opcode,
            v: self.v@,
            pc: self.pc as int,
            sp: self.sp as int,
            memory: self.memory@,
            stack: self.stack@,
        }
    }

    /// A powered-on core: registers, memory and stack zeroed, program
    /// counter at the start of the program area.
    pub fn new() -> (cpu: Cpu)
        ensures
            cpu.opcode == 0,
            cpu.pc == PROGRAM_START,
            cpu.sp == 0,
            forall|i: int| 0 <= i < 16 ==> cpu.v@[i] == 0,
            forall|i: int| 0 <= i < MEMORY_SIZE ==> cpu.memory@[i] == 0,
            forall|i: int| 0 <= i < STACK_DEPTH ==> cpu.stack@[i] == 0,
    {
        Cpu { opcode: 0, v: [0; 16], pc: 0x200, sp: 0, memory: [0; 4096], stack: [0; 16] }
    }

    /// Copies a program into memory at `PROGRAM_START` and zeroes the
    /// reserved area below it; memory above the program keeps its bytes.
    pub fn load_program(&mut self, program: Vec<u8>)
        requires
            program.len() <= MEMORY_SIZE - PROGRAM_START,
        ensures
            final(self).state() == old(self).state().loaded(program@),
    {
        let mut data: Vec<u8> = Vec::new();
        let mut k: usize = 0;
        while k < PROGRAM_START
            invariant
                k <= PROGRAM_START,
                data@.len() == k,
                forall|i: int| 0 <= i < k ==> data@[i] == 0u8,
            decreases PROGRAM_START - k,
        {
            data.push(0);
            k = k + 1;
        }
        let ghost reserved = data@;
        assert(reserved =~= Seq::new(PROGRAM_START as nat, |i: int| 0u8));
        let mut j: usize = 0;
        while j < program.len()
            invariant
                j <= program.len(),
                program.len() <= MEMORY_SIZE - PROGRAM_START,
                data@ =~= reserved + program@.take(j as int),
            decreases program.len() - j,
        {
            data.push(program[j]);
            j = j + 1;
        }
        assert(program@.take(program.len() as int) =~= program@);
        let ghost start_mem = self.memory@;
        let mut index: usize = 0;
        while index < data.len()
            invariant
                index <= data.len(),
                data@ == reserved + program@,
                data.len() <= MEMORY_SIZE,
                self.memory@.len() == MEMORY_SIZE,
                start_mem.len() == MEMORY_SIZE,
                self.opcode == old(self).opcode,
                self.v == old(self).v,
                self.pc == old(self).pc,
                self.sp == old(self).sp,
                self.stack == old(self).stack,
                forall|i: int| 0 <= i < index ==> self.memory@[i] == data@[i],
                forall|i: int| index <= i < MEMORY_SIZE ==> self.memory@[i] == start_mem[i],
            decreases data.len() - index,
        {
            self.memory[index] = data[index];
            index = index + 1;
        }
        assert(self.memory@ =~= loaded_memory(start_mem, reserved, program@));
    }

    /// Latches the instruction word at the program counter.
    pub fn fetch_opcode(&mut self)
        requires
            old(self).state().can_fetch(),
        ensures
            final(self).state() == old(self).state().fetched(),
    {
        self.opcode = join_bytes(self.memory[self.pc], self.memory[self.pc + 1]);
    }
}


impl Cpu {
    /// Runs one cycle: fetches the instruction word at the program counter
    /// and executes it.
    pub fn next_cycle(&mut self)
        requires
            old(self).state().can_cycle(),
        ensures
            final(self).state() == old(self).state().cycled(),
    {
        self.fetch_opcode();
        self.execute_opcode();
    }

    /// Executes the latched instruction, dispatching on its family.
    fn execute_opcode(&mut self)
        requires
            old(self).state().can_execute(),
            old(self).pc + 4 <= usize::MAX,
        ensures
            final(self).state() == old(self).state().executed(),
    {
        let f = family_of(self.opcode);
        if f == 1 {
            self.op_jp_addr();
        } else if f == 2 {
            self.op_call_addr();
        } else if f == 3 {
            self.op_se();
        } else if f == 4 {
            self.op_sne();
        } else if f == 5 {
            self.op_se_xy();
        } else if f == 6 {
            self.op_ld_vx();
        } else if f == 7 {
            self.op_add_vx();
        } else {
            self.ex_op_0x8000();
        }
    }

    /// Executes a register-to-register instruction of family `8`.
    fn ex_op_0x8000(&mut self)
        requires
            family(old(self).opcode) == 8,
            n_of(old(self).opcode) <= 5,
            old(self).pc + 2 <= usize::MAX,
        ensures
            final(self).state() == old(self).state().executed(),
    {
        let n = n_value(self.opcode);
        if n == 0 {
            self.op_ld_vx_vy();
        } else if n == 1 {
            self.op_or_vx_vy();
        } else if n == 2 {
            self.op_and_vx_vy();
        } else if n == 3 {
            self.op_xor_vy_vy();
        } else if n == 4 {
            self.op_add_vx_vy();
        } else {
            self.op_sub_vx_vy();
        }
    }

    /// Moves the program counter past the current instruction.
    fn inc_pc(&mut self)
        requires
            old(self).pc + 2 <= usize::MAX,
        ensures
            final(self).state() == old(self).state().advance(),
    {
        self.pc = self.pc + 2;
    }

    /// `1nnn`: jump to `nnn`.
    fn op_jp_addr(&mut self)
        requires
            family(old(self).opcode) == 1,
        ensures
            final(self).state() == old(self).state().executed(),
    {
        self.pc = nnn_value(self.opcode) as usize;
    }

    /// `2nnn`: push the program counter and jump to `nnn`.
    fn op_call_addr(&mut self)
        requires
            family(old(self).opcode) == 2,
            old(self).sp < STACK_DEPTH,
            old(self).pc + 2 <= usize::MAX,
        ensures
            final(self).state() == old(self).state().executed(),
    {
        self.stack[self.sp] = self.pc as u16;
        self.sp = self.sp + 1;
        self.pc = nnn_value(self.opcode) as usize;
    }

    /// `3xkk`: skip the next instruction when `Vx == kk`.
    fn op_se(&mut self)
        requires
            family(old(self).opcode) == 3,
            old(self).pc + 4 <= usize::MAX,
        ensures
            final(self).state() == old(self).state().executed(),
    {
        if self.v[x_index(self.opcode)] == kk_value(self.opcode) {
            self.inc_pc();
        }
        self.inc_pc();
    }

    /// `4xkk`: skip the next instruction when `Vx != kk`.
    fn op_sne(&mut self)
        requires
            family(old(self).opcode) == 4,
            old(self).pc + 4 <= usize::MAX,
        ensures
            final(self).state() == old(self).state().executed(),
    {
        if self.v[x_index(self.opcode)] != kk_value(self.opcode) {
            self.inc_pc();
        }
        self.inc_pc();
    }

    /// `5xy0`: skip the next instruction when `Vx == Vy`.
    fn op_se_xy(&mut self)
        requires
            family(old(self).opcode) == 5,
            old(self).pc + 4 <= usize::MAX,
        ensures
            final(self).state() == old(self).state().executed(),
    {
        if self.v[x_index(self.opcode)] == self.v[y_index(self.opcode)] {
            self.inc_pc();
        }
        self.inc_pc();
    }

    /// `6xkk`: `Vx = kk`.
    fn op_ld_vx(&mut self)
        requires
            family(old(self).opcode) == 6,
            old(self).pc + 2 <= usize::MAX,
        ensures
            final(self).state() == old(self).state().executed(),
    {
        self.v[x_index(self.opcode)] = kk_value(self.opcode);
        self.inc_pc();
    }

    /// `7xkk`: `Vx = Vx + kk`; the sum must fit in a byte.
    fn op_add_vx(&mut self)
        requires
            family(old(self).opcode) == 7,
            old(self).v@[x_of(old(self).opcode)] + kk_of(old(self).opcode) <= 255,
            old(self).pc + 2 <= usize::MAX,
        ensures
            final(self).state() == old(self).state().executed(),
    {
        let x = x_index(self.opcode);
        self.v[x] = self.v[x] + kk_value(self.opcode);
        self.inc_pc();
    }

    /// `8xy0`: `Vx = Vy`.
    fn op_ld_vx_vy(&mut self)
        requires
            family(old(self).opcode) == 8,
            n_of(old(self).opcode) == 0,
            old(self).pc + 2 <= usize::MAX,
        ensures
            final(self).state() == old(self).state().executed(),
    {
        self.v[x_index(self.opcode)] = self.v[y_index(self.opcode)];
        self.inc_pc();
    }

    /// `8xy1`: `Vx = Vx | Vy`.
    fn op_or_vx_vy(&mut self)
        requires
            family(old(self).opcode) == 8,
            n_of(old(self).opcode) == 1,
            old(self).pc + 2 <= usize::MAX,
        ensures
            final(self).state() == old(self).state().executed(),
    {
        let x = x_index(self.opcode);
        self.v[x] = self.v[x] | self.v[y_index(self.opcode)];
        self.inc_pc();
    }

    /// `8xy2`: `Vx = Vx & Vy`.
    fn op_and_vx_vy(&mut self)
        requires
            family(old(self).opcode) == 8,
            n_of(old(self).opcode) == 2,
            old(self).pc + 2 <= usize::MAX,
        ensures
            final(self).state() == old(self).state().executed(),
    {
        let x = x_index(self.opcode);
        self.v[x] = self.v[x] & self.v[y_index(self.opcode)];
        self.inc_pc();
    }

    /// `8xy3`: `Vx = Vx ^ Vy`.
    fn op_xor_vy_vy(&mut self)
        requires
            family(old(self).opcode) == 8,
            n_of(old(self).opcode) == 3,
            old(self).pc + 2 <= usize::MAX,
        ensures
            final(self).state() == old(self).state().executed(),
    {
        let x = x_index(self.opcode);
        self.v[x] = self.v[x] ^ self.v[y_index(self.opcode)];
        self.inc_pc();
    }

    /// `8xy4`: `Vx = Vx + Vy` modulo 256, `VF` = carry.
    fn op_add_vx_vy(&mut self)
        requires
            family(old(self).opcode) == 8,
            n_of(old(self).opcode) == 4,
            old(self).pc + 2 <= usize::MAX,
        ensures
            final(self).state() == old(self).state().executed(),
    {
        let x = x_index(self.opcode);
        let y = y_index(self.opcode);
        let sum: u16 = self.v[x] as u16 + self.v[y] as u16;
        if sum > 0xff {
            self.v[0xf] = 1;
        } else {
            self.v[0xf] = 0;
        }
        assert(sum & 0x00ff == sum % 0x100) by (bit_vector);
        self.v[x] = (sum & 0x00ff) as u8;
        self.inc_pc();
    }

    /// `8xy5`: `VF = (Vx < Vy)`, then `Vx = Vx - Vy` modulo 256.
    fn op_sub_vx_vy(&mut self)
        requires
            family(old(self).opcode) == 8,
            n_of(old(self).opcode) == 5,
            old(self).pc + 2 <= usize::MAX,
        ensures
            final(self).state() == old(self).state().executed(),
    {
        let x = x_index(self.opcode);
        let y = y_index(self.opcode);
        if self.v[x] < self.v[y] {
            self.v[0xf] = 1;
        } else {
            self.v[0xf] = 0;
        }
        self.v[x] = self.v[x].wrapping_sub(self.v[y]);
        self.inc_pc();
    }
}

} // verus!
