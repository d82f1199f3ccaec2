# chip8

A CHIP-8 interpreter whose instruction semantics are specified and proved
with Verus.

- `src/opcode.rs` decodes the 16-bit instruction word into its nibbles.
- `src/cpu.rs` is a small core (jumps, calls, skips, loads and the
  register arithmetic of family `8`), specified by `CpuState::cycled`.
- `src/chip8/cpu.rs` is the full core (display, keypad, timers, font,
  sprite drawing), specified by `CpuState::cycled` and `CpuState::ticked`.
- `src/chip8.rs` holds the emulator front with its built-in program.
- `src/laws.rs` proves properties across instructions: a sprite drawn twice
  leaves the display as it was, the collision flag reports erased pixels,
  a call followed by a return resumes after the call, a register store
  followed by a load gives the registers back, and cycles keep the
  machine's shape.
- `app/` is the program: a window drawn with ggez and the cycle loop.
