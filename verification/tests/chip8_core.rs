//! The full core and the emulator front, instruction by instruction.

use chip8::chip8::cpu::{Cpu, FONT_SPRITES};
use chip8::chip8::{Chip8, SPACE_INVADERS_ROM};

fn core_with(program: &[u8]) -> Cpu {
    let mut cpu = Cpu::new();
    cpu.load_program(program.to_vec());
    cpu
}

fn run(cpu: &mut Cpu, cycles: usize) {
    for _ in 0..cycles {
        cpu.next_cycle();
    }
}

fn lit_pixels(cpu: &Cpu) -> usize {
    cpu.vram.iter().map(|row| row.iter().filter(|p| **p).count()).sum()
}

#[test]
fn power_on_state() {
    let cpu = Cpu::new();
    assert_eq!(cpu.pc, 0x200);
    assert_eq!(cpu.i, 0x200);
    assert_eq!(cpu.sp, 0);
    assert!(cpu.memory.iter().all(|b| *b == 0));
    assert_eq!(lit_pixels(&cpu), 0);
    assert!(!cpu.update_vram);
}

#[test]
fn load_places_font_and_program() {
    let mut cpu = Cpu::new();
    cpu.memory[0x100] = 7;
    cpu.memory[0x400] = 9;
    cpu.load_program(vec![0x12, 0x34, 0x56]);
    assert_eq!(&cpu.memory[0..80], &FONT_SPRITES[..]);
    assert_eq!(cpu.memory[0x100], 0);
    assert_eq!(&cpu.memory[0x200..0x203], &[0x12, 0x34, 0x56]);
    assert_eq!(cpu.memory[0x400], 9);
}

#[test]
fn start_loads_the_built_in_program() {
    let mut emulator = Chip8::new();
    emulator.start();
    assert_eq!(&emulator.cpu.memory[0x200..0x200 + SPACE_INVADERS_ROM.len()], &SPACE_INVADERS_ROM[..]);
    assert_eq!(emulator.cpu.memory[0], 0xF0);
    emulator.cpu.next_cycle();
    assert_eq!(emulator.cpu.opcode, 0x1225);
    assert_eq!(emulator.cpu.pc, 0x225);
}

#[test]
fn clear_screen_blanks_and_flags() {
    let mut cpu = core_with(&[0x00, 0xE0]);
    cpu.vram[3][4] = true;
    run(&mut cpu, 1);
    assert_eq!(lit_pixels(&cpu), 0);
    assert!(cpu.update_vram);
    assert_eq!(cpu.pc, 0x202);
}

#[test]
fn call_then_return_resumes_after_the_call() {
    let mut cpu = core_with(&[0x22, 0x06, 0x00, 0x00, 0x00, 0x00, 0x00, 0xEE]);
    run(&mut cpu, 1);
    assert_eq!(cpu.pc, 0x206);
    assert_eq!(cpu.sp, 1);
    assert_eq!(cpu.stack[0], 0x200);
    run(&mut cpu, 1);
    assert_eq!(cpu.pc, 0x202);
    assert_eq!(cpu.sp, 0);
}

#[test]
fn draw_twice_restores_screen_and_reports_collision() {
    // V2 = 5, V3 = 3, I = glyph "0", draw 5 rows, draw again
    let mut cpu = core_with(&[0x62, 0x05, 0x63, 0x03, 0xA0, 0x00, 0xD2, 0x35, 0xD2, 0x35]);
    run(&mut cpu, 4);
    assert_eq!(cpu.v[0xf], 0);
    assert!(cpu.update_vram);
    assert!(cpu.vram[3][5] && cpu.vram[3][6] && cpu.vram[3][7] && cpu.vram[3][8]);
    assert!(!cpu.vram[3][9]);
    assert!(cpu.vram[4][5] && !cpu.vram[4][6] && cpu.vram[4][8]);
    assert_eq!(lit_pixels(&cpu), 14);
    run(&mut cpu, 1);
    assert_eq!(cpu.v[0xf], 1);
    assert_eq!(lit_pixels(&cpu), 0);
}

#[test]
fn draw_wraps_at_the_edges() {
    // V0 = 62, V1 = 31, I = glyph "0", one row
    let mut cpu = core_with(&[0x60, 0x3E, 0x61, 0x1F, 0xA0, 0x00, 0xD0, 0x12]);
    run(&mut cpu, 4);
    assert!(cpu.vram[31][62] && cpu.vram[31][63] && cpu.vram[31][0] && cpu.vram[31][1]);
    assert!(cpu.vram[0][62] && !cpu.vram[0][63] && !cpu.vram[0][0] && cpu.vram[0][1]);
}

#[test]
fn bcd_writes_decimal_digits() {
    let mut cpu = core_with(&[0x60, 0xFE, 0xA3, 0x00, 0xF0, 0x33]);
    run(&mut cpu, 3);
    assert_eq!(&cpu.memory[0x300..0x303], &[2, 5, 4]);
}

#[test]
fn store_then_load_registers_round_trip() {
    let mut cpu = core_with(&[
        0x60, 0x11, 0x61, 0x22, 0x62, 0x33, 0xA3, 0x00, 0xF2, 0x55, 0x60, 0x00, 0x61, 0x00, 0x62,
        0x00, 0xF2, 0x65,
    ]);
    run(&mut cpu, 5);
    assert_eq!(&cpu.memory[0x300..0x304], &[0x11, 0x22, 0x33, 0x00]);
    run(&mut cpu, 4);
    assert_eq!(&cpu.v[0..3], &[0x11, 0x22, 0x33]);
    assert_eq!(cpu.i, 0x300);
}

#[test]
fn arithmetic_family_eight() {
    let mut cpu = core_with(&[0x61, 0xFA, 0x62, 0x10, 0x81, 0x24]);
    run(&mut cpu, 3);
    assert_eq!((cpu.v[1], cpu.v[0xf]), (0x0A, 1));

    let mut cpu = core_with(&[0x61, 0x0A, 0x62, 0x10, 0x81, 0x25]);
    run(&mut cpu, 3);
    assert_eq!((cpu.v[1], cpu.v[0xf]), (0xFA, 0));

    let mut cpu = core_with(&[0x61, 0x05, 0x81, 0x06]);
    run(&mut cpu, 2);
    assert_eq!((cpu.v[1], cpu.v[0xf]), (0x02, 1));

    let mut cpu = core_with(&[0x61, 0x81, 0x81, 0x0E]);
    run(&mut cpu, 2);
    assert_eq!((cpu.v[1], cpu.v[0xf]), (0x02, 1));

    let mut cpu = core_with(&[0x61, 0x03, 0x62, 0x0A, 0x81, 0x27]);
    run(&mut cpu, 3);
    assert_eq!((cpu.v[1], cpu.v[0xf]), (0x07, 1));

    let mut cpu = core_with(&[0x61, 0x0A, 0x62, 0x03, 0x81, 0x27]);
    run(&mut cpu, 3);
    assert_eq!((cpu.v[1], cpu.v[0xf]), (0xF9, 0));

    let mut cpu = core_with(&[0x61, 0x0C, 0x62, 0x0A, 0x81, 0x21, 0x83, 0x10, 0x83, 0x22, 0x83, 0x13]);
    run(&mut cpu, 6);
    assert_eq!(cpu.v[1], 0x0E);
    assert_eq!(cpu.v[3], 0x04);
}

#[test]
fn skips_and_jumps() {
    let mut cpu = core_with(&[0x61, 0x07, 0x41, 0x07, 0x31, 0x07]);
    run(&mut cpu, 2);
    assert_eq!(cpu.pc, 0x204);
    run(&mut cpu, 1);
    assert_eq!(cpu.pc, 0x208);

    let mut cpu = core_with(&[0x61, 0x07, 0x62, 0x08, 0x91, 0x20]);
    run(&mut cpu, 3);
    assert_eq!(cpu.pc, 0x208);

    let mut cpu = core_with(&[0x60, 0x04, 0xB3, 0x00]);
    run(&mut cpu, 2);
    assert_eq!(cpu.pc, 0x304);
}

#[test]
fn keypad_instructions() {
    let mut cpu = core_with(&[0x60, 0x05, 0xE0, 0x9E, 0x00, 0x00, 0xE0, 0xA1]);
    cpu.key_buffer[5] = true;
    run(&mut cpu, 2);
    assert_eq!(cpu.pc, 0x206);
    run(&mut cpu, 1);
    assert_eq!(cpu.pc, 0x208);

    let mut cpu = core_with(&[0xF1, 0x0A]);
    run(&mut cpu, 1);
    assert_eq!(cpu.pc, 0x200);
    assert_eq!(cpu.v[1], 0);
    cpu.key_buffer[3] = true;
    cpu.key_buffer[7] = true;
    run(&mut cpu, 1);
    assert_eq!(cpu.v[1], 7);
    assert_eq!(cpu.pc, 0x202);
}

#[test]
fn index_and_timer_registers() {
    let mut cpu = core_with(&[0x60, 0x0A, 0xF0, 0x29, 0xF0, 0x1E, 0xF0, 0x15, 0xF0, 0x18, 0xF1, 0x07]);
    run(&mut cpu, 2);
    assert_eq!(cpu.i, 50);
    run(&mut cpu, 1);
    assert_eq!(cpu.i, 60);
    run(&mut cpu, 3);
    assert!(cpu.delay_timer <= 10 && cpu.sound_timer <= 10);
    assert!(cpu.v[1] <= 10 && cpu.v[1] >= cpu.delay_timer);
}

#[test]
fn timers_count_down_to_zero() {
    let mut cpu = Cpu::new();
    cpu.delay_timer = 2;
    cpu.sound_timer = 1;
    cpu.tick_timers();
    assert_eq!((cpu.delay_timer, cpu.sound_timer), (1, 0));
    cpu.tick_timers();
    assert_eq!((cpu.delay_timer, cpu.sound_timer), (0, 0));
    assert!(!Cpu::timer_due(16));
    assert!(Cpu::timer_due(17));
}

#[test]
fn random_byte_is_masked() {
    let mut cpu = Cpu::new();
    cpu.set_masked_random(4, 0x0F, 0xA7);
    assert_eq!(cpu.v[4], 0x07);
    assert_eq!(cpu.pc, 0x202);

    let mut cpu = core_with(&[0xC2, 0x0F]);
    run(&mut cpu, 1);
    assert_eq!(cpu.v[2] & 0xF0, 0);
    assert_eq!(cpu.pc, 0x202);
}

#[test]
fn key_skips_are_opposite() {
    for pressed in [false, true] {
        let mut skp = core_with(&[0xE3, 0x9E]);
        let mut sknp = core_with(&[0xE3, 0xA1]);
        skp.v[3] = 0xB;
        sknp.v[3] = 0xB;
        skp.key_buffer[0xB] = pressed;
        sknp.key_buffer[0xB] = pressed;
        run(&mut skp, 1);
        run(&mut sknp, 1);
        assert_eq!(skp.pc + sknp.pc, 2 * 0x200 + 6);
        assert_eq!(skp.pc, if pressed { 0x204 } else { 0x202 });
    }
}

#[test]
fn font_glyph_address_points_at_the_digit() {
    let mut cpu = core_with(&[0x65, 0x0B, 0xF5, 0x29]);
    run(&mut cpu, 2);
    assert_eq!(cpu.i, 55);
    let start = cpu.i as usize;
    assert_eq!(&cpu.memory[start..start + 5], &[0xE0, 0x90, 0xE0, 0x90, 0xE0]);
    assert_eq!(cpu.pc, 0x204);
}
