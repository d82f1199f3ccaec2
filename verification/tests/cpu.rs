//! The small core driven through whole programs, as its bench does.

use chip8::cpu::Cpu;

#[test]
fn cpu_test_loading_bytes_from_vector() {
    let data = vec![0x1, 0x2, 0x3, 0x4];
    let mut cpu = Cpu::new();
    let mut memory = vec![0; 0x200];
    let mut program = vec![0; 0xe00];
    for (index, &byte) in data.iter().enumerate() {
        program[index] = byte;
    }
    memory.append(&mut program);
    cpu.load_program(data);
    for i in 0..0x1000 {
        assert_eq!(memory[i], cpu.memory[i])
    }
}

#[test]
fn test_fetch_opcode() {
    let mut cpu = Cpu::new();
    cpu.load_program(vec![1, 1]);
    cpu.fetch_opcode();
    assert_eq!(0x0101, cpu.opcode);
}

#[test]
fn test_op_jp_addr() {
    let mut cpu = Cpu::new();
    cpu.load_program(vec![0x13, 0x86]);
    cpu.next_cycle();
    assert_eq!(cpu.pc, 0x386);
}

#[test]
fn test_op_call_addr() {
    let mut cpu = Cpu::new();
    cpu.load_program(vec![0x22, 0x04, 0x00, 0x00, 0x13, 0x86]);
    cpu.next_cycle();
    cpu.next_cycle();
    assert_eq!(cpu.pc, 0x386);
    assert_eq!(cpu.sp, 1);
    assert_eq!(cpu.stack[0], 0x200);
}

#[test]
fn test_op_se() {
    let mut cpu = Cpu::new();
    cpu.v[2] = 0x04;
    cpu.load_program(vec![0x32, 0x04, 0x00, 0x00, 0x13, 0x86]);
    cpu.next_cycle();
    cpu.next_cycle();
    assert_eq!(cpu.pc, 0x386);
}

#[test]
fn test_op_sne() {
    let mut cpu = Cpu::new();
    cpu.v[2] = 0x03;
    cpu.load_program(vec![0x42, 0x04, 0x00, 0x00, 0x13, 0x86]);
    cpu.next_cycle();
    cpu.next_cycle();
    assert_eq!(cpu.pc, 0x386);
}

#[test]
fn test_op_se_xy() {
    let mut cpu = Cpu::new();
    cpu.v[2] = 0x03;
    cpu.v[5] = 0x03;
    cpu.load_program(vec![0x52, 0x50, 0x13, 0x47, 0x13, 0x86]);
    cpu.next_cycle();
    cpu.next_cycle();
    assert_eq!(cpu.pc, 0x386);
}

#[test]
fn test_no_op_se_xy() {
    let mut cpu = Cpu::new();
    cpu.v[2] = 0x03;
    cpu.v[5] = 0x04;
    cpu.load_program(vec![0x52, 0x50, 0x13, 0x47, 0x13, 0x86]);
    cpu.next_cycle();
    cpu.next_cycle();
    assert_eq!(cpu.pc, 0x347);
}

#[test]
fn test_op_ld_vx() {
    let mut cpu = Cpu::new();
    cpu.load_program(vec![
        0x62, 0x03, 0x65, 0x03, 0x52, 0x50, 0x13, 0x47, 0x13, 0x86,
    ]);
    cpu.next_cycle();
    cpu.next_cycle();
    cpu.next_cycle();
    cpu.next_cycle();
    assert_eq!(cpu.v[2], 0x03);
    assert_eq!(cpu.v[5], 0x03);
    assert_eq!(cpu.pc, 0x386);
}

#[test]
fn test_op_add_vx() {
    let mut cpu = Cpu::new();
    cpu.load_program(vec![
        0x62, 0x02, 0x65, 0x03, 0x72, 0x01, 0x52, 0x50, 0x13, 0x47, 0x13, 0x86,
    ]);
    cpu.next_cycle();
    cpu.next_cycle();
    cpu.next_cycle();
    cpu.next_cycle();
    cpu.next_cycle();
    assert_eq!(cpu.v[2], 0x03);
    assert_eq!(cpu.v[5], 0x03);
    assert_eq!(cpu.pc, 0x386);
}

#[test]
fn test_op_ld_vx_vy() {
    let mut cpu = Cpu::new();
    cpu.load_program(vec![
        0x62, 0x03, 0x85, 0x20, 0x52, 0x50, 0x13, 0x47, 0x13, 0x86,
    ]);
    cpu.next_cycle();
    cpu.next_cycle();
    cpu.next_cycle();
    cpu.next_cycle();
    assert_eq!(cpu.v[2], 0x03);
    assert_eq!(cpu.v[5], 0x03);
    assert_eq!(cpu.pc, 0x386);
}

#[test]
fn test_op_or_vx_vy() {
    let mut cpu = Cpu::new();
    cpu.load_program(vec![
        0x62, 0x03, 0x85, 0x21, 0x52, 0x50, 0x13, 0x47, 0x13, 0x86,
    ]);
    cpu.next_cycle();
    cpu.next_cycle();
    cpu.next_cycle();
    cpu.next_cycle();
    assert_eq!(cpu.v[2], 0x03);
    assert_eq!(cpu.v[5], 0x03);
    assert_eq!(cpu.pc, 0x386);
}

#[test]
fn test_op_and_vx_vy() {
    let mut cpu = Cpu::new();
    cpu.load_program(vec![
        0x62, 0x03, 0x65, 0xff, 0x6a, 0x03, 0x85, 0xa2, 0x52, 0x50, 0x13, 0x47, 0x13, 0x86,
    ]);
    cpu.next_cycle();
    cpu.next_cycle();
    cpu.next_cycle();
    cpu.next_cycle();
    cpu.next_cycle();
    cpu.next_cycle();
    assert_eq!(cpu.v[2], 0x03);
    assert_eq!(cpu.v[5], 0x03);
    assert_eq!(cpu.pc, 0x386);
}

#[test]
fn test_op_and_vx_vy_2() {
    let mut cpu = Cpu::new();
    cpu.load_program(vec![0x62, 0x03, 0x65, 0x05, 0x85, 0x22]);
    cpu.next_cycle();
    cpu.next_cycle();
    cpu.next_cycle();
    assert_eq!(cpu.v[5], 0x01);
    assert_eq!(cpu.pc, 0x206);
}

#[test]
fn test_op_xor_vx_vy() {
    let mut cpu = Cpu::new();
    cpu.load_program(vec![0x62, 0xaa, 0x65, 0x3d, 0x85, 0x23]);
    cpu.next_cycle();
    cpu.next_cycle();
    cpu.next_cycle();
    assert_eq!(cpu.v[5], 0x97);
}

#[test]
fn test_op_add_vx_vy() {
    let mut cpu = Cpu::new();
    cpu.load_program(vec![0x62, 0xaa, 0x65, 0x01, 0x85, 0x24]);
    cpu.next_cycle();
    cpu.next_cycle();
    cpu.next_cycle();
    assert_eq!(cpu.v[0xf], 0);
    assert_eq!(cpu.v[5], 0xab);
}

#[test]
fn test_op_add_vx_vy_with_overflow() {
    let mut cpu = Cpu::new();
    cpu.load_program(vec![0x62, 0xfa, 0x65, 0x10, 0x85, 0x24]);
    cpu.next_cycle();
    cpu.next_cycle();
    cpu.next_cycle();
    assert_eq!(cpu.v[5], 0x0a);
    assert_eq!(cpu.v[0xf], 1);
}

#[test]
fn test_op_sub_vx_vy() {
    let mut cpu = Cpu::new();
    cpu.load_program(vec![0x62, 0x0a, 0x65, 0xaa, 0x85, 0x25]);
    cpu.next_cycle();
    cpu.next_cycle();
    cpu.next_cycle();
    assert_eq!(cpu.v[0xf], 0);
    assert_eq!(cpu.v[5], 0xa0);
}

#[test]
fn test_op_sub_vx_vy_with_overflow() {
    let mut cpu = Cpu::new();
    cpu.load_program(vec![0x62, 0xab, 0x65, 0xaa, 0x85, 0x25]);
    cpu.next_cycle();
    cpu.next_cycle();
    cpu.next_cycle();
    assert_eq!(cpu.v[0xf], 1);
    assert_eq!(cpu.v[5], 0xff);
}

#[test]
fn test_loading_bytes_from_vector() {
        let data = vec![0x1, 0x2, 0x3, 0x4];
        let mut cpu = Cpu::new();
        let mut memory = vec![0; 0x200];
        let mut program = vec![0; 3896];
        for (index, &byte) in data.iter().enumerate() {
                program[index] = byte;
        }
        memory.append(&mut program);
        cpu.load_program(data);
        for i in 0..4096 {
                assert_eq!(memory[i], cpu.memory[i])
        }
}

#[test]
fn small_core_load_zeroes_reserved_area_and_keeps_the_rest() {
    let mut cpu = Cpu::new();
    cpu.memory[0x10] = 0x55;
    cpu.memory[0x300] = 0x66;
    cpu.load_program(vec![0xAB, 0xCD]);
    assert_eq!(cpu.memory[0x10], 0);
    assert_eq!(cpu.memory[0x200], 0xAB);
    assert_eq!(cpu.memory[0x201], 0xCD);
    assert_eq!(cpu.memory[0x300], 0x66);
}

#[test]
fn small_core_add_sets_carry_and_keeps_low_byte() {
    let mut cpu = Cpu::new();
    cpu.load_program(vec![0x61, 0xC8, 0x62, 0x64, 0x81, 0x24]);
    cpu.next_cycle();
    cpu.next_cycle();
    cpu.next_cycle();
    assert_eq!(cpu.v[1], 0x2C);
    assert_eq!(cpu.v[0xf], 1);
    assert_eq!(200 + 100, 256 * cpu.v[0xf] as u32 + cpu.v[1] as u32);
}

#[test]
fn small_core_skip_on_equal_registers_is_five_family_only() {
    let mut cpu = Cpu::new();
    cpu.v[1] = 9;
    cpu.v[2] = 9;
    cpu.load_program(vec![0x51, 0x20]);
    cpu.next_cycle();
    assert_eq!(cpu.pc, 0x204);
}
