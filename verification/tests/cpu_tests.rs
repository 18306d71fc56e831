use koholint::cpu::CPU;
use koholint::decoding::Operand;

#[test]
fn blank_cpu_is_zeroed() {
    let cpu = CPU::blank();
    assert_eq!(cpu.read_program_counter(), 0);
    assert_eq!(cpu.read_stack_pointer(), 0);
    assert_eq!(cpu.read_a_register(), 0);
    assert!(!cpu.read_z_flag() && !cpu.read_n_flag() && !cpu.read_h_flag() && !cpu.read_c_flag());
    assert!(!cpu.interrupts_enabled());
}

#[test]
fn r8_write_then_read() {
    let mut cpu = CPU::blank();
    cpu.write_r8(&Operand::R8_B, 0x12);
    cpu.write_r8(&Operand::R8_L, 0x34);
    assert_eq!(cpu.read_r8(&Operand::R8_B), 0x12);
    assert_eq!(cpu.read_r8(&Operand::R8_L), 0x34);
    assert_eq!(cpu.read_r8(&Operand::R8_C), 0);
}

#[test]
fn r16_pairs_keep_their_first_register_as_low_byte() {
    let mut cpu = CPU::blank();
    cpu.write_r16(&Operand::R16_BC, 0x1234);
    assert_eq!(cpu.read_r16(&Operand::R16_BC), 0x1234);
    assert_eq!(cpu.read_r8(&Operand::R8_B), 0x34);
    assert_eq!(cpu.read_r8(&Operand::R8_C), 0x12);
    cpu.write_hl_register(0x9FFF);
    assert_eq!(cpu.read_hl_register(), 0x9FFF);
    assert_eq!(cpu.read_r8(&Operand::R8_H), 0xFF);
    assert_eq!(cpu.read_r8(&Operand::R8_L), 0x9F);
    cpu.write_r16(&Operand::R16_AF, 0x12F0);
    assert_eq!(cpu.read_a_register(), 0x12);
    assert!(cpu.read_z_flag() && cpu.read_n_flag() && cpu.read_h_flag() && cpu.read_c_flag());
    cpu.write_r16(&Operand::R16_SP, 0xFFFE);
    assert_eq!(cpu.read_stack_pointer(), 0xFFFE);
}

#[test]
fn flags_are_independent() {
    let mut cpu = CPU::blank();
    cpu.write_z_flag(true);
    cpu.write_c_flag(true);
    assert!(cpu.read_z_flag() && cpu.read_c_flag());
    assert!(!cpu.read_n_flag() && !cpu.read_h_flag());
    cpu.write_z_flag(false);
    assert!(!cpu.read_z_flag() && cpu.read_c_flag());
}

#[test]
fn condition_codes_follow_the_flags() {
    let mut cpu = CPU::blank();
    assert!(cpu.get_cc(&Operand::CC_NZ));
    assert!(!cpu.get_cc(&Operand::CC_Z));
    assert!(cpu.get_cc(&Operand::CC_NC));
    cpu.write_z_flag(true);
    cpu.write_c_flag(true);
    assert!(cpu.get_cc(&Operand::CC_Z));
    assert!(!cpu.get_cc(&Operand::CC_NZ));
    assert!(cpu.get_cc(&Operand::CC_C));
    assert!(!cpu.get_cc(&Operand::CC_NC));
}

#[test]
fn program_counter_moves_and_wraps() {
    let mut cpu = CPU::blank();
    cpu.write_program_counter(0x0100);
    cpu.increment_program_counter(3);
    assert_eq!(cpu.read_program_counter(), 0x0103);
    cpu.offset_program_counter(-5);
    assert_eq!(cpu.read_program_counter(), 0x00FE);
    cpu.write_program_counter(0xFFFF);
    cpu.increment_program_counter(2);
    assert_eq!(cpu.read_program_counter(), 0x0001);
    cpu.offset_stack_pointer(-2);
    assert_eq!(cpu.read_stack_pointer(), 0xFFFE);
    cpu.write_program_counter(0x0010);
    cpu.offset_program_counter(-128);
    assert_eq!(cpu.read_program_counter(), 0xFF90);
    cpu.offset_program_counter(127);
    assert_eq!(cpu.read_program_counter(), 0x000F);
}

#[test]
fn interrupt_master_enable() {
    let mut cpu = CPU::blank();
    cpu.enable_interrupts();
    assert!(cpu.interrupts_enabled());
    cpu.disable_interrupts();
    assert!(!cpu.interrupts_enabled());
}

