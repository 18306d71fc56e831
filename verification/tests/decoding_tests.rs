use koholint::decoding::{
    decode_bytes, instruction_to_string, operand_to_string, Instruction, Operand, Operation,
};
use koholint::error::EmulationErrorType;

fn decode(opcode: u8, imm8: u8, imm16: u16) -> Instruction {
    match decode_bytes(opcode, imm8, imm16, 0x0150) {
        Ok(i) => i,
        Err(e) => panic!("{}", e.to_string()),
    }
}

#[test]
fn decodes_nop() {
    let i = decode(0x00, 0, 0);
    assert!(matches!(i.op, Operation::NOP));
    assert_eq!(i.size, 1);
    assert_eq!(i.cycles, 4);
    assert_eq!(i.branch_cycles, None);
}

#[test]
fn decodes_ld_sp_imm16() {
    let i = decode(0x31, 0xFE, 0xFFFE);
    match i.op {
        Operation::LD { dst: Operand::R16_SP, src: Operand::IMM16(v) } => assert_eq!(v, 0xFFFE),
        _ => panic!("wrong operation"),
    }
    assert_eq!(i.size, 3);
    assert_eq!(i.cycles, 12);
}

#[test]
fn decodes_jr_nz_with_signed_offset() {
    let i = decode(0x20, 0xFB, 0x00FB);
    match i.op {
        Operation::JR_CC { cc: Operand::CC_NZ, offset_oprd: Operand::IMM8_SIGNED(o) } => assert_eq!(o, -5),
        _ => panic!("wrong operation"),
    }
    assert_eq!(i.size, 2);
    assert_eq!(i.cycles, 8);
    assert_eq!(i.branch_cycles, Some(12));
}

#[test]
fn decodes_prefixed_bit() {
    let i = decode(0xCB, 0x7C, 0x0000);
    match i.op {
        Operation::BIT { bit: 7, src: Operand::R8_H } => {}
        _ => panic!("wrong operation"),
    }
    assert_eq!(i.size, 2);
    assert_eq!(i.cycles, 8);
}

#[test]
fn decodes_call_and_ret() {
    let call = decode(0xCD, 0x34, 0x1234);
    assert!(matches!(call.op, Operation::CALL { proc: Operand::IMM16(0x1234) }));
    assert_eq!(call.cycles, 24);
    let ret = decode(0xC9, 0, 0);
    assert!(matches!(ret.op, Operation::RET));
    assert_eq!(ret.cycles, 16);
}

#[test]
fn decodes_ld_hld_a_with_pointer() {
    let i = decode(0x32, 0, 0);
    match &i.op {
        Operation::LD { dst: Operand::PTR(p), src: Operand::R8_A } => {
            assert!(matches!(**p, Operand::R16_HLD))
        }
        _ => panic!("wrong operation"),
    }
    assert_eq!(i.cycles, 8);
}

#[test]
fn cycle_counts_follow_the_opcode_table() {
    assert_eq!(decode(0x1D, 0, 0).cycles, 4); // dec e
    assert_eq!(decode(0x17, 0, 0).cycles, 4); // rla
    assert_eq!(decode(0xAE, 0, 0).cycles, 8); // xor (hl)
    assert_eq!(decode(0x35, 0, 0).cycles, 12); // dec (hl)
    let ret_z = decode(0xC8, 0, 0);
    assert_eq!((ret_z.cycles, ret_z.branch_cycles), (8, Some(20)));
}

#[test]
fn unknown_opcode_is_a_decode_error() {
    match decode_bytes(0xD3, 0, 0, 0x1234) {
        Err(e) => {
            assert!(matches!(e.ty, EmulationErrorType::UnhandledInstructionDecode(0xD3)));
            assert_eq!(e.pc, Some(0x1234));
        }
        Ok(_) => panic!("0xD3 is not an instruction"),
    }
}

#[test]
fn text_of_loads_and_jumps() {
    assert_eq!(instruction_to_string(&decode(0x31, 0xFE, 0xFFFE)), "ld sp, 0xFFFE");
    assert_eq!(instruction_to_string(&decode(0x3E, 0x0A, 0x000A)), "ld a, 0x0A");
    assert_eq!(instruction_to_string(&decode(0x32, 0, 0)), "ld (hl-), a");
    assert_eq!(instruction_to_string(&decode(0x20, 0xFB, 0x00FB)), "jr nz, -5");
    assert_eq!(instruction_to_string(&decode(0xC3, 0x50, 0x0150)), "jp 0x0150");
    assert_eq!(instruction_to_string(&decode(0x00, 0, 0)), "nop");
    assert_eq!(instruction_to_string(&decode(0xAF, 0, 0)), "xor a, a");
}

#[test]
fn text_of_bit_instructions() {
    assert_eq!(instruction_to_string(&decode(0xCB, 0x7C, 0)), "bit 7, h");
    assert_eq!(instruction_to_string(&decode(0xCB, 0x11, 0)), "rl c");
}

#[test]
fn text_of_operands() {
    assert_eq!(operand_to_string(&Operand::R16_HLI), "hl+");
    assert_eq!(operand_to_string(&Operand::IMM8(0xF)), "0x0F");
    assert_eq!(operand_to_string(&Operand::IMM16(0xAB)), "0x00AB");
    assert_eq!(operand_to_string(&Operand::IMM8_SIGNED(-128)), "-128");
    assert_eq!(operand_to_string(&Operand::IMM8_SIGNED(127)), "127");
    assert_eq!(operand_to_string(&Operand::SP_PLUS_SIGNED_IMM8(-2)), "sp + -2");
    assert_eq!(operand_to_string(&Operand::PTR(Box::new(Operand::R8_C))), "(c)");
    assert_eq!(operand_to_string(&Operand::CC_NC), "nc");
}

#[test]
fn every_decoded_instruction_has_a_regular_shape() {
    for opcode in 0..=255u8 {
        for imm8 in [0x00u8, 0x7C, 0xFF] {
            if let Ok(i) = decode_bytes(opcode, imm8, 0x1234, 0) {
                assert!((1..=3).contains(&i.size));
                if opcode == 0xCB {
                    assert_eq!(i.size, 2);
                }
                assert!(i.cycles > 0 && i.cycles % 4 == 0);
                let conditional = matches!(
                    i.op,
                    Operation::JR_CC { .. }
                        | Operation::JP_CC { .. }
                        | Operation::CALL_CC { .. }
                        | Operation::RET_CC { .. }
                );
                assert_eq!(i.branch_cycles.is_some(), conditional);
                if let Some(b) = i.branch_cycles {
                    assert!(b > i.cycles && b % 4 == 0);
                }
            }
        }
    }
}
