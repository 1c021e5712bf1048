use triops::decoder::decode;
use triops::decoder::decoder_q3::{get_opcode, OpCode};
use triops::instructions::Instruction;

#[test]
fn decodes_addi() {
    // addi a0, zero, 5
    assert_eq!(decode(0x0050_0513), Ok(Instruction::ADDI(10, 0, 5)));
}

#[test]
fn decodes_negative_addi() {
    // addi sp, sp, -16
    assert_eq!(decode(0xFF01_0113), Ok(Instruction::ADDI(2, 2, -16)));
}

#[test]
fn decodes_add() {
    // add a0, a0, a0
    assert_eq!(decode(0x00A5_0533), Ok(Instruction::ADD(10, 10, 10)));
}

#[test]
fn decodes_lui_with_upper_immediate() {
    // lui sp, 0x80008
    assert_eq!(decode(0x8000_8137), Ok(Instruction::LUI(2, 0x8000_8000u32 as i32)));
}

#[test]
fn decodes_store_and_load_word() {
    // sw a1, 0(sp) and lw a2, 0(sp)
    assert_eq!(decode(0x00B1_2023), Ok(Instruction::SW(2, 11, 0)));
    assert_eq!(decode(0x0001_2603), Ok(Instruction::LW(12, 2, 0)));
}

#[test]
fn decodes_system_instructions() {
    assert_eq!(decode(0x0000_0073), Ok(Instruction::ECALL()));
    assert_eq!(decode(0x0010_0073), Ok(Instruction::EBREAK()));
    // csrrw zero, mtvec, t0
    assert_eq!(decode(0x3052_9073), Ok(Instruction::CSRRW(0, 5, 0x305)));
}

#[test]
fn decodes_division() {
    // div a0, a1, a2
    assert_eq!(decode(0x02C5_C533), Ok(Instruction::DIV(10, 11, 12)));
}

#[test]
fn decodes_compressed_li() {
    // c.li a3, -1
    let inst = decode(0x56FD).unwrap();
    assert_eq!(inst, Instruction::CLI(13, -1));
    assert!(inst.is_compressed());
    assert_eq!(inst.decompress(), Some(Instruction::ADDI(13, 0, -1)));
}

#[test]
fn compressed_decoding_reads_only_the_low_halfword() {
    assert_eq!(decode(0xFFFF_56FD), decode(0x56FD));
}

#[test]
fn rejects_all_zero_word() {
    assert!(decode(0).is_err());
}

#[test]
fn regular_instructions_decompress_to_themselves() {
    let inst = decode(0x0050_0513).unwrap();
    assert!(!inst.is_compressed());
    assert_eq!(inst.decompress(), Some(inst));
}

#[test]
fn classifies_extensions() {
    assert!(Instruction::CSRRW(0, 5, 0x305).is_zicsr());
    assert!(!Instruction::ADDI(1, 1, 1).is_zicsr());
    assert!(Instruction::DIV(10, 11, 12).is_m());
    assert!(!Instruction::ADD(10, 11, 12).is_m());
}

#[test]
fn decodes_quadrant_one() {
    assert_eq!(decode(0x1575), Ok(Instruction::CADDI(10, -3)));
    assert_eq!(decode(0xA021), Ok(Instruction::CJ(8)));
    assert_eq!(decode(0xC019), Ok(Instruction::CBEQZ(8, 6)));
    assert_eq!(decode(0x6585), Ok(Instruction::CLUI(11, 0x1000)));
    assert_eq!(decode(0x808D), Ok(Instruction::CSRLI(9, 3)));
    assert_eq!(decode(0x8D0D), Ok(Instruction::CSUB(10, 11)));
    assert_eq!(decode(0x6141), Ok(Instruction::CADDI16SP(2, 16)));
}

#[test]
fn decodes_quadrant_two() {
    assert_eq!(decode(0x852E), Ok(Instruction::CMV(10, 11)));
    assert_eq!(decode(0x952E), Ok(Instruction::CADD(10, 11)));
    assert_eq!(decode(0x8082), Ok(Instruction::CJR(1)));
    assert_eq!(decode(0x9002), Ok(Instruction::CEBREAK()));
    assert_eq!(decode(0x4512), Ok(Instruction::CLWSP(10, 4)));
    assert_eq!(decode(0xC42E), Ok(Instruction::CSWSP(11, 8)));
}

#[test]
fn decodes_quadrant_zero() {
    // c.lw a0, 4(a1): rd' = a0, rs1' = a1, offset[2] in bit 6
    assert_eq!(decode(0x41C8), Ok(Instruction::CLW(10, 11, 4)));
    // c.addi4spn s0, sp, 8: nzuimm[3] in bit 5
    assert_eq!(decode(0x0020), Ok(Instruction::CADDI4SPN(8, 8)));
}

#[test]
fn compressed_jumps_and_branches_expand() {
    assert_eq!(Instruction::CJ(8).decompress(), Some(Instruction::JAL(0, 8)));
    assert_eq!(Instruction::CJAL(-4).decompress(), Some(Instruction::JAL(1, -4)));
    assert_eq!(Instruction::CBEQZ(8, 6).decompress(), Some(Instruction::BEQ(8, 0, 6)));
    assert_eq!(Instruction::CJR(1).decompress(), Some(Instruction::JALR(0, 1, 0)));
    assert_eq!(Instruction::CMV(10, 11).decompress(), Some(Instruction::ADD(10, 0, 11)));
    assert_eq!(Instruction::CLWSP(10, 4).decompress(), Some(Instruction::LW(10, 2, 4)));
}

#[test]
fn classifies_major_opcodes() {
    assert!(matches!(get_opcode(0x0050_0513), OpCode::OPIMM));
    assert!(matches!(get_opcode(0x0001_2603), OpCode::LOAD));
    assert!(matches!(get_opcode(0x0000_0073), OpCode::SYSTEM));
}
