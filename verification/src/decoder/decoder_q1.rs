//! Quadrant 1 of the compressed instructions: immediate arithmetic, register
//! arithmetic on `x8..x15`, jumps and branches on zero.
use vstd::prelude::*;

use crate::bits::{bit_from_to, lemma_sign_extend_even, sign_extend, spec_sign_extend};
use crate::decoder::{bit, even_offsets, lemma_field_bounds};
use crate::instructions::{Immediate, Instruction, RDindex, RS1index};

verus! {

/// The full register field in bits 11:7.
pub open spec fn spec_rd(inst: u32) -> RDindex {
    ((inst >> 7) & 0b1_1111) as RDindex
}

/// The register in bits 9:7, mapped from `x8..x15`.
pub open spec fn spec_rdp(inst: u32) -> RDindex {
    (((inst >> 7) & 0b111) + 8) as RDindex
}

/// The register in bits 4:2, mapped from `x8..x15`.
pub open spec fn spec_rs2p(inst: u32) -> RS1index {
    (((inst >> 2) & 0b111) + 8) as RS1index
}

/// The six bit immediate `imm[5|4:0]` of the CI format, sign-extended.
pub open spec fn spec_imm6(inst: u32) -> Immediate {
    spec_sign_extend((bit(inst, 12, 5) + ((inst >> 2) & 0b1_1111)) as u32, 6) as i32
}

/// The shift amount `shamt[5|4:0]`.
pub open spec fn spec_shamt(inst: u32) -> u32 {
    (bit(inst, 12, 5) + ((inst >> 2) & 0b1_1111)) as u32
}

/// The jump offset of C.J and C.JAL: `offset[11|4|9:8|10|6|7|3:1|5]`, sign-extended.
pub open spec fn spec_jump_offset(inst: u32) -> Immediate {
    spec_sign_extend(
        (bit(inst, 12, 11) + bit(inst, 11, 4) + bit(inst, 10, 9) + bit(inst, 9, 8) + bit(inst, 8, 10)
            + bit(inst, 7, 6) + bit(inst, 6, 7) + bit(inst, 5, 3) + bit(inst, 4, 2) + bit(inst, 3, 1)
            + bit(inst, 2, 5)) as u32,
        12,
    ) as i32
}

/// The branch offset of C.BEQZ and C.BNEZ: `offset[8|4:3]` and `offset[7:6|2:1|5]`, sign-extended.
pub open spec fn spec_branch_offset(inst: u32) -> Immediate {
    spec_sign_extend(
        (bit(inst, 12, 8) + bit(inst, 11, 4) + bit(inst, 10, 3) + bit(inst, 6, 7) + bit(inst, 5, 6)
            + bit(inst, 4, 2) + bit(inst, 3, 1) + bit(inst, 2, 5)) as u32,
        9,
    ) as i32
}

/// The stack adjustment of C.ADDI16SP: `nzimm[9|4|6|8:7|5]`, sign-extended.
pub open spec fn spec_addi16sp_imm(inst: u32) -> Immediate {
    spec_sign_extend(
        (bit(inst, 12, 9) + bit(inst, 6, 4) + bit(inst, 5, 6) + bit(inst, 4, 8) + bit(inst, 3, 7)
            + bit(inst, 2, 5)) as u32,
        10,
    ) as i32
}

/// The upper immediate of C.LUI: `nzimm[17|16:12]`, sign-extended.
pub open spec fn spec_lui_imm(inst: u32) -> Immediate {
    spec_sign_extend((bit(inst, 12, 17) + (((inst >> 2) & 0b1_1111) << 12)) as u32, 18) as i32
}

/// The decoding of a quadrant 1 instruction.
pub open spec fn spec_decode(instruction: u32) -> Result<Instruction, &'static str> {
    let f = instruction >> 13;
    let rd = spec_rd(instruction);
    let rdp = spec_rdp(instruction);
    if f == 0 {
        if rd == 0 {
            Ok(Instruction::CNOP(rd, spec_imm6(instruction)))
        } else {
            Ok(Instruction::CADDI(rd, spec_imm6(instruction)))
        }
    } else if f == 1 {
        Ok(Instruction::CJAL(spec_jump_offset(instruction)))
    } else if f == 2 {
        Ok(Instruction::CLI(rd, spec_imm6(instruction)))
    } else if f == 3 {
        if rd == 2 {
            Ok(Instruction::CADDI16SP(rd, spec_addi16sp_imm(instruction)))
        } else {
            Ok(Instruction::CLUI(rd, spec_lui_imm(instruction)))
        }
    } else if f == 4 {
        let sub = (instruction >> 10) & 0b11;
        if sub == 0 {
            Ok(Instruction::CSRLI(rdp, spec_shamt(instruction) as i32))
        } else if sub == 1 {
            Ok(Instruction::CSRAI(rdp, spec_shamt(instruction) as i32))
        } else if sub == 2 {
            Ok(Instruction::CANDI(rdp, spec_imm6(instruction)))
        } else if (instruction >> 12) & 1 == 1 {
            Err("C.SUBW and C.ADDW are RV64 only")
        } else {
            let op = (instruction >> 5) & 0b11;
            let rs2 = spec_rs2p(instruction);
            if op == 0 {
                Ok(Instruction::CSUB(rdp, rs2))
            } else if op == 1 {
                Ok(Instruction::CXOR(rdp, rs2))
            } else if op == 2 {
                Ok(Instruction::COR(rdp, rs2))
            } else {
                Ok(Instruction::CAND(rdp, rs2))
            }
        }
    } else if f == 5 {
        Ok(Instruction::CJ(spec_jump_offset(instruction)))
    } else if f == 6 {
        Ok(Instruction::CBEQZ(rdp, spec_branch_offset(instruction)))
    } else if f == 7 {
        Ok(Instruction::CBNEZ(rdp, spec_branch_offset(instruction)))
    } else {
        Err("Invalid q1 opcode")
    }
}

fn get_imm6(inst: u32) -> (r: Immediate)
    ensures
        r == spec_imm6(inst),
{
    proof {
        lemma_field_bounds(inst);
        vstd::arithmetic::power2::lemma2_to64();
    }
    let raw = bit_from_to(inst, 12, 5) + ((inst >> 2) & 0b1_1111);
    sign_extend(raw, 6) as i32
}

fn get_shamt(inst: u32) -> (r: u32)
    ensures
        r == spec_shamt(inst),
        r < 64,
{
    assert(bit(inst, 12, 5) + ((inst >> 2) & 0b1_1111) < 64) by (bit_vector);
    bit_from_to(inst, 12, 5) + ((inst >> 2) & 0b1_1111)
}

fn get_jump_offset(inst: u32) -> (r: Immediate)
    ensures
        r == spec_jump_offset(inst),
        r % 2 == 0,
{
    proof {
        lemma_field_bounds(inst);
        vstd::arithmetic::power2::lemma2_to64();
    }
    let raw = bit_from_to(inst, 12, 11) + bit_from_to(inst, 11, 4) + bit_from_to(inst, 10, 9)
        + bit_from_to(inst, 9, 8) + bit_from_to(inst, 8, 10) + bit_from_to(inst, 7, 6)
        + bit_from_to(inst, 6, 7) + bit_from_to(inst, 5, 3) + bit_from_to(inst, 4, 2)
        + bit_from_to(inst, 3, 1) + bit_from_to(inst, 2, 5);
    proof {
        assert(raw & 1 == 0) by (bit_vector)
            requires
                raw == bit(inst, 12, 11) + bit(inst, 11, 4) + bit(inst, 10, 9) + bit(inst, 9, 8)
                    + bit(inst, 8, 10) + bit(inst, 7, 6) + bit(inst, 6, 7) + bit(inst, 5, 3)
                    + bit(inst, 4, 2) + bit(inst, 3, 1) + bit(inst, 2, 5),
        ;
        lemma_sign_extend_even(raw, 12);
    }
    sign_extend(raw, 12) as i32
}

fn get_branch_offset(inst: u32) -> (r: Immediate)
    ensures
        r == spec_branch_offset(inst),
        r % 2 == 0,
{
    proof {
        lemma_field_bounds(inst);
        vstd::arithmetic::power2::lemma2_to64();
    }
    let raw = bit_from_to(inst, 12, 8) + bit_from_to(inst, 11, 4) + bit_from_to(inst, 10, 3)
        + bit_from_to(inst, 6, 7) + bit_from_to(inst, 5, 6) + bit_from_to(inst, 4, 2)
        + bit_from_to(inst, 3, 1) + bit_from_to(inst, 2, 5);
    proof {
        assert(raw & 1 == 0) by (bit_vector)
            requires
                raw == bit(inst, 12, 8) + bit(inst, 11, 4) + bit(inst, 10, 3) + bit(inst, 6, 7)
                    + bit(inst, 5, 6) + bit(inst, 4, 2) + bit(inst, 3, 1) + bit(inst, 2, 5),
        ;
        lemma_sign_extend_even(raw, 9);
    }
    sign_extend(raw, 9) as i32
}

fn get_addi16sp_imm(inst: u32) -> (r: Immediate)
    ensures
        r == spec_addi16sp_imm(inst),
{
    proof {
        lemma_field_bounds(inst);
        vstd::arithmetic::power2::lemma2_to64();
    }
    let raw = bit_from_to(inst, 12, 9) + bit_from_to(inst, 6, 4) + bit_from_to(inst, 5, 6)
        + bit_from_to(inst, 4, 8) + bit_from_to(inst, 3, 7) + bit_from_to(inst, 2, 5);
    sign_extend(raw, 10) as i32
}

fn get_lui_imm(inst: u32) -> (r: Immediate)
    ensures
        r == spec_lui_imm(inst),
{
    proof {
        lemma_field_bounds(inst);
        vstd::arithmetic::power2::lemma2_to64();
    }
    let raw = bit_from_to(inst, 12, 17) + (((inst >> 2) & 0b1_1111) << 12);
    sign_extend(raw, 18) as i32
}

/// Decodes a quadrant 1 instruction (RV32 forms; C.SUBW and C.ADDW are errors).
pub fn decode(instruction: u32) -> (r: Result<Instruction, &'static str>)
    ensures
        r == spec_decode(instruction),
        r matches Ok(i) ==> i.wf() && even_offsets(i) && i.spec_is_compressed(),
{
    let f = instruction >> 13;
    assert((instruction >> 7) & 0b1_1111 < 32 && (instruction >> 7) & 0b111 < 8
        && (instruction >> 2) & 0b111 < 8) by (bit_vector);
    let rd = ((instruction >> 7) & 0b1_1111) as RDindex;
    let rdp = (((instruction >> 7) & 0b111) + 8) as RDindex;
    if f == 0 {
        if rd == 0 {
            Ok(Instruction::CNOP(rd, get_imm6(instruction)))
        } else {
            Ok(Instruction::CADDI(rd, get_imm6(instruction)))
        }
    } else if f == 1 {
        Ok(Instruction::CJAL(get_jump_offset(instruction)))
    } else if f == 2 {
        Ok(Instruction::CLI(rd, get_imm6(instruction)))
    } else if f == 3 {
        if rd == 2 {
            Ok(Instruction::CADDI16SP(rd, get_addi16sp_imm(instruction)))
        } else {
            Ok(Instruction::CLUI(rd, get_lui_imm(instruction)))
        }
    } else if f == 4 {
        let sub = (instruction >> 10) & 0b11;
        if sub == 0 {
            Ok(Instruction::CSRLI(rdp, get_shamt(instruction) as i32))
        } else if sub == 1 {
            Ok(Instruction::CSRAI(rdp, get_shamt(instruction) as i32))
        } else if sub == 2 {
            Ok(Instruction::CANDI(rdp, get_imm6(instruction)))
        } else if (instruction >> 12) & 1 == 1 {
            Err("C.SUBW and C.ADDW are RV64 only")
        } else {
            let op = (instruction >> 5) & 0b11;
            let rs2 = (((instruction >> 2) & 0b111) + 8) as RS1index;
            if op == 0 {
                Ok(Instruction::CSUB(rdp, rs2))
            } else if op == 1 {
                Ok(Instruction::CXOR(rdp, rs2))
            } else if op == 2 {
                Ok(Instruction::COR(rdp, rs2))
            } else {
                Ok(Instruction::CAND(rdp, rs2))
            }
        }
    } else if f == 5 {
        Ok(Instruction::CJ(get_jump_offset(instruction)))
    } else if f == 6 {
        Ok(Instruction::CBEQZ(rdp, get_branch_offset(instruction)))
    } else if f == 7 {
        Ok(Instruction::CBNEZ(rdp, get_branch_offset(instruction)))
    } else {
        Err("Invalid q1 opcode")
    }
}

} // verus!
