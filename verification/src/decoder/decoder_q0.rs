//! Quadrant 0 of the compressed instructions: stack-relative add, loads and stores.
use vstd::prelude::*;

use crate::bits::bit_from_to;
use crate::decoder::{bit, even_offsets};
use crate::instructions::{Immediate, Instruction, RDindex, RS1index};

verus! {

#[derive(Debug, PartialEq, Eq, Structural)]
pub enum OpCode {
    ADDI4SPN,
    FLD,
    LW,
    FLW,
    RESERVED,
    FSD,
    SW,
    FSW,
}

/// The register in bits 4:2 (CIW, CL, CS formats), mapped from `x8..x15`.
pub open spec fn spec_rd(inst: u32) -> RDindex {
    (((inst >> 2) & 0b111) + 8) as RDindex
}

/// The register in bits 9:7 (CL, CS formats), mapped from `x8..x15`.
pub open spec fn spec_rs(inst: u32) -> RS1index {
    (((inst >> 7) & 0b111) + 8) as RS1index
}

/// The word offset of C.LW and C.SW: `uimm[5:3|2|6]`.
pub open spec fn spec_imm(inst: u32) -> Immediate {
    ((((inst >> 10) & 0b111) << 3) + bit(inst, 5, 6) + bit(inst, 6, 2)) as i32
}

/// The stack offset of C.ADDI4SPN: `nzuimm[5:4|9:6|2|3]`.
pub open spec fn spec_addi4spn_imm(inst: u32) -> Immediate {
    (bit(inst, 5, 3) + bit(inst, 6, 2) + bit(inst, 7, 6) + bit(inst, 8, 7) + bit(inst, 9, 8)
        + bit(inst, 10, 9) + bit(inst, 11, 4) + bit(inst, 12, 5)) as i32
}

pub open spec fn spec_opcode(instruction: u32) -> Result<OpCode, &'static str> {
    let f = instruction >> 13;
    if f == 0 {
        Ok(OpCode::ADDI4SPN)
    } else if f == 1 {
        Ok(OpCode::FLD)
    } else if f == 2 {
        Ok(OpCode::LW)
    } else if f == 3 {
        Ok(OpCode::FLW)
    } else if f == 4 {
        Ok(OpCode::RESERVED)
    } else if f == 5 {
        Ok(OpCode::FSD)
    } else if f == 6 {
        Ok(OpCode::SW)
    } else if f == 7 {
        Ok(OpCode::FSW)
    } else {
        Err("Invalid q0 opcode")
    }
}

/// The decoding of a quadrant 0 instruction.
pub open spec fn spec_decode(instruction: u32) -> Result<Instruction, &'static str> {
    if instruction == 0 {
        Err("Instruction is zero")
    } else {
        match spec_opcode(instruction) {
            Err(e) => Err(e),
            Ok(op) => match op {
                OpCode::FLD => Err("C.FLD not implemented"),
                OpCode::LW => Ok(
                    Instruction::CLW(spec_rd(instruction), spec_rs(instruction), spec_imm(instruction)),
                ),
                OpCode::FLW => Err("C.FLW not implemented"),
                OpCode::RESERVED => Err("Reserved instruction"),
                OpCode::FSD => Err("C.FSD not implemented"),
                OpCode::SW => Ok(
                    Instruction::CSW(spec_rs(instruction), spec_rd(instruction), spec_imm(instruction)),
                ),
                OpCode::FSW => Err("C.FSW not implemented"),
                OpCode::ADDI4SPN => Ok(
                    Instruction::CADDI4SPN(spec_rd(instruction), spec_addi4spn_imm(instruction)),
                ),
            },
        }
    }
}

/* Valid for CIW, CL and CS */
fn get_rd(inst: u32) -> (r: RDindex)
    ensures
        r == spec_rd(inst),
        8 <= r < 16,
{
    assert((inst >> 2) & 0b111 < 8) by (bit_vector);
    /* Add 8 converts compressed register to actual register number */
    (((inst >> 2) & 0b111) + 8) as RDindex
}

/* Valid for CL and CS */
fn get_rs(inst: u32) -> (r: RS1index)
    ensures
        r == spec_rs(inst),
        8 <= r < 16,
{
    assert((inst >> 7) & 0b111 < 8) by (bit_vector);
    /* Add 8 converts compressed register to actual register number */
    (((inst >> 7) & 0b111) + 8) as RS1index
}

/* Valid for CL and CS */
fn get_imm(inst: u32) -> (r: Immediate)
    ensures
        r == spec_imm(inst),
{
    assert((inst >> 10) & 0b111 < 8) by (bit_vector);
    assert(((inst >> 10) & 0b111) << 3 < 64) by (bit_vector);
    assert(bit(inst, 5, 6) <= 64 && bit(inst, 6, 2) <= 4) by (bit_vector);
    ((((inst >> 10) & 0b111) << 3) + bit_from_to(inst, 5, 6) + bit_from_to(inst, 6, 2)) as i32
}

fn get_opcode(instruction: u32) -> (r: Result<OpCode, &'static str>)
    ensures
        r == spec_opcode(instruction),
{
    match instruction >> 13 {
        0b000 => Ok(OpCode::ADDI4SPN),
        0b001 => Ok(OpCode::FLD),
        0b010 => Ok(OpCode::LW),
        0b011 => Ok(OpCode::FLW),
        0b100 => Ok(OpCode::RESERVED),
        0b101 => Ok(OpCode::FSD),
        0b110 => Ok(OpCode::SW),
        0b111 => Ok(OpCode::FSW),
        _ => Err("Invalid q0 opcode"),
    }
}

/// Decodes a quadrant 0 instruction. Of its eight kinds, C.ADDI4SPN, C.LW and
/// C.SW are supported; the floating point ones and the reserved one are errors,
/// and so is the all-zero instruction.
pub fn decode(instruction: u32) -> (r: Result<Instruction, &'static str>)
    ensures
        r == spec_decode(instruction),
        r matches Ok(i) ==> i.wf() && even_offsets(i) && i.spec_is_compressed(),
{
    if instruction == 0 {
        return Err("Instruction is zero");
    }
    let op = get_opcode(instruction)?;
    let rdindex = get_rd(instruction);
    let rs1index = get_rs(instruction);
    let imm = get_imm(instruction);
    match op {
        OpCode::FLD => Err("C.FLD not implemented"),
        OpCode::LW => Ok(Instruction::CLW(rdindex, rs1index, imm)),
        OpCode::FLW => Err("C.FLW not implemented"),
        OpCode::RESERVED => Err("Reserved instruction"),
        OpCode::FSD => Err("C.FSD not implemented"),
        OpCode::SW => Ok(Instruction::CSW(rs1index, rdindex, imm)),
        OpCode::FSW => Err("C.FSW not implemented"),
        OpCode::ADDI4SPN => {
            assert(spec_addi4spn_imm(instruction) as int == (bit(instruction, 5, 3) + bit(instruction, 6, 2)
                + bit(instruction, 7, 6) + bit(instruction, 8, 7) + bit(instruction, 9, 8)
                + bit(instruction, 10, 9) + bit(instruction, 11, 4) + bit(instruction, 12, 5)) as int) by {
                assert(bit(instruction, 5, 3) <= 8 && bit(instruction, 6, 2) <= 4 && bit(instruction, 7, 6) <= 64
                    && bit(instruction, 8, 7) <= 128 && bit(instruction, 9, 8) <= 256
                    && bit(instruction, 10, 9) <= 512 && bit(instruction, 11, 4) <= 16
                    && bit(instruction, 12, 5) <= 32) by (bit_vector);
            }
            let imm = (bit_from_to(instruction, 5, 3) + bit_from_to(instruction, 6, 2)
                + bit_from_to(instruction, 7, 6) + bit_from_to(instruction, 8, 7)
                + bit_from_to(instruction, 9, 8) + bit_from_to(instruction, 10, 9)
                + bit_from_to(instruction, 11, 4) + bit_from_to(instruction, 12, 5)) as Immediate;
            Ok(Instruction::CADDI4SPN(rdindex, imm))
        },
    }
}

} // verus!
