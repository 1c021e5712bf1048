//! Quadrant 2 of the compressed instructions: stack-pointer based loads and
//! stores, register moves, jumps through a register and the left shift.
use vstd::prelude::*;

use crate::bits::bit_from_to;
use crate::decoder::{bit, even_offsets};
use crate::instructions::{Immediate, Instruction, RDindex, RS1index};

verus! {

#[derive(Debug, PartialEq, Eq, Structural)]
pub enum OpCode {
    SLLI,
    FLDSP,
    LWSP,
    FLWSP,
    MISC,
    FSDSP,
    SWSP,
    FSWSP,
}

pub open spec fn spec_opcode(instruction: u32) -> Result<OpCode, &'static str> {
    let f = instruction >> 13;
    if f == 0 {
        Ok(OpCode::SLLI)
    } else if f == 1 {
        Ok(OpCode::FLDSP)
    } else if f == 2 {
        Ok(OpCode::LWSP)
    } else if f == 3 {
        Ok(OpCode::FLWSP)
    } else if f == 4 {
        Ok(OpCode::MISC)
    } else if f == 5 {
        Ok(OpCode::FSDSP)
    } else if f == 6 {
        Ok(OpCode::SWSP)
    } else if f == 7 {
        Ok(OpCode::FSWSP)
    } else {
        Err("Invalid q2 opcode")
    }
}

/// The full register field in bits 11:7.
pub open spec fn spec_rd(inst: u32) -> RDindex {
    ((inst >> 7) & 0b1_1111) as RDindex
}

/// The full register field in bits 6:2.
pub open spec fn spec_rs(inst: u32) -> RS1index {
    ((inst >> 2) & 0b1_1111) as RS1index
}

/// The offset of C.LWSP: `uimm[5|4:2|7:6]`.
pub open spec fn spec_ci_offset(inst: u32) -> u32 {
    (bit(inst, 2, 6) + bit(inst, 3, 7) + bit(inst, 4, 2) + bit(inst, 5, 3) + bit(inst, 6, 4) + bit(inst, 12, 5)) as u32
}

/// The offset of C.SWSP: `uimm[5:2|7:6]`.
pub open spec fn spec_css_offset(inst: u32) -> u32 {
    (bit(inst, 7, 6) + bit(inst, 8, 7) + bit(inst, 9, 2) + bit(inst, 10, 3) + bit(inst, 11, 4) + bit(inst, 12, 5)) as u32
}

/// The shift amount of C.SLLI: `shamt[5|4:0]`.
pub open spec fn spec_shamt(inst: u32) -> u32 {
    (((inst >> 2) & 0b1_1111) + bit(inst, 12, 5)) as u32
}

/// The decoding of a quadrant 2 instruction.
pub open spec fn spec_decode(instruction: u32) -> Result<Instruction, &'static str> {
    let rd = spec_rd(instruction);
    let rs = spec_rs(instruction);
    match spec_opcode(instruction) {
        Err(e) => Err(e),
        Ok(op) => match op {
            OpCode::SLLI => Ok(Instruction::CSLLI(rd, spec_shamt(instruction) as i32)),
            OpCode::FLDSP => Ok(Instruction::CFLDSP(rd, 0)),
            OpCode::LWSP => Ok(Instruction::CLWSP(rd, spec_ci_offset(instruction) as i32)),
            OpCode::FLWSP => Ok(Instruction::CFLWSP(rd, 0)),
            OpCode::MISC => {
                let opt = (instruction >> 12) & 1 == 1;
                if !opt && rs == 0 {
                    Ok(Instruction::CJR(rd))
                } else if !opt && rs > 0 {
                    Ok(Instruction::CMV(rd, rs))
                } else if opt && rs == 0 && rd == 0 {
                    Ok(Instruction::CEBREAK())
                } else if opt && rs == 0 && rd != 0 {
                    Ok(Instruction::CJALR(rd))
                } else {
                    Ok(Instruction::CADD(rd, rs))
                }
            },
            OpCode::FSDSP => Ok(Instruction::CFSDSP(rs, 0)),
            OpCode::SWSP => Ok(Instruction::CSWSP(rs, spec_css_offset(instruction) as i32)),
            OpCode::FSWSP => Ok(Instruction::CFSWSP(rs, 0)),
        },
    }
}

fn get_opcode(instruction: u32) -> (r: Result<OpCode, &'static str>)
    ensures
        r == spec_opcode(instruction),
{
    match instruction >> 13 {
        0b000 => Ok(OpCode::SLLI),
        0b001 => Ok(OpCode::FLDSP),
        0b010 => Ok(OpCode::LWSP),
        0b011 => Ok(OpCode::FLWSP),
        0b100 => Ok(OpCode::MISC),
        0b101 => Ok(OpCode::FSDSP),
        0b110 => Ok(OpCode::SWSP),
        0b111 => Ok(OpCode::FSWSP),
        _ => Err("Invalid q2 opcode"),
    }
}

fn get_rd(inst: u32) -> (r: RDindex)
    ensures
        r == spec_rd(inst),
        r < 32,
{
    assert((inst >> 7) & 0b1_1111 < 32) by (bit_vector);
    ((inst >> 7) & 0b1_1111) as RDindex
}

fn get_rs(inst: u32) -> (r: RS1index)
    ensures
        r == spec_rs(inst),
        r < 32,
{
    assert((inst >> 2) & 0b1_1111 < 32) by (bit_vector);
    ((inst >> 2) & 0b1_1111) as RS1index
}

fn get_ci_offset(inst: u32) -> (r: u32)
    ensures
        r == spec_ci_offset(inst),
        r < 256,
{
    assert(bit(inst, 2, 6) <= 64 && bit(inst, 3, 7) <= 128 && bit(inst, 4, 2) <= 4 && bit(inst, 5, 3) <= 8
        && bit(inst, 6, 4) <= 16 && bit(inst, 12, 5) <= 32
        && bit(inst, 2, 6) + bit(inst, 3, 7) + bit(inst, 4, 2) + bit(inst, 5, 3) + bit(inst, 6, 4)
        + bit(inst, 12, 5) < 256) by (bit_vector);
    bit_from_to(inst, 2, 6) + bit_from_to(inst, 3, 7) + bit_from_to(inst, 4, 2) + bit_from_to(inst, 5, 3)
        + bit_from_to(inst, 6, 4) + bit_from_to(inst, 12, 5)
}

fn get_css_offset(inst: u32) -> (r: u32)
    ensures
        r == spec_css_offset(inst),
        r < 256,
{
    assert(bit(inst, 7, 6) <= 64 && bit(inst, 8, 7) <= 128 && bit(inst, 9, 2) <= 4 && bit(inst, 10, 3) <= 8
        && bit(inst, 11, 4) <= 16 && bit(inst, 12, 5) <= 32
        && bit(inst, 7, 6) + bit(inst, 8, 7) + bit(inst, 9, 2) + bit(inst, 10, 3) + bit(inst, 11, 4)
        + bit(inst, 12, 5) < 256) by (bit_vector);
    bit_from_to(inst, 7, 6) + bit_from_to(inst, 8, 7) + bit_from_to(inst, 9, 2) + bit_from_to(inst, 10, 3)
        + bit_from_to(inst, 11, 4) + bit_from_to(inst, 12, 5)
}

fn get_shamt(inst: u32) -> (r: u32)
    ensures
        r == spec_shamt(inst),
        r < 64,
{
    assert(((inst >> 2) & 0b1_1111) + bit(inst, 12, 5) < 64) by (bit_vector);
    ((inst >> 2) & 0b1_1111) + bit_from_to(inst, 12, 5)
}

/// Decodes a quadrant 2 instruction. The floating point loads and stores
/// decode with a zero offset.
pub fn decode(instruction: u32) -> (r: Result<Instruction, &'static str>)
    ensures
        r == spec_decode(instruction),
        r matches Ok(i) ==> i.wf() && even_offsets(i) && i.spec_is_compressed(),
{
    let op = get_opcode(instruction)?;
    match op {
        OpCode::SLLI => {
            let rdindex = get_rd(instruction);
            let imm = get_shamt(instruction);
            Ok(Instruction::CSLLI(rdindex, imm as Immediate))
        },
        OpCode::FLDSP => {
            let rdindex = get_rd(instruction);
            let imm: Immediate = 0;
            Ok(Instruction::CFLDSP(rdindex, imm))
        },
        OpCode::LWSP => {
            let rdindex = get_rd(instruction);
            let imm = get_ci_offset(instruction);
            Ok(Instruction::CLWSP(rdindex, imm as Immediate))
        },
        OpCode::FLWSP => {
            let rdindex = get_rd(instruction);
            let imm: Immediate = 0;
            Ok(Instruction::CFLWSP(rdindex, imm))
        },
        OpCode::MISC => {
            let rdindex = get_rd(instruction);
            let rsindex = get_rs(instruction);
            let opt = ((instruction >> 12) & 1) == 1;
            if !opt && rsindex == 0 {
                Ok(Instruction::CJR(rdindex))
            } else if !opt && rsindex > 0 {
                Ok(Instruction::CMV(rdindex, rsindex))
            } else if opt && rsindex == 0 && rdindex == 0 {
                Ok(Instruction::CEBREAK())
            } else if opt && rsindex == 0 && rdindex != 0 {
                Ok(Instruction::CJALR(rdindex))
            } else {
                Ok(Instruction::CADD(rdindex, rsindex))
            }
        },
        OpCode::FSDSP => {
            let rsindex = get_rs(instruction);
            let imm: Immediate = 0;
            Ok(Instruction::CFSDSP(rsindex, imm))
        },
        OpCode::SWSP => {
            let rsindex = get_rs(instruction);
            let imm = get_css_offset(instruction);
            Ok(Instruction::CSWSP(rsindex, imm as Immediate))
        },
        OpCode::FSWSP => {
            let rsindex = get_rs(instruction);
            let imm: Immediate = 0;
            Ok(Instruction::CFSWSP(rsindex, imm))
        },
    }
}

} // verus!
