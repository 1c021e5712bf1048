//! Quadrant 3: the regular 32-bit wide instructions of RV32I, M, A and Zicsr.
use vstd::prelude::*;

use crate::bits::{bit_from_to, lemma_sign_extend_even, sign_extend, spec_sign_extend};
use crate::decoder::{bit, lemma_field_bounds};
use crate::instructions::{Immediate, Instruction, RDindex, RS1index, RS2index};

verus! {

/// The major opcode, bits 6:2 of the instruction.
#[derive(Debug, Clone, Copy, PartialEq, Eq, Structural)]
pub enum OpCode {
    LOAD,
    LOADFP,
    CUSTOM0,
    MISCMEM,
    OPIMM,
    AUIPC,
    OPIMM32,
    LEN48,
    STORE,
    STOREFP,
    CUSTOM1,
    AMO,
    OP,
    LUI,
    OP32,
    LEN64,
    MADD,
    MSUB,
    NMSUB,
    NMADD,
    OPFP,
    RESERVED1,
    CUSTOM2,
    LEN482,
    BRANCH,
    JALR,
    RESERVED2,
    JAL,
    SYSTEM,
    RESERVED3,
    CUSTOM3,
    LEN80,
}

/// The major opcode named by bits 6:2 (bits 6:5 select the row, bits 4:2 the column).
pub open spec fn spec_opcode(instruction: u32) -> OpCode {
    let code = ((instruction >> 5) & 0b11) * 8 + ((instruction >> 2) & 0b111);
        if code == 0 {
            OpCode::LOAD
        } else if code == 1 {
            OpCode::LOADFP
        } else if code == 2 {
            OpCode::CUSTOM0
        } else if code == 3 {
            OpCode::MISCMEM
        } else if code == 4 {
            OpCode::OPIMM
        } else if code == 5 {
            OpCode::AUIPC
        } else if code == 6 {
            OpCode::OPIMM32
        } else if code == 7 {
            OpCode::LEN48
        } else if code == 8 {
            OpCode::STORE
        } else if code == 9 {
            OpCode::STOREFP
        } else if code == 10 {
            OpCode::CUSTOM1
        } else if code == 11 {
            OpCode::AMO
        } else if code == 12 {
            OpCode::OP
        } else if code == 13 {
            OpCode::LUI
        } else if code == 14 {
            OpCode::OP32
        } else if code == 15 {
            OpCode::LEN64
        } else if code == 16 {
            OpCode::MADD
        } else if code == 17 {
            OpCode::MSUB
        } else if code == 18 {
            OpCode::NMSUB
        } else if code == 19 {
            OpCode::NMADD
        } else if code == 20 {
            OpCode::OPFP
        } else if code == 21 {
            OpCode::RESERVED1
        } else if code == 22 {
            OpCode::CUSTOM2
        } else if code == 23 {
            OpCode::LEN482
        } else if code == 24 {
            OpCode::BRANCH
        } else if code == 25 {
            OpCode::JALR
        } else if code == 26 {
            OpCode::RESERVED2
        } else if code == 27 {
            OpCode::JAL
        } else if code == 28 {
            OpCode::SYSTEM
        } else if code == 29 {
            OpCode::RESERVED3
        } else if code == 30 {
            OpCode::CUSTOM3
        } else {
            OpCode::LEN80
        }
}

/// Classifies the major opcode of a 32-bit instruction.
pub fn get_opcode(instruction: u32) -> (r: OpCode)
    ensures
        r == spec_opcode(instruction),
{
    let upper = (instruction >> 5) & 0b11;
    let lower = (instruction >> 2) & 0b111;
    proof {
        lemma_field_bounds(instruction);
    }
    match upper {
        0b00 => {
            match lower {
                0b000 => OpCode::LOAD,
                0b001 => OpCode::LOADFP,
                0b010 => OpCode::CUSTOM0,
                0b011 => OpCode::MISCMEM,
                0b100 => OpCode::OPIMM,
                0b101 => OpCode::AUIPC,
                0b110 => OpCode::OPIMM32,
                _ => OpCode::LEN48,
            }
        },
        0b01 => {
            match lower {
                0b000 => OpCode::STORE,
                0b001 => OpCode::STOREFP,
                0b010 => OpCode::CUSTOM1,
                0b011 => OpCode::AMO,
                0b100 => OpCode::OP,
                0b101 => OpCode::LUI,
                0b110 => OpCode::OP32,
                _ => OpCode::LEN64,
            }
        },
        0b10 => {
            match lower {
                0b000 => OpCode::MADD,
                0b001 => OpCode::MSUB,
                0b010 => OpCode::NMSUB,
                0b011 => OpCode::NMADD,
                0b100 => OpCode::OPFP,
                0b101 => OpCode::RESERVED1,
                0b110 => OpCode::CUSTOM2,
                _ => OpCode::LEN482,
            }
        },
        _ => {
            match lower {
                0b000 => OpCode::BRANCH,
                0b001 => OpCode::JALR,
                0b010 => OpCode::RESERVED2,
                0b011 => OpCode::JAL,
                0b100 => OpCode::SYSTEM,
                0b101 => OpCode::RESERVED3,
                0b110 => OpCode::CUSTOM3,
                _ => OpCode::LEN80,
            }
        },
    }
}

pub open spec fn spec_rd(inst: u32) -> RDindex {
    ((inst >> 7) & 0b1_1111) as RDindex
}

pub open spec fn spec_rs1(inst: u32) -> RS1index {
    ((inst >> 15) & 0b1_1111) as RS1index
}

pub open spec fn spec_rs2(inst: u32) -> RS2index {
    ((inst >> 20) & 0b1_1111) as RS2index
}

pub open spec fn spec_funct3(inst: u32) -> u32 {
    (inst >> 12) & 0b111
}

pub open spec fn spec_funct7(inst: u32) -> u32 {
    inst >> 25
}

/// I-type immediate `imm[11:0]` in bits 31:20, sign-extended.
pub open spec fn spec_imm_i(inst: u32) -> Immediate {
    spec_sign_extend(inst >> 20, 12) as i32
}

/// S-type immediate `imm[11:5]` in bits 31:25 and `imm[4:0]` in bits 11:7, sign-extended.
pub open spec fn spec_imm_s(inst: u32) -> Immediate {
    spec_sign_extend((((inst >> 25) << 5) + ((inst >> 7) & 0b1_1111)) as u32, 12) as i32
}

/// B-type immediate `imm[12|10:5]` in bits 31:25 and `imm[4:1|11]` in bits 11:7, sign-extended.
pub open spec fn spec_imm_b(inst: u32) -> Immediate {
    spec_sign_extend(
        (bit(inst, 31, 12) + bit(inst, 7, 11) + (((inst >> 25) & 0b11_1111) << 5) + (((inst >> 8) & 0b1111) << 1)) as u32,
        13,
    ) as i32
}

/// U-type immediate: the upper 20 bits in place.
pub open spec fn spec_imm_u(inst: u32) -> Immediate {
    (inst & 0xFFFF_F000) as i32
}

/// J-type immediate `imm[20|10:1|11|19:12]` in bits 31:12, sign-extended.
pub open spec fn spec_imm_j(inst: u32) -> Immediate {
    spec_sign_extend(
        (bit(inst, 31, 20) + (((inst >> 12) & 0xFF) << 12) + bit(inst, 20, 11) + (((inst >> 21) & 0x3FF) << 1)) as u32,
        21,
    ) as i32
}

/// The number of the control and status register, bits 31:20.
pub open spec fn spec_csr(inst: u32) -> u32 {
    inst >> 20
}

/// The decoding of a 32-bit instruction.
pub open spec fn spec_decode(inst: u32) -> Result<Instruction, &'static str> {
    let rd = spec_rd(inst);
    let rs1 = spec_rs1(inst);
    let rs2 = spec_rs2(inst);
    let f3 = spec_funct3(inst);
    let f7 = spec_funct7(inst);
    let imm_i = spec_imm_i(inst);
    match spec_opcode(inst) {
        OpCode::LOAD => if f3 == 0 {
            Ok(Instruction::LB(rd, rs1, imm_i))
        } else if f3 == 1 {
            Ok(Instruction::LH(rd, rs1, imm_i))
        } else if f3 == 2 {
            Ok(Instruction::LW(rd, rs1, imm_i))
        } else if f3 == 4 {
            Ok(Instruction::LBU(rd, rs1, imm_i))
        } else if f3 == 5 {
            Ok(Instruction::LHU(rd, rs1, imm_i))
        } else {
            Err("Invalid LOAD instruction")
        },
        OpCode::MISCMEM => if f3 == 0 {
            Ok(Instruction::FENCE(rd, rs1, imm_i))
        } else {
            Err("Unsupported MISC-MEM instruction")
        },
        OpCode::OPIMM => if f3 == 0 {
            Ok(Instruction::ADDI(rd, rs1, imm_i))
        } else if f3 == 2 {
            Ok(Instruction::SLTI(rd, rs1, imm_i))
        } else if f3 == 3 {
            Ok(Instruction::SLTIU(rd, rs1, imm_i))
        } else if f3 == 4 {
            Ok(Instruction::XORI(rd, rs1, imm_i))
        } else if f3 == 6 {
            Ok(Instruction::ORI(rd, rs1, imm_i))
        } else if f3 == 7 {
            Ok(Instruction::ANDI(rd, rs1, imm_i))
        } else if f3 == 1 && f7 == 0 {
            Ok(Instruction::SLLI(rd, rs1, rs2 as i32))
        } else if f3 == 5 && f7 == 0 {
            Ok(Instruction::SRLI(rd, rs1, rs2 as i32))
        } else if f3 == 5 && f7 == 0b010_0000 {
            Ok(Instruction::SRAI(rd, rs1, rs2 as i32))
        } else {
            Err("Invalid OP-IMM instruction")
        },
        OpCode::AUIPC => Ok(Instruction::AUIPC(rd, spec_imm_u(inst))),
        OpCode::STORE => if f3 == 0 {
            Ok(Instruction::SB(rs1, rs2, spec_imm_s(inst)))
        } else if f3 == 1 {
            Ok(Instruction::SH(rs1, rs2, spec_imm_s(inst)))
        } else if f3 == 2 {
            Ok(Instruction::SW(rs1, rs2, spec_imm_s(inst)))
        } else {
            Err("Invalid STORE instruction")
        },
        OpCode::AMO => if f3 != 2 {
            Err("Invalid AMO instruction")
        } else {
            let f5 = f7 >> 2;
            if f5 == 0b00010 && rs2 == 0 {
                Ok(Instruction::LRW(rd, rs1))
            } else if f5 == 0b00011 {
                Ok(Instruction::SCW(rd, rs1, rs2))
            } else if f5 == 0b00001 {
                Ok(Instruction::AMOSWAPW(rd, rs1, rs2))
            } else if f5 == 0b00000 {
                Ok(Instruction::AMOADDW(rd, rs1, rs2))
            } else if f5 == 0b00100 {
                Ok(Instruction::AMOXORW(rd, rs1, rs2))
            } else if f5 == 0b01100 {
                Ok(Instruction::AMOANDW(rd, rs1, rs2))
            } else if f5 == 0b01000 {
                Ok(Instruction::AMOORW(rd, rs1, rs2))
            } else if f5 == 0b10000 {
                Ok(Instruction::AMOMINW(rd, rs1, rs2))
            } else if f5 == 0b10100 {
                Ok(Instruction::AMOMAXW(rd, rs1, rs2))
            } else if f5 == 0b11000 {
                Ok(Instruction::AMOMINUW(rd, rs1, rs2))
            } else if f5 == 0b11100 {
                Ok(Instruction::AMOMAXUW(rd, rs1, rs2))
            } else {
                Err("Invalid AMO instruction")
            }
        },
        OpCode::OP => if f7 == 0 {
            if f3 == 0 {
                Ok(Instruction::ADD(rd, rs1, rs2))
            } else if f3 == 1 {
                Ok(Instruction::SLL(rd, rs1, rs2))
            } else if f3 == 2 {
                Ok(Instruction::SLT(rd, rs1, rs2))
            } else if f3 == 3 {
                Ok(Instruction::SLTU(rd, rs1, rs2))
            } else if f3 == 4 {
                Ok(Instruction::XOR(rd, rs1, rs2))
            } else if f3 == 5 {
                Ok(Instruction::SRL(rd, rs1, rs2))
            } else if f3 == 6 {
                Ok(Instruction::OR(rd, rs1, rs2))
            } else {
                Ok(Instruction::AND(rd, rs1, rs2))
            }
        } else if f7 == 0b010_0000 && f3 == 0 {
            Ok(Instruction::SUB(rd, rs1, rs2))
        } else if f7 == 0b010_0000 && f3 == 5 {
            Ok(Instruction::SRA(rd, rs1, rs2))
        } else if f7 == 1 {
            if f3 == 0 {
                Ok(Instruction::MUL(rd, rs1, rs2))
            } else if f3 == 1 {
                Ok(Instruction::MULH(rd, rs1, rs2))
            } else if f3 == 2 {
                Ok(Instruction::MULHSU(rd, rs1, rs2))
            } else if f3 == 3 {
                Ok(Instruction::MULHU(rd, rs1, rs2))
            } else if f3 == 4 {
                Ok(Instruction::DIV(rd, rs1, rs2))
            } else if f3 == 5 {
                Ok(Instruction::DIVU(rd, rs1, rs2))
            } else if f3 == 6 {
                Ok(Instruction::REM(rd, rs1, rs2))
            } else {
                Ok(Instruction::REMU(rd, rs1, rs2))
            }
        } else {
            Err("Invalid OP instruction")
        },
        OpCode::LUI => Ok(Instruction::LUI(rd, spec_imm_u(inst))),
        OpCode::BRANCH => if f3 == 0 {
            Ok(Instruction::BEQ(rs1, rs2, spec_imm_b(inst)))
        } else if f3 == 1 {
            Ok(Instruction::BNE(rs1, rs2, spec_imm_b(inst)))
        } else if f3 == 4 {
            Ok(Instruction::BLT(rs1, rs2, spec_imm_b(inst)))
        } else if f3 == 5 {
            Ok(Instruction::BGE(rs1, rs2, spec_imm_b(inst)))
        } else if f3 == 6 {
            Ok(Instruction::BLTU(rs1, rs2, spec_imm_b(inst)))
        } else if f3 == 7 {
            Ok(Instruction::BGEU(rs1, rs2, spec_imm_b(inst)))
        } else {
            Err("Invalid BRANCH instruction")
        },
        OpCode::JALR => if f3 == 0 {
            Ok(Instruction::JALR(rd, rs1, imm_i))
        } else {
            Err("Invalid JALR instruction")
        },
        OpCode::JAL => Ok(Instruction::JAL(rd, spec_imm_j(inst))),
        OpCode::SYSTEM => if f3 == 0 {
            let funct12 = spec_csr(inst);
            if funct12 == 0 {
                Ok(Instruction::ECALL())
            } else if funct12 == 1 {
                Ok(Instruction::EBREAK())
            } else if funct12 == 0x302 {
                Ok(Instruction::MRET())
            } else if funct12 == 0x105 {
                Ok(Instruction::WFI())
            } else {
                Err("Unsupported SYSTEM instruction")
            }
        } else if f3 == 1 {
            Ok(Instruction::CSRRW(rd, rs1, spec_csr(inst)))
        } else if f3 == 2 {
            Ok(Instruction::CSRRS(rd, rs1, spec_csr(inst)))
        } else if f3 == 3 {
            Ok(Instruction::CSRRC(rd, rs1, spec_csr(inst)))
        } else if f3 == 5 {
            Ok(Instruction::CSRRWI(rd, rs1, spec_csr(inst)))
        } else if f3 == 6 {
            Ok(Instruction::CSRRSI(rd, rs1, spec_csr(inst)))
        } else if f3 == 7 {
            Ok(Instruction::CSRRCI(rd, rs1, spec_csr(inst)))
        } else {
            Err("Unsupported SYSTEM instruction")
        },
        _ => Err("Unsupported opcode"),
    }
}

fn get_imm_i(inst: u32) -> (r: Immediate)
    ensures
        r == spec_imm_i(inst),
{
    sign_extend(inst >> 20, 12) as i32
}

fn get_imm_s(inst: u32) -> (r: Immediate)
    ensures
        r == spec_imm_s(inst),
{
    assert(((inst >> 25) << 5) + ((inst >> 7) & 0b1_1111) < 4096) by (bit_vector);
    sign_extend(((inst >> 25) << 5) + ((inst >> 7) & 0b1_1111), 12) as i32
}

fn get_imm_b(inst: u32) -> (r: Immediate)
    ensures
        r == spec_imm_b(inst),
        r % 2 == 0,
{
    assert(bit(inst, 31, 12) + bit(inst, 7, 11) + (((inst >> 25) & 0b11_1111) << 5) + (((inst >> 8) & 0b1111) << 1)
        < 8192 && (bit(inst, 31, 12) + bit(inst, 7, 11) + (((inst >> 25) & 0b11_1111) << 5)
        + (((inst >> 8) & 0b1111) << 1)) as u32 & 1 == 0) by (bit_vector);
    let raw = bit_from_to(inst, 31, 12) + bit_from_to(inst, 7, 11) + (((inst >> 25) & 0b11_1111) << 5)
        + (((inst >> 8) & 0b1111) << 1);
    proof {
        lemma_sign_extend_even(raw, 13);
    }
    sign_extend(raw, 13) as i32
}

fn get_imm_j(inst: u32) -> (r: Immediate)
    ensures
        r == spec_imm_j(inst),
        r % 2 == 0,
{
    assert(bit(inst, 31, 20) + (((inst >> 12) & 0xFF) << 12) + bit(inst, 20, 11) + (((inst >> 21) & 0x3FF) << 1)
        < 0x20_0000 && (bit(inst, 31, 20) + (((inst >> 12) & 0xFF) << 12) + bit(inst, 20, 11)
        + (((inst >> 21) & 0x3FF) << 1)) as u32 & 1 == 0) by (bit_vector);
    let raw = bit_from_to(inst, 31, 20) + (((inst >> 12) & 0xFF) << 12) + bit_from_to(inst, 20, 11)
        + (((inst >> 21) & 0x3FF) << 1);
    proof {
        lemma_sign_extend_even(raw, 21);
    }
    sign_extend(raw, 21) as i32
}

/// Decodes a 32-bit instruction of RV32I, M, A (word forms) or Zicsr.
pub fn decode(inst: u32) -> (r: Result<Instruction, &'static str>)
    ensures
        r == spec_decode(inst),
        r matches Ok(i) ==> i.wf() && crate::decoder::even_offsets(i) && !i.spec_is_compressed(),
{
    assert((inst >> 7) & 0b1_1111 < 32 && (inst >> 15) & 0b1_1111 < 32 && (inst >> 20) & 0b1_1111 < 32
        && (inst >> 12) & 0b111 < 8) by (bit_vector);
    let rd = ((inst >> 7) & 0b1_1111) as RDindex;
    let rs1 = ((inst >> 15) & 0b1_1111) as RS1index;
    let rs2 = ((inst >> 20) & 0b1_1111) as RS2index;
    let f3 = (inst >> 12) & 0b111;
    let f7 = inst >> 25;
    let imm_i = get_imm_i(inst);
    match get_opcode(inst) {
        OpCode::LOAD => if f3 == 0 {
            Ok(Instruction::LB(rd, rs1, imm_i))
        } else if f3 == 1 {
            Ok(Instruction::LH(rd, rs1, imm_i))
        } else if f3 == 2 {
            Ok(Instruction::LW(rd, rs1, imm_i))
        } else if f3 == 4 {
            Ok(Instruction::LBU(rd, rs1, imm_i))
        } else if f3 == 5 {
            Ok(Instruction::LHU(rd, rs1, imm_i))
        } else {
            Err("Invalid LOAD instruction")
        },
        OpCode::MISCMEM => if f3 == 0 {
            Ok(Instruction::FENCE(rd, rs1, imm_i))
        } else {
            Err("Unsupported MISC-MEM instruction")
        },
        OpCode::OPIMM => if f3 == 0 {
            Ok(Instruction::ADDI(rd, rs1, imm_i))
        } else if f3 == 2 {
            Ok(Instruction::SLTI(rd, rs1, imm_i))
        } else if f3 == 3 {
            Ok(Instruction::SLTIU(rd, rs1, imm_i))
        } else if f3 == 4 {
            Ok(Instruction::XORI(rd, rs1, imm_i))
        } else if f3 == 6 {
            Ok(Instruction::ORI(rd, rs1, imm_i))
        } else if f3 == 7 {
            Ok(Instruction::ANDI(rd, rs1, imm_i))
        } else if f3 == 1 && f7 == 0 {
            Ok(Instruction::SLLI(rd, rs1, rs2 as i32))
        } else if f3 == 5 && f7 == 0 {
            Ok(Instruction::SRLI(rd, rs1, rs2 as i32))
        } else if f3 == 5 && f7 == 0b010_0000 {
            Ok(Instruction::SRAI(rd, rs1, rs2 as i32))
        } else {
            Err("Invalid OP-IMM instruction")
        },
        OpCode::AUIPC => Ok(Instruction::AUIPC(rd, (inst & 0xFFFF_F000) as i32)),
        OpCode::STORE => if f3 == 0 {
            Ok(Instruction::SB(rs1, rs2, get_imm_s(inst)))
        } else if f3 == 1 {
            Ok(Instruction::SH(rs1, rs2, get_imm_s(inst)))
        } else if f3 == 2 {
            Ok(Instruction::SW(rs1, rs2, get_imm_s(inst)))
        } else {
            Err("Invalid STORE instruction")
        },
        OpCode::AMO => if f3 != 2 {
            Err("Invalid AMO instruction")
        } else {
            let f5 = f7 >> 2;
            if f5 == 0b00010 && rs2 == 0 {
                Ok(Instruction::LRW(rd, rs1))
            } else if f5 == 0b00011 {
                Ok(Instruction::SCW(rd, rs1, rs2))
            } else if f5 == 0b00001 {
                Ok(Instruction::AMOSWAPW(rd, rs1, rs2))
            } else if f5 == 0b00000 {
                Ok(Instruction::AMOADDW(rd, rs1, rs2))
            } else if f5 == 0b00100 {
                Ok(Instruction::AMOXORW(rd, rs1, rs2))
            } else if f5 == 0b01100 {
                Ok(Instruction::AMOANDW(rd, rs1, rs2))
            } else if f5 == 0b01000 {
                Ok(Instruction::AMOORW(rd, rs1, rs2))
            } else if f5 == 0b10000 {
                Ok(Instruction::AMOMINW(rd, rs1, rs2))
            } else if f5 == 0b10100 {
                Ok(Instruction::AMOMAXW(rd, rs1, rs2))
            } else if f5 == 0b11000 {
                Ok(Instruction::AMOMINUW(rd, rs1, rs2))
            } else if f5 == 0b11100 {
                Ok(Instruction::AMOMAXUW(rd, rs1, rs2))
            } else {
                Err("Invalid AMO instruction")
            }
        },
        OpCode::OP => if f7 == 0 {
            if f3 == 0 {
                Ok(Instruction::ADD(rd, rs1, rs2))
            } else if f3 == 1 {
                Ok(Instruction::SLL(rd, rs1, rs2))
            } else if f3 == 2 {
                Ok(Instruction::SLT(rd, rs1, rs2))
            } else if f3 == 3 {
                Ok(Instruction::SLTU(rd, rs1, rs2))
            } else if f3 == 4 {
                Ok(Instruction::XOR(rd, rs1, rs2))
            } else if f3 == 5 {
                Ok(Instruction::SRL(rd, rs1, rs2))
            } else if f3 == 6 {
                Ok(Instruction::OR(rd, rs1, rs2))
            } else {
                Ok(Instruction::AND(rd, rs1, rs2))
            }
        } else if f7 == 0b010_0000 && f3 == 0 {
            Ok(Instruction::SUB(rd, rs1, rs2))
        } else if f7 == 0b010_0000 && f3 == 5 {
            Ok(Instruction::SRA(rd, rs1, rs2))
        } else if f7 == 1 {
            if f3 == 0 {
                Ok(Instruction::MUL(rd, rs1, rs2))
            } else if f3 == 1 {
                Ok(Instruction::MULH(rd, rs1, rs2))
            } else if f3 == 2 {
                Ok(Instruction::MULHSU(rd, rs1, rs2))
            } else if f3 == 3 {
                Ok(Instruction::MULHU(rd, rs1, rs2))
            } else if f3 == 4 {
                Ok(Instruction::DIV(rd, rs1, rs2))
            } else if f3 == 5 {
                Ok(Instruction::DIVU(rd, rs1, rs2))
            } else if f3 == 6 {
                Ok(Instruction::REM(rd, rs1, rs2))
            } else {
                Ok(Instruction::REMU(rd, rs1, rs2))
            }
        } else {
            Err("Invalid OP instruction")
        },
        OpCode::LUI => Ok(Instruction::LUI(rd, (inst & 0xFFFF_F000) as i32)),
        OpCode::BRANCH => if f3 == 0 {
            Ok(Instruction::BEQ(rs1, rs2, get_imm_b(inst)))
        } else if f3 == 1 {
            Ok(Instruction::BNE(rs1, rs2, get_imm_b(inst)))
        } else if f3 == 4 {
            Ok(Instruction::BLT(rs1, rs2, get_imm_b(inst)))
        } else if f3 == 5 {
            Ok(Instruction::BGE(rs1, rs2, get_imm_b(inst)))
        } else if f3 == 6 {
            Ok(Instruction::BLTU(rs1, rs2, get_imm_b(inst)))
        } else if f3 == 7 {
            Ok(Instruction::BGEU(rs1, rs2, get_imm_b(inst)))
        } else {
            Err("Invalid BRANCH instruction")
        },
        OpCode::JALR => if f3 == 0 {
            Ok(Instruction::JALR(rd, rs1, imm_i))
        } else {
            Err("Invalid JALR instruction")
        },
        OpCode::JAL => Ok(Instruction::JAL(rd, get_imm_j(inst))),
        OpCode::SYSTEM => if f3 == 0 {
            let funct12 = inst >> 20;
            if funct12 == 0 {
                Ok(Instruction::ECALL())
            } else if funct12 == 1 {
                Ok(Instruction::EBREAK())
            } else if funct12 == 0x302 {
                Ok(Instruction::MRET())
            } else if funct12 == 0x105 {
                Ok(Instruction::WFI())
            } else {
                Err("Unsupported SYSTEM instruction")
            }
        } else if f3 == 1 {
            Ok(Instruction::CSRRW(rd, rs1, inst >> 20))
        } else if f3 == 2 {
            Ok(Instruction::CSRRS(rd, rs1, inst >> 20))
        } else if f3 == 3 {
            Ok(Instruction::CSRRC(rd, rs1, inst >> 20))
        } else if f3 == 5 {
            Ok(Instruction::CSRRWI(rd, rs1, inst >> 20))
        } else if f3 == 6 {
            Ok(Instruction::CSRRSI(rd, rs1, inst >> 20))
        } else if f3 == 7 {
            Ok(Instruction::CSRRCI(rd, rs1, inst >> 20))
        } else {
            Err("Unsupported SYSTEM instruction")
        },
        _ => Err("Unsupported opcode"),
    }
}

} // verus!
