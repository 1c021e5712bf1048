//! The decoded form of a RISC-V instruction (RV32IMAC plus Zicsr) and what
//! can be asked of it: its extension, its expansion and its text.
use vstd::prelude::*;

use crate::register::{index_to_name, register_abi_name};
use crate::text::{decimal, push_char, push_signed, push_unsigned};

verus! {

/// Index of a general purpose register (`0..32`).
pub type Rindex = usize;
pub type RDindex = Rindex;
pub type RS1index = Rindex;
pub type RS2index = Rindex;

pub type RS1value = u32;
pub type RS2value = u32;

/// A sign-extended immediate; for compressed instructions already scaled
/// to the byte offset or value that the instruction stands for.
pub type Immediate = i32;

/// The number of a control and status register.
pub type CsrIndex = u32;

/// A decoded instruction. Field order follows the assembly operand order:
/// destination first, then sources, then the immediate.
#[derive(Debug, Clone, Copy, PartialEq, Eq, Structural)]
pub enum Instruction {
    LUI(Rindex, Immediate),
    AUIPC(Rindex, Immediate),
    JAL(Rindex, Immediate),
    JALR(Rindex, Rindex, Immediate),
    BEQ(Rindex, Rindex, Immediate),
    BNE(Rindex, Rindex, Immediate),
    BLT(Rindex, Rindex, Immediate),
    BGE(Rindex, Rindex, Immediate),
    BLTU(Rindex, Rindex, Immediate),
    BGEU(Rindex, Rindex, Immediate),
    LB(Rindex, Rindex, Immediate),
    LH(Rindex, Rindex, Immediate),
    LW(Rindex, Rindex, Immediate),
    LBU(Rindex, Rindex, Immediate),
    LHU(Rindex, Rindex, Immediate),
    SB(Rindex, Rindex, Immediate),
    SH(Rindex, Rindex, Immediate),
    SW(Rindex, Rindex, Immediate),
    ADDI(Rindex, Rindex, Immediate),
    SLTI(Rindex, Rindex, Immediate),
    SLTIU(Rindex, Rindex, Immediate),
    XORI(Rindex, Rindex, Immediate),
    ORI(Rindex, Rindex, Immediate),
    ANDI(Rindex, Rindex, Immediate),
    SLLI(Rindex, Rindex, Immediate),
    SRLI(Rindex, Rindex, Immediate),
    SRAI(Rindex, Rindex, Immediate),
    ADD(Rindex, Rindex, Rindex),
    SUB(Rindex, Rindex, Rindex),
    SLL(Rindex, Rindex, Rindex),
    SLT(Rindex, Rindex, Rindex),
    SLTU(Rindex, Rindex, Rindex),
    XOR(Rindex, Rindex, Rindex),
    SRL(Rindex, Rindex, Rindex),
    SRA(Rindex, Rindex, Rindex),
    OR(Rindex, Rindex, Rindex),
    AND(Rindex, Rindex, Rindex),
    FENCE(Rindex, Rindex, Immediate),
    ECALL(),
    EBREAK(),
    MRET(),
    WFI(),
    CSRRW(Rindex, Rindex, CsrIndex),
    CSRRS(Rindex, Rindex, CsrIndex),
    CSRRC(Rindex, Rindex, CsrIndex),
    CSRRWI(Rindex, Rindex, CsrIndex),
    CSRRSI(Rindex, Rindex, CsrIndex),
    CSRRCI(Rindex, Rindex, CsrIndex),
    MUL(Rindex, Rindex, Rindex),
    MULH(Rindex, Rindex, Rindex),
    MULHSU(Rindex, Rindex, Rindex),
    MULHU(Rindex, Rindex, Rindex),
    DIV(Rindex, Rindex, Rindex),
    DIVU(Rindex, Rindex, Rindex),
    REM(Rindex, Rindex, Rindex),
    REMU(Rindex, Rindex, Rindex),
    LRW(Rindex, Rindex),
    SCW(Rindex, Rindex, Rindex),
    AMOSWAPW(Rindex, Rindex, Rindex),
    AMOADDW(Rindex, Rindex, Rindex),
    AMOXORW(Rindex, Rindex, Rindex),
    AMOANDW(Rindex, Rindex, Rindex),
    AMOORW(Rindex, Rindex, Rindex),
    AMOMINW(Rindex, Rindex, Rindex),
    AMOMAXW(Rindex, Rindex, Rindex),
    AMOMINUW(Rindex, Rindex, Rindex),
    AMOMAXUW(Rindex, Rindex, Rindex),
    CADDI4SPN(Rindex, Immediate),
    CFLD(Rindex, Rindex, Immediate),
    CLQ(Rindex, Rindex, Immediate),
    CLW(Rindex, Rindex, Immediate),
    CFLW(Rindex, Rindex, Immediate),
    CLD(Rindex, Rindex, Immediate),
    CFSD(Rindex, Rindex, Immediate),
    CSQ(Rindex, Rindex, Immediate),
    CSW(Rindex, Rindex, Immediate),
    CFSW(Rindex, Rindex, Immediate),
    CSD(Rindex, Rindex, Immediate),
    CNOP(Rindex, Immediate),
    CADDI(Rindex, Immediate),
    CJAL(Immediate),
    CLI(Rindex, Immediate),
    CADDI16SP(Rindex, Immediate),
    CLUI(Rindex, Immediate),
    CSRLI(Rindex, Immediate),
    CSRAI(Rindex, Immediate),
    CANDI(Rindex, Immediate),
    CSUB(Rindex, Rindex),
    CXOR(Rindex, Rindex),
    COR(Rindex, Rindex),
    CAND(Rindex, Rindex),
    CJ(Immediate),
    CBEQZ(Rindex, Immediate),
    CBNEZ(Rindex, Immediate),
    CSLLI(Rindex, Immediate),
    CFLDSP(Rindex, Immediate),
    CLWSP(Rindex, Immediate),
    CFLWSP(Rindex, Immediate),
    CJR(Rindex),
    CMV(Rindex, Rindex),
    CEBREAK(),
    CJALR(Rindex),
    CADD(Rindex, Rindex),
    CFSDSP(Rindex, Immediate),
    CSWSP(Rindex, Immediate),
    CFSWSP(Rindex, Immediate),
}

/// One operand as it is shown in an instruction's text.
#[derive(Debug, Clone, Copy, PartialEq, Eq, Structural)]
pub enum Operand {
    Reg(Rindex),
    Imm(i64),
}

/// How an instruction is shown: as assembly (`addi a0, a0, 1`) or, for the
/// instructions without an assembly form here, as its debug form (`LRW(10, 11)`).
#[derive(Debug, Clone, Copy, PartialEq, Eq, Structural)]
pub enum PrintStyle {
    Assembly,
    Debug,
}

/// Text of one operand in assembly: a register by its ABI name, an immediate in decimal.
pub open spec fn operand_text(op: Operand) -> Seq<char> {
    match op {
        Operand::Reg(r) => register_abi_name(r)@,
        Operand::Imm(v) => decimal(v as int),
    }
}

/// Text of one operand in the debug form: every field in decimal.
pub open spec fn debug_text(op: Operand) -> Seq<char> {
    match op {
        Operand::Reg(r) => decimal(r as int),
        Operand::Imm(v) => decimal(v as int),
    }
}

/// The pieces joined by `", "`.
pub open spec fn join_comma(parts: Seq<Seq<char>>) -> Seq<char>
    decreases parts.len(),
{
    if parts.len() == 0 {
        Seq::empty()
    } else if parts.len() == 1 {
        parts[0]
    } else {
        join_comma(parts.drop_last()) + seq![',', ' '] + parts.last()
    }
}

/// The text of an instruction with the given style, name and operands.
pub open spec fn render(style: PrintStyle, name: &'static str, ops: Seq<Operand>) -> Seq<char> {
    if ops.len() == 0 {
        name@
    } else {
        match style {
            PrintStyle::Assembly => name@ + seq![' '] + join_comma(ops.map_values(|o: Operand| operand_text(o))),
            PrintStyle::Debug => name@ + seq!['('] + join_comma(ops.map_values(|o: Operand| debug_text(o))) + seq![')'],
        }
    }
}

/// An operand whose text can be produced: a register below 32, or an
/// immediate in the range of `i32` or `u32`.
pub open spec fn operand_ok(op: Operand) -> bool {
    match op {
        Operand::Reg(r) => r < 32,
        Operand::Imm(v) => i32::MIN <= v <= u32::MAX,
    }
}

impl Instruction {
    /// Every register field names one of the 32 general purpose registers.
    pub open spec fn wf(self) -> bool {
        match self {
            Instruction::LUI(f0, _) => f0 < 32,
            Instruction::AUIPC(f0, _) => f0 < 32,
            Instruction::JAL(f0, _) => f0 < 32,
            Instruction::JALR(f0, f1, _) => f0 < 32 && f1 < 32,
            Instruction::BEQ(f0, f1, _) => f0 < 32 && f1 < 32,
            Instruction::BNE(f0, f1, _) => f0 < 32 && f1 < 32,
            Instruction::BLT(f0, f1, _) => f0 < 32 && f1 < 32,
            Instruction::BGE(f0, f1, _) => f0 < 32 && f1 < 32,
            Instruction::BLTU(f0, f1, _) => f0 < 32 && f1 < 32,
            Instruction::BGEU(f0, f1, _) => f0 < 32 && f1 < 32,
            Instruction::LB(f0, f1, _) => f0 < 32 && f1 < 32,
            Instruction::LH(f0, f1, _) => f0 < 32 && f1 < 32,
            Instruction::LW(f0, f1, _) => f0 < 32 && f1 < 32,
            Instruction::LBU(f0, f1, _) => f0 < 32 && f1 < 32,
            Instruction::LHU(f0, f1, _) => f0 < 32 && f1 < 32,
            Instruction::SB(f0, f1, _) => f0 < 32 && f1 < 32,
            Instruction::SH(f0, f1, _) => f0 < 32 && f1 < 32,
            Instruction::SW(f0, f1, _) => f0 < 32 && f1 < 32,
            Instruction::ADDI(f0, f1, _) => f0 < 32 && f1 < 32,
            Instruction::SLTI(f0, f1, _) => f0 < 32 && f1 < 32,
            Instruction::SLTIU(f0, f1, _) => f0 < 32 && f1 < 32,
            Instruction::XORI(f0, f1, _) => f0 < 32 && f1 < 32,
            Instruction::ORI(f0, f1, _) => f0 < 32 && f1 < 32,
            Instruction::ANDI(f0, f1, _) => f0 < 32 && f1 < 32,
            Instruction::SLLI(f0, f1, _) => f0 < 32 && f1 < 32,
            Instruction::SRLI(f0, f1, _) => f0 < 32 && f1 < 32,
            Instruction::SRAI(f0, f1, _) => f0 < 32 && f1 < 32,
            Instruction::ADD(f0, f1, f2) => f0 < 32 && f1 < 32 && f2 < 32,
            Instruction::SUB(f0, f1, f2) => f0 < 32 && f1 < 32 && f2 < 32,
            Instruction::SLL(f0, f1, f2) => f0 < 32 && f1 < 32 && f2 < 32,
            Instruction::SLT(f0, f1, f2) => f0 < 32 && f1 < 32 && f2 < 32,
            Instruction::SLTU(f0, f1, f2) => f0 < 32 && f1 < 32 && f2 < 32,
            Instruction::XOR(f0, f1, f2) => f0 < 32 && f1 < 32 && f2 < 32,
            Instruction::SRL(f0, f1, f2) => f0 < 32 && f1 < 32 && f2 < 32,
            Instruction::SRA(f0, f1, f2) => f0 < 32 && f1 < 32 && f2 < 32,
            Instruction::OR(f0, f1, f2) => f0 < 32 && f1 < 32 && f2 < 32,
            Instruction::AND(f0, f1, f2) => f0 < 32 && f1 < 32 && f2 < 32,
            Instruction::FENCE(f0, f1, _) => f0 < 32 && f1 < 32,
            Instruction::ECALL() => true,
            Instruction::EBREAK() => true,
            Instruction::MRET() => true,
            Instruction::WFI() => true,
            Instruction::CSRRW(f0, f1, _) => f0 < 32 && f1 < 32,
            Instruction::CSRRS(f0, f1, _) => f0 < 32 && f1 < 32,
            Instruction::CSRRC(f0, f1, _) => f0 < 32 && f1 < 32,
            Instruction::CSRRWI(f0, f1, _) => f0 < 32 && f1 < 32,
            Instruction::CSRRSI(f0, f1, _) => f0 < 32 && f1 < 32,
            Instruction::CSRRCI(f0, f1, _) => f0 < 32 && f1 < 32,
            Instruction::MUL(f0, f1, f2) => f0 < 32 && f1 < 32 && f2 < 32,
            Instruction::MULH(f0, f1, f2) => f0 < 32 && f1 < 32 && f2 < 32,
            Instruction::MULHSU(f0, f1, f2) => f0 < 32 && f1 < 32 && f2 < 32,
            Instruction::MULHU(f0, f1, f2) => f0 < 32 && f1 < 32 && f2 < 32,
            Instruction::DIV(f0, f1, f2) => f0 < 32 && f1 < 32 && f2 < 32,
            Instruction::DIVU(f0, f1, f2) => f0 < 32 && f1 < 32 && f2 < 32,
            Instruction::REM(f0, f1, f2) => f0 < 32 && f1 < 32 && f2 < 32,
            Instruction::REMU(f0, f1, f2) => f0 < 32 && f1 < 32 && f2 < 32,
            Instruction::LRW(f0, f1) => f0 < 32 && f1 < 32,
            Instruction::SCW(f0, f1, f2) => f0 < 32 && f1 < 32 && f2 < 32,
            Instruction::AMOSWAPW(f0, f1, f2) => f0 < 32 && f1 < 32 && f2 < 32,
            Instruction::AMOADDW(f0, f1, f2) => f0 < 32 && f1 < 32 && f2 < 32,
            Instruction::AMOXORW(f0, f1, f2) => f0 < 32 && f1 < 32 && f2 < 32,
            Instruction::AMOANDW(f0, f1, f2) => f0 < 32 && f1 < 32 && f2 < 32,
            Instruction::AMOORW(f0, f1, f2) => f0 < 32 && f1 < 32 && f2 < 32,
            Instruction::AMOMINW(f0, f1, f2) => f0 < 32 && f1 < 32 && f2 < 32,
            Instruction::AMOMAXW(f0, f1, f2) => f0 < 32 && f1 < 32 && f2 < 32,
            Instruction::AMOMINUW(f0, f1, f2) => f0 < 32 && f1 < 32 && f2 < 32,
            Instruction::AMOMAXUW(f0, f1, f2) => f0 < 32 && f1 < 32 && f2 < 32,
            Instruction::CADDI4SPN(f0, _) => f0 < 32,
            Instruction::CFLD(f0, f1, _) => f0 < 32 && f1 < 32,
            Instruction::CLQ(f0, f1, _) => f0 < 32 && f1 < 32,
            Instruction::CLW(f0, f1, _) => f0 < 32 && f1 < 32,
            Instruction::CFLW(f0, f1, _) => f0 < 32 && f1 < 32,
            Instruction::CLD(f0, f1, _) => f0 < 32 && f1 < 32,
            Instruction::CFSD(f0, f1, _) => f0 < 32 && f1 < 32,
            Instruction::CSQ(f0, f1, _) => f0 < 32 && f1 < 32,
            Instruction::CSW(f0, f1, _) => f0 < 32 && f1 < 32,
            Instruction::CFSW(f0, f1, _) => f0 < 32 && f1 < 32,
            Instruction::CSD(f0, f1, _) => f0 < 32 && f1 < 32,
            Instruction::CNOP(f0, _) => f0 < 32,
            Instruction::CADDI(f0, _) => f0 < 32,
            Instruction::CJAL(_) => true,
            Instruction::CLI(f0, _) => f0 < 32,
            Instruction::CADDI16SP(f0, _) => f0 < 32,
            Instruction::CLUI(f0, _) => f0 < 32,
            Instruction::CSRLI(f0, _) => f0 < 32,
            Instruction::CSRAI(f0, _) => f0 < 32,
            Instruction::CANDI(f0, _) => f0 < 32,
            Instruction::CSUB(f0, f1) => f0 < 32 && f1 < 32,
            Instruction::CXOR(f0, f1) => f0 < 32 && f1 < 32,
            Instruction::COR(f0, f1) => f0 < 32 && f1 < 32,
            Instruction::CAND(f0, f1) => f0 < 32 && f1 < 32,
            Instruction::CJ(_) => true,
            Instruction::CBEQZ(f0, _) => f0 < 32,
            Instruction::CBNEZ(f0, _) => f0 < 32,
            Instruction::CSLLI(f0, _) => f0 < 32,
            Instruction::CFLDSP(f0, _) => f0 < 32,
            Instruction::CLWSP(f0, _) => f0 < 32,
            Instruction::CFLWSP(f0, _) => f0 < 32,
            Instruction::CJR(f0) => f0 < 32,
            Instruction::CMV(f0, f1) => f0 < 32 && f1 < 32,
            Instruction::CEBREAK() => true,
            Instruction::CJALR(f0) => f0 < 32,
            Instruction::CADD(f0, f1) => f0 < 32 && f1 < 32,
            Instruction::CFSDSP(f0, _) => f0 < 32,
            Instruction::CSWSP(f0, _) => f0 < 32,
            Instruction::CFSWSP(f0, _) => f0 < 32,
        }
    }

    pub open spec fn spec_is_zicsr(self) -> bool {
        matches!(self, Instruction::CSRRW(..)
                | Instruction::CSRRS(..)
                | Instruction::CSRRC(..)
                | Instruction::CSRRWI(..)
                | Instruction::CSRRSI(..)
                | Instruction::CSRRCI(..))
    }

    pub open spec fn spec_is_m(self) -> bool {
        matches!(self, Instruction::MUL(..)
                | Instruction::MULH(..)
                | Instruction::MULHSU(..)
                | Instruction::MULHU(..)
                | Instruction::DIV(..)
                | Instruction::DIVU(..)
                | Instruction::REM(..)
                | Instruction::REMU(..))
    }

    pub open spec fn spec_is_compressed(self) -> bool {
        matches!(self, Instruction::CADDI4SPN(..)
                | Instruction::CFLD(..)
                | Instruction::CLQ(..)
                | Instruction::CLW(..)
                | Instruction::CFLW(..)
                | Instruction::CLD(..)
                | Instruction::CFSD(..)
                | Instruction::CSQ(..)
                | Instruction::CSW(..)
                | Instruction::CFSW(..)
                | Instruction::CSD(..)
                | Instruction::CNOP(..)
                | Instruction::CADDI(..)
                | Instruction::CJAL(..)
                | Instruction::CLI(..)
                | Instruction::CADDI16SP(..)
                | Instruction::CLUI(..)
                | Instruction::CSRLI(..)
                | Instruction::CSRAI(..)
                | Instruction::CANDI(..)
                | Instruction::CSUB(..)
                | Instruction::CXOR(..)
                | Instruction::COR(..)
                | Instruction::CAND(..)
                | Instruction::CJ(..)
                | Instruction::CBEQZ(..)
                | Instruction::CBNEZ(..)
                | Instruction::CSLLI(..)
                | Instruction::CFLDSP(..)
                | Instruction::CLWSP(..)
                | Instruction::CFLWSP(..)
                | Instruction::CJR(..)
                | Instruction::CMV(..)
                | Instruction::CEBREAK()
                | Instruction::CJALR(..)
                | Instruction::CADD(..)
                | Instruction::CFSDSP(..)
                | Instruction::CSWSP(..)
                | Instruction::CFSWSP(..))
    }

    /// True for the control and status register instructions (Zicsr).
    pub fn is_zicsr(&self) -> (r: bool)
        ensures
            r == self.spec_is_zicsr(),
    {
        matches!(self, Instruction::CSRRW(..)
                | Instruction::CSRRS(..)
                | Instruction::CSRRC(..)
                | Instruction::CSRRWI(..)
                | Instruction::CSRRSI(..)
                | Instruction::CSRRCI(..))
    }

    /// True for the multiplication and division instructions (M).
    pub fn is_m(&self) -> (r: bool)
        ensures
            r == self.spec_is_m(),
    {
        matches!(self, Instruction::MUL(..)
                | Instruction::MULH(..)
                | Instruction::MULHSU(..)
                | Instruction::MULHU(..)
                | Instruction::DIV(..)
                | Instruction::DIVU(..)
                | Instruction::REM(..)
                | Instruction::REMU(..))
    }

    /// True for the 16-bit compressed instructions (C).
    pub fn is_compressed(&self) -> (r: bool)
        ensures
            r == self.spec_is_compressed(),
    {
        matches!(self, Instruction::CADDI4SPN(..)
                | Instruction::CFLD(..)
                | Instruction::CLQ(..)
                | Instruction::CLW(..)
                | Instruction::CFLW(..)
                | Instruction::CLD(..)
                | Instruction::CFSD(..)
                | Instruction::CSQ(..)
                | Instruction::CSW(..)
                | Instruction::CFSW(..)
                | Instruction::CSD(..)
                | Instruction::CNOP(..)
                | Instruction::CADDI(..)
                | Instruction::CJAL(..)
                | Instruction::CLI(..)
                | Instruction::CADDI16SP(..)
                | Instruction::CLUI(..)
                | Instruction::CSRLI(..)
                | Instruction::CSRAI(..)
                | Instruction::CANDI(..)
                | Instruction::CSUB(..)
                | Instruction::CXOR(..)
                | Instruction::COR(..)
                | Instruction::CAND(..)
                | Instruction::CJ(..)
                | Instruction::CBEQZ(..)
                | Instruction::CBNEZ(..)
                | Instruction::CSLLI(..)
                | Instruction::CFLDSP(..)
                | Instruction::CLWSP(..)
                | Instruction::CFLWSP(..)
                | Instruction::CJR(..)
                | Instruction::CMV(..)
                | Instruction::CEBREAK()
                | Instruction::CJALR(..)
                | Instruction::CADD(..)
                | Instruction::CFSDSP(..)
                | Instruction::CSWSP(..)
                | Instruction::CFSWSP(..))
    }

    /// The 32-bit instruction that this one stands for: itself when it is not
    /// compressed, its expansion when it is, and `None` for the compressed
    /// floating point and RV64/RV128 forms, which have none on this core.
    pub open spec fn spec_decompress(self) -> Option<Instruction> {
        match self {
            Instruction::CADDI4SPN(rd, imm) => Some(Instruction::ADDI(rd, 2, imm)),
            Instruction::CLW(rd, rs1, imm) => Some(Instruction::LW(rd, rs1, imm)),
            Instruction::CSW(rs1, rs2, imm) => Some(Instruction::SW(rs1, rs2, imm)),
            Instruction::CNOP(_, _) => Some(Instruction::ADDI(0, 0, 0)),
            Instruction::CADDI(rd, imm) => Some(Instruction::ADDI(rd, rd, imm)),
            Instruction::CJAL(imm) => Some(Instruction::JAL(1, imm)),
            Instruction::CLI(rd, imm) => Some(Instruction::ADDI(rd, 0, imm)),
            Instruction::CADDI16SP(rd, imm) => Some(Instruction::ADDI(rd, rd, imm)),
            Instruction::CLUI(rd, imm) => Some(Instruction::LUI(rd, imm)),
            Instruction::CSRLI(rd, imm) => Some(Instruction::SRLI(rd, rd, imm)),
            Instruction::CSRAI(rd, imm) => Some(Instruction::SRAI(rd, rd, imm)),
            Instruction::CANDI(rd, imm) => Some(Instruction::ANDI(rd, rd, imm)),
            Instruction::CSUB(rd, rs2) => Some(Instruction::SUB(rd, rd, rs2)),
            Instruction::CXOR(rd, rs2) => Some(Instruction::XOR(rd, rd, rs2)),
            Instruction::COR(rd, rs2) => Some(Instruction::OR(rd, rd, rs2)),
            Instruction::CAND(rd, rs2) => Some(Instruction::AND(rd, rd, rs2)),
            Instruction::CJ(imm) => Some(Instruction::JAL(0, imm)),
            Instruction::CBEQZ(rs1, imm) => Some(Instruction::BEQ(rs1, 0, imm)),
            Instruction::CBNEZ(rs1, imm) => Some(Instruction::BNE(rs1, 0, imm)),
            Instruction::CSLLI(rd, imm) => Some(Instruction::SLLI(rd, rd, imm)),
            Instruction::CLWSP(rd, imm) => Some(Instruction::LW(rd, 2, imm)),
            Instruction::CJR(rs1) => Some(Instruction::JALR(0, rs1, 0)),
            Instruction::CMV(rd, rs2) => Some(Instruction::ADD(rd, 0, rs2)),
            Instruction::CEBREAK() => Some(Instruction::EBREAK()),
            Instruction::CJALR(rs1) => Some(Instruction::JALR(1, rs1, 0)),
            Instruction::CADD(rd, rs2) => Some(Instruction::ADD(rd, rd, rs2)),
            Instruction::CSWSP(rs2, imm) => Some(Instruction::SW(2, rs2, imm)),
            Instruction::CFLD(..)
            | Instruction::CLQ(..)
            | Instruction::CFLW(..)
            | Instruction::CLD(..)
            | Instruction::CFSD(..)
            | Instruction::CSQ(..)
            | Instruction::CFSW(..)
            | Instruction::CSD(..)
            | Instruction::CFLDSP(..)
            | Instruction::CFLWSP(..)
            | Instruction::CFSDSP(..)
            | Instruction::CFSWSP(..) => None,
            other => Some(other),
        }
    }

    /// Expands a compressed instruction into the 32-bit instruction it stands for.
    pub fn decompress(&self) -> (r: Option<Instruction>)
        ensures
            r == self.spec_decompress(),
    {
        match *self {
            Instruction::CADDI4SPN(rd, imm) => Some(Instruction::ADDI(rd, 2, imm)),
            Instruction::CLW(rd, rs1, imm) => Some(Instruction::LW(rd, rs1, imm)),
            Instruction::CSW(rs1, rs2, imm) => Some(Instruction::SW(rs1, rs2, imm)),
            Instruction::CNOP(_, _) => Some(Instruction::ADDI(0, 0, 0)),
            Instruction::CADDI(rd, imm) => Some(Instruction::ADDI(rd, rd, imm)),
            Instruction::CJAL(imm) => Some(Instruction::JAL(1, imm)),
            Instruction::CLI(rd, imm) => Some(Instruction::ADDI(rd, 0, imm)),
            Instruction::CADDI16SP(rd, imm) => Some(Instruction::ADDI(rd, rd, imm)),
            Instruction::CLUI(rd, imm) => Some(Instruction::LUI(rd, imm)),
            Instruction::CSRLI(rd, imm) => Some(Instruction::SRLI(rd, rd, imm)),
            Instruction::CSRAI(rd, imm) => Some(Instruction::SRAI(rd, rd, imm)),
            Instruction::CANDI(rd, imm) => Some(Instruction::ANDI(rd, rd, imm)),
            Instruction::CSUB(rd, rs2) => Some(Instruction::SUB(rd, rd, rs2)),
            Instruction::CXOR(rd, rs2) => Some(Instruction::XOR(rd, rd, rs2)),
            Instruction::COR(rd, rs2) => Some(Instruction::OR(rd, rd, rs2)),
            Instruction::CAND(rd, rs2) => Some(Instruction::AND(rd, rd, rs2)),
            Instruction::CJ(imm) => Some(Instruction::JAL(0, imm)),
            Instruction::CBEQZ(rs1, imm) => Some(Instruction::BEQ(rs1, 0, imm)),
            Instruction::CBNEZ(rs1, imm) => Some(Instruction::BNE(rs1, 0, imm)),
            Instruction::CSLLI(rd, imm) => Some(Instruction::SLLI(rd, rd, imm)),
            Instruction::CLWSP(rd, imm) => Some(Instruction::LW(rd, 2, imm)),
            Instruction::CJR(rs1) => Some(Instruction::JALR(0, rs1, 0)),
            Instruction::CMV(rd, rs2) => Some(Instruction::ADD(rd, 0, rs2)),
            Instruction::CEBREAK() => Some(Instruction::EBREAK()),
            Instruction::CJALR(rs1) => Some(Instruction::JALR(1, rs1, 0)),
            Instruction::CADD(rd, rs2) => Some(Instruction::ADD(rd, rd, rs2)),
            Instruction::CSWSP(rs2, imm) => Some(Instruction::SW(2, rs2, imm)),
            Instruction::CFLD(..)
            | Instruction::CLQ(..)
            | Instruction::CFLW(..)
            | Instruction::CLD(..)
            | Instruction::CFSD(..)
            | Instruction::CSQ(..)
            | Instruction::CFSW(..)
            | Instruction::CSD(..)
            | Instruction::CFLDSP(..)
            | Instruction::CFLWSP(..)
            | Instruction::CFSDSP(..)
            | Instruction::CFSWSP(..) => None,
            other => Some(other),
        }
    }

    /// The name shown for the instruction.
    pub open spec fn name(self) -> &'static str {
        match self {
            Instruction::LUI(_, _) => "lui",
            Instruction::AUIPC(_, _) => "auipc",
            Instruction::JAL(_, _) => "jal",
            Instruction::JALR(_, _, _) => "jalr",
            Instruction::BEQ(_, _, _) => "beq",
            Instruction::BNE(_, _, _) => "bne",
            Instruction::BLT(_, _, _) => "blt",
            Instruction::BGE(_, _, _) => "bge",
            Instruction::BLTU(_, _, _) => "bltu",
            Instruction::BGEU(_, _, _) => "bgeu",
            Instruction::LB(_, _, _) => "lb",
            Instruction::LH(_, _, _) => "lh",
            Instruction::LW(_, _, _) => "lw",
            Instruction::LBU(_, _, _) => "lbu",
            Instruction::LHU(_, _, _) => "lhu",
            Instruction::SB(_, _, _) => "sb",
            Instruction::SH(_, _, _) => "sh",
            Instruction::SW(_, _, _) => "sw",
            Instruction::ADDI(_, _, _) => "addi",
            Instruction::SLTI(_, _, _) => "slti",
            Instruction::SLTIU(_, _, _) => "sltiu",
            Instruction::XORI(_, _, _) => "xori",
            Instruction::ORI(_, _, _) => "ori",
            Instruction::ANDI(_, _, _) => "andi",
            Instruction::SLLI(_, _, _) => "slli",
            Instruction::SRLI(_, _, _) => "srli",
            Instruction::SRAI(_, _, _) => "srai",
            Instruction::ADD(_, _, _) => "add",
            Instruction::SUB(_, _, _) => "sub",
            Instruction::SLL(_, _, _) => "sll",
            Instruction::SLT(_, _, _) => "slt",
            Instruction::SLTU(_, _, _) => "sltu",
            Instruction::XOR(_, _, _) => "xor",
            Instruction::SRL(_, _, _) => "srl",
            Instruction::SRA(_, _, _) => "sra",
            Instruction::OR(_, _, _) => "or",
            Instruction::AND(_, _, _) => "and",
            Instruction::FENCE(_, _, _) => "fence",
            Instruction::ECALL() => "ecall",
            Instruction::EBREAK() => "ebreak",
            Instruction::MRET() => "mret",
            Instruction::WFI() => "WFI",
            Instruction::CSRRW(_, _, _) => "csrrw",
            Instruction::CSRRS(_, _, _) => "csrrs",
            Instruction::CSRRC(_, _, _) => "csrrc",
            Instruction::CSRRWI(_, _, _) => "csrrwi",
            Instruction::CSRRSI(_, _, _) => "csrrsi",
            Instruction::CSRRCI(_, _, _) => "csrrci",
            Instruction::MUL(_, _, _) => "mul",
            Instruction::MULH(_, _, _) => "mulh",
            Instruction::MULHSU(_, _, _) => "mulhsu",
            Instruction::MULHU(_, _, _) => "mulhu",
            Instruction::DIV(_, _, _) => "div",
            Instruction::DIVU(_, _, _) => "divu",
            Instruction::REM(_, _, _) => "rem",
            Instruction::REMU(_, _, _) => "remu",
            Instruction::LRW(_, _) => "LRW",
            Instruction::SCW(_, _, _) => "SCW",
            Instruction::AMOSWAPW(_, _, _) => "AMOSWAPW",
            Instruction::AMOADDW(_, _, _) => "AMOADDW",
            Instruction::AMOXORW(_, _, _) => "AMOXORW",
            Instruction::AMOANDW(_, _, _) => "AMOANDW",
            Instruction::AMOORW(_, _, _) => "AMOORW",
            Instruction::AMOMINW(_, _, _) => "AMOMINW",
            Instruction::AMOMAXW(_, _, _) => "AMOMAXW",
            Instruction::AMOMINUW(_, _, _) => "AMOMINUW",
            Instruction::AMOMAXUW(_, _, _) => "AMOMAXUW",
            Instruction::CADDI4SPN(_, _) => "C.ADDI4SPN",
            Instruction::CFLD(_, _, _) => "C.FLD",
            Instruction::CLQ(_, _, _) => "C.LQ",
            Instruction::CLW(_, _, _) => "C.LW",
            Instruction::CFLW(_, _, _) => "C.FLW",
            Instruction::CLD(_, _, _) => "C.LD",
            Instruction::CFSD(_, _, _) => "C.FSD",
            Instruction::CSQ(_, _, _) => "C.SQ",
            Instruction::CSW(_, _, _) => "C.SW",
            Instruction::CFSW(_, _, _) => "C.FSW",
            Instruction::CSD(_, _, _) => "C.SD",
            Instruction::CNOP(_, _) => "C.NOP",
            Instruction::CADDI(_, _) => "C.ADDI",
            Instruction::CJAL(_) => "C.JAL",
            Instruction::CLI(_, _) => "C.LI",
            Instruction::CADDI16SP(_, _) => "C.ADDI16SP",
            Instruction::CLUI(_, _) => "C.LUI",
            Instruction::CSRLI(_, _) => "C.SRLI",
            Instruction::CSRAI(_, _) => "C.SRAI",
            Instruction::CANDI(_, _) => "C.ANDI",
            Instruction::CSUB(_, _) => "C.SUB",
            Instruction::CXOR(_, _) => "C.XOR",
            Instruction::COR(_, _) => "C.OR",
            Instruction::CAND(_, _) => "C.AND",
            Instruction::CJ(_) => "C.J",
            Instruction::CBEQZ(_, _) => "C.BEQZ",
            Instruction::CBNEZ(_, _) => "C.BNEZ",
            Instruction::CSLLI(_, _) => "C.SLLI",
            Instruction::CFLDSP(_, _) => "C.FLDSP",
            Instruction::CLWSP(_, _) => "C.LWSP",
            Instruction::CFLWSP(_, _) => "C.FLWSP",
            Instruction::CJR(_) => "C.JR",
            Instruction::CMV(_, _) => "C.MV",
            Instruction::CEBREAK() => "C.EBREAK",
            Instruction::CJALR(_) => "C.JALR",
            Instruction::CADD(_, _) => "C.ADD",
            Instruction::CFSDSP(_, _) => "C.FSDSP",
            Instruction::CSWSP(_, _) => "C.FSDSP",
            Instruction::CFSWSP(_, _) => "C.FSDSP",
        }
    }

    /// The position of the instruction's kind in the list of kinds, which
    /// tells kinds apart whatever their operands.
    pub open spec fn kind_number(self) -> nat {
        match self {
            Instruction::LUI(..) => 0,
            Instruction::AUIPC(..) => 1,
            Instruction::JAL(..) => 2,
            Instruction::JALR(..) => 3,
            Instruction::BEQ(..) => 4,
            Instruction::BNE(..) => 5,
            Instruction::BLT(..) => 6,
            Instruction::BGE(..) => 7,
            Instruction::BLTU(..) => 8,
            Instruction::BGEU(..) => 9,
            Instruction::LB(..) => 10,
            Instruction::LH(..) => 11,
            Instruction::LW(..) => 12,
            Instruction::LBU(..) => 13,
            Instruction::LHU(..) => 14,
            Instruction::SB(..) => 15,
            Instruction::SH(..) => 16,
            Instruction::SW(..) => 17,
            Instruction::ADDI(..) => 18,
            Instruction::SLTI(..) => 19,
            Instruction::SLTIU(..) => 20,
            Instruction::XORI(..) => 21,
            Instruction::ORI(..) => 22,
            Instruction::ANDI(..) => 23,
            Instruction::SLLI(..) => 24,
            Instruction::SRLI(..) => 25,
            Instruction::SRAI(..) => 26,
            Instruction::ADD(..) => 27,
            Instruction::SUB(..) => 28,
            Instruction::SLL(..) => 29,
            Instruction::SLT(..) => 30,
            Instruction::SLTU(..) => 31,
            Instruction::XOR(..) => 32,
            Instruction::SRL(..) => 33,
            Instruction::SRA(..) => 34,
            Instruction::OR(..) => 35,
            Instruction::AND(..) => 36,
            Instruction::FENCE(..) => 37,
            Instruction::ECALL(..) => 38,
            Instruction::EBREAK(..) => 39,
            Instruction::MRET(..) => 40,
            Instruction::WFI(..) => 41,
            Instruction::CSRRW(..) => 42,
            Instruction::CSRRS(..) => 43,
            Instruction::CSRRC(..) => 44,
            Instruction::CSRRWI(..) => 45,
            Instruction::CSRRSI(..) => 46,
            Instruction::CSRRCI(..) => 47,
            Instruction::MUL(..) => 48,
            Instruction::MULH(..) => 49,
            Instruction::MULHSU(..) => 50,
            Instruction::MULHU(..) => 51,
            Instruction::DIV(..) => 52,
            Instruction::DIVU(..) => 53,
            Instruction::REM(..) => 54,
            Instruction::REMU(..) => 55,
            Instruction::LRW(..) => 56,
            Instruction::SCW(..) => 57,
            Instruction::AMOSWAPW(..) => 58,
            Instruction::AMOADDW(..) => 59,
            Instruction::AMOXORW(..) => 60,
            Instruction::AMOANDW(..) => 61,
            Instruction::AMOORW(..) => 62,
            Instruction::AMOMINW(..) => 63,
            Instruction::AMOMAXW(..) => 64,
            Instruction::AMOMINUW(..) => 65,
            Instruction::AMOMAXUW(..) => 66,
            Instruction::CADDI4SPN(..) => 67,
            Instruction::CFLD(..) => 68,
            Instruction::CLQ(..) => 69,
            Instruction::CLW(..) => 70,
            Instruction::CFLW(..) => 71,
            Instruction::CLD(..) => 72,
            Instruction::CFSD(..) => 73,
            Instruction::CSQ(..) => 74,
            Instruction::CSW(..) => 75,
            Instruction::CFSW(..) => 76,
            Instruction::CSD(..) => 77,
            Instruction::CNOP(..) => 78,
            Instruction::CADDI(..) => 79,
            Instruction::CJAL(..) => 80,
            Instruction::CLI(..) => 81,
            Instruction::CADDI16SP(..) => 82,
            Instruction::CLUI(..) => 83,
            Instruction::CSRLI(..) => 84,
            Instruction::CSRAI(..) => 85,
            Instruction::CANDI(..) => 86,
            Instruction::CSUB(..) => 87,
            Instruction::CXOR(..) => 88,
            Instruction::COR(..) => 89,
            Instruction::CAND(..) => 90,
            Instruction::CJ(..) => 91,
            Instruction::CBEQZ(..) => 92,
            Instruction::CBNEZ(..) => 93,
            Instruction::CSLLI(..) => 94,
            Instruction::CFLDSP(..) => 95,
            Instruction::CLWSP(..) => 96,
            Instruction::CFLWSP(..) => 97,
            Instruction::CJR(..) => 98,
            Instruction::CMV(..) => 99,
            Instruction::CEBREAK(..) => 100,
            Instruction::CJALR(..) => 101,
            Instruction::CADD(..) => 102,
            Instruction::CFSDSP(..) => 103,
            Instruction::CSWSP(..) => 104,
            Instruction::CFSWSP(..) => 105,
        }
    }


    /// Assembly style, except for the instructions shown in their debug form.
    pub open spec fn style(self) -> PrintStyle {
        if matches!(self, Instruction::WFI()
                | Instruction::LRW(..)
                | Instruction::SCW(..)
                | Instruction::AMOSWAPW(..)
                | Instruction::AMOADDW(..)
                | Instruction::AMOXORW(..)
                | Instruction::AMOANDW(..)
                | Instruction::AMOORW(..)
                | Instruction::AMOMINW(..)
                | Instruction::AMOMAXW(..)
                | Instruction::AMOMINUW(..)
                | Instruction::AMOMAXUW(..)) {
            PrintStyle::Debug
        } else {
            PrintStyle::Assembly
        }
    }

    /// The operands shown, in field order.
    pub open spec fn operands(self) -> Seq<Operand> {
        match self {
            Instruction::LUI(f0, f1) => seq![Operand::Reg(f0), Operand::Imm(f1 as i64)],
            Instruction::AUIPC(f0, f1) => seq![Operand::Reg(f0), Operand::Imm(f1 as i64)],
            Instruction::JAL(f0, f1) => seq![Operand::Reg(f0), Operand::Imm(f1 as i64)],
            Instruction::JALR(f0, f1, f2) => seq![Operand::Reg(f0), Operand::Reg(f1), Operand::Imm(f2 as i64)],
            Instruction::BEQ(f0, f1, f2) => seq![Operand::Reg(f0), Operand::Reg(f1), Operand::Imm(f2 as i64)],
            Instruction::BNE(f0, f1, f2) => seq![Operand::Reg(f0), Operand::Reg(f1), Operand::Imm(f2 as i64)],
            Instruction::BLT(f0, f1, f2) => seq![Operand::Reg(f0), Operand::Reg(f1), Operand::Imm(f2 as i64)],
            Instruction::BGE(f0, f1, f2) => seq![Operand::Reg(f0), Operand::Reg(f1), Operand::Imm(f2 as i64)],
            Instruction::BLTU(f0, f1, f2) => seq![Operand::Reg(f0), Operand::Reg(f1), Operand::Imm(f2 as i64)],
            Instruction::BGEU(f0, f1, f2) => seq![Operand::Reg(f0), Operand::Reg(f1), Operand::Imm(f2 as i64)],
            Instruction::LB(f0, f1, f2) => seq![Operand::Reg(f0), Operand::Reg(f1), Operand::Imm(f2 as i64)],
            Instruction::LH(f0, f1, f2) => seq![Operand::Reg(f0), Operand::Reg(f1), Operand::Imm(f2 as i64)],
            Instruction::LW(f0, f1, f2) => seq![Operand::Reg(f0), Operand::Reg(f1), Operand::Imm(f2 as i64)],
            Instruction::LBU(f0, f1, f2) => seq![Operand::Reg(f0), Operand::Reg(f1), Operand::Imm(f2 as i64)],
            Instruction::LHU(f0, f1, f2) => seq![Operand::Reg(f0), Operand::Reg(f1), Operand::Imm(f2 as i64)],
            Instruction::SB(f0, f1, f2) => seq![Operand::Reg(f0), Operand::Reg(f1), Operand::Imm(f2 as i64)],
            Instruction::SH(f0, f1, f2) => seq![Operand::Reg(f0), Operand::Reg(f1), Operand::Imm(f2 as i64)],
            Instruction::SW(f0, f1, f2) => seq![Operand::Reg(f0), Operand::Reg(f1), Operand::Imm(f2 as i64)],
            Instruction::ADDI(f0, f1, f2) => seq![Operand::Reg(f0), Operand::Reg(f1), Operand::Imm(f2 as i64)],
            Instruction::SLTI(f0, f1, f2) => seq![Operand::Reg(f0), Operand::Reg(f1), Operand::Imm(f2 as i64)],
            Instruction::SLTIU(f0, f1, f2) => seq![Operand::Reg(f0), Operand::Reg(f1), Operand::Imm(f2 as i64)],
            Instruction::XORI(f0, f1, f2) => seq![Operand::Reg(f0), Operand::Reg(f1), Operand::Imm(f2 as i64)],
            Instruction::ORI(f0, f1, f2) => seq![Operand::Reg(f0), Operand::Reg(f1), Operand::Imm(f2 as i64)],
            Instruction::ANDI(f0, f1, f2) => seq![Operand::Reg(f0), Operand::Reg(f1), Operand::Imm(f2 as i64)],
            Instruction::SLLI(f0, f1, f2) => seq![Operand::Reg(f0), Operand::Reg(f1), Operand::Imm(f2 as i64)],
            Instruction::SRLI(f0, f1, f2) => seq![Operand::Reg(f0), Operand::Reg(f1), Operand::Imm(f2 as i64)],
            Instruction::SRAI(f0, f1, f2) => seq![Operand::Reg(f0), Operand::Reg(f1), Operand::Imm(f2 as i64)],
            Instruction::ADD(f0, f1, f2) => seq![Operand::Reg(f0), Operand::Reg(f1), Operand::Reg(f2)],
            Instruction::SUB(f0, f1, f2) => seq![Operand::Reg(f0), Operand::Reg(f1), Operand::Reg(f2)],
            Instruction::SLL(f0, f1, f2) => seq![Operand::Reg(f0), Operand::Reg(f1), Operand::Reg(f2)],
            Instruction::SLT(f0, f1, f2) => seq![Operand::Reg(f0), Operand::Reg(f1), Operand::Reg(f2)],
            Instruction::SLTU(f0, f1, f2) => seq![Operand::Reg(f0), Operand::Reg(f1), Operand::Reg(f2)],
            Instruction::XOR(f0, f1, f2) => seq![Operand::Reg(f0), Operand::Reg(f1), Operand::Reg(f2)],
            Instruction::SRL(f0, f1, f2) => seq![Operand::Reg(f0), Operand::Reg(f1), Operand::Reg(f2)],
            Instruction::SRA(f0, f1, f2) => seq![Operand::Reg(f0), Operand::Reg(f1), Operand::Reg(f2)],
            Instruction::OR(f0, f1, f2) => seq![Operand::Reg(f0), Operand::Reg(f1), Operand::Reg(f2)],
            Instruction::AND(f0, f1, f2) => seq![Operand::Reg(f0), Operand::Reg(f1), Operand::Reg(f2)],
            Instruction::FENCE(f0, f1, f2) => seq![Operand::Reg(f0), Operand::Reg(f1), Operand::Imm(f2 as i64)],
            Instruction::ECALL() => seq![],
            Instruction::EBREAK() => seq![],
            Instruction::MRET() => seq![],
            Instruction::WFI() => seq![],
            Instruction::CSRRW(f0, f1, f2) => seq![Operand::Reg(f0), Operand::Reg(f1), Operand::Imm(f2 as i64)],
            Instruction::CSRRS(f0, f1, f2) => seq![Operand::Reg(f0), Operand::Reg(f1), Operand::Imm(f2 as i64)],
            Instruction::CSRRC(f0, f1, f2) => seq![Operand::Reg(f0), Operand::Reg(f1), Operand::Imm(f2 as i64)],
            Instruction::CSRRWI(f0, f1, f2) => seq![Operand::Reg(f0), Operand::Reg(f1), Operand::Imm(f2 as i64)],
            Instruction::CSRRSI(f0, f1, f2) => seq![Operand::Reg(f0), Operand::Reg(f1), Operand::Imm(f2 as i64)],
            Instruction::CSRRCI(f0, f1, f2) => seq![Operand::Reg(f0), Operand::Reg(f1), Operand::Imm(f2 as i64)],
            Instruction::MUL(f0, f1, f2) => seq![Operand::Reg(f0), Operand::Reg(f1), Operand::Reg(f2)],
            Instruction::MULH(f0, f1, f2) => seq![Operand::Reg(f0), Operand::Reg(f1), Operand::Reg(f2)],
            Instruction::MULHSU(f0, f1, f2) => seq![Operand::Reg(f0), Operand::Reg(f1), Operand::Reg(f2)],
            Instruction::MULHU(f0, f1, f2) => seq![Operand::Reg(f0), Operand::Reg(f1), Operand::Reg(f2)],
            Instruction::DIV(f0, f1, f2) => seq![Operand::Reg(f0), Operand::Reg(f1), Operand::Reg(f2)],
            Instruction::DIVU(f0, f1, f2) => seq![Operand::Reg(f0), Operand::Reg(f1), Operand::Reg(f2)],
            Instruction::REM(f0, f1, f2) => seq![Operand::Reg(f0), Operand::Reg(f1), Operand::Reg(f2)],
            Instruction::REMU(f0, f1, f2) => seq![Operand::Reg(f0), Operand::Reg(f1), Operand::Reg(f2)],
            Instruction::LRW(f0, f1) => seq![Operand::Reg(f0), Operand::Reg(f1)],
            Instruction::SCW(f0, f1, f2) => seq![Operand::Reg(f0), Operand::Reg(f1), Operand::Reg(f2)],
            Instruction::AMOSWAPW(f0, f1, f2) => seq![Operand::Reg(f0), Operand::Reg(f1), Operand::Reg(f2)],
            Instruction::AMOADDW(f0, f1, f2) => seq![Operand::Reg(f0), Operand::Reg(f1), Operand::Reg(f2)],
            Instruction::AMOXORW(f0, f1, f2) => seq![Operand::Reg(f0), Operand::Reg(f1), Operand::Reg(f2)],
            Instruction::AMOANDW(f0, f1, f2) => seq![Operand::Reg(f0), Operand::Reg(f1), Operand::Reg(f2)],
            Instruction::AMOORW(f0, f1, f2) => seq![Operand::Reg(f0), Operand::Reg(f1), Operand::Reg(f2)],
            Instruction::AMOMINW(f0, f1, f2) => seq![Operand::Reg(f0), Operand::Reg(f1), Operand::Reg(f2)],
            Instruction::AMOMAXW(f0, f1, f2) => seq![Operand::Reg(f0), Operand::Reg(f1), Operand::Reg(f2)],
            Instruction::AMOMINUW(f0, f1, f2) => seq![Operand::Reg(f0), Operand::Reg(f1), Operand::Reg(f2)],
            Instruction::AMOMAXUW(f0, f1, f2) => seq![Operand::Reg(f0), Operand::Reg(f1), Operand::Reg(f2)],
            Instruction::CADDI4SPN(f0, f1) => seq![Operand::Reg(f0), Operand::Imm(f1 as i64)],
            Instruction::CFLD(f0, f1, f2) => seq![Operand::Reg(f0), Operand::Reg(f1), Operand::Imm(f2 as i64)],
            Instruction::CLQ(f0, f1, f2) => seq![Operand::Reg(f0), Operand::Reg(f1), Operand::Imm(f2 as i64)],
            Instruction::CLW(f0, f1, f2) => seq![Operand::Reg(f0), Operand::Reg(f1), Operand::Imm(f2 as i64)],
            Instruction::CFLW(f0, f1, f2) => seq![Operand::Reg(f0), Operand::Reg(f1), Operand::Imm(f2 as i64)],
            Instruction::CLD(f0, f1, f2) => seq![Operand::Reg(f0), Operand::Reg(f1), Operand::Imm(f2 as i64)],
            Instruction::CFSD(f0, f1, f2) => seq![Operand::Reg(f0), Operand::Reg(f1), Operand::Imm(f2 as i64)],
            Instruction::CSQ(f0, f1, f2) => seq![Operand::Reg(f0), Operand::Reg(f1), Operand::Imm(f2 as i64)],
            Instruction::CSW(f0, f1, f2) => seq![Operand::Reg(f0), Operand::Reg(f1), Operand::Imm(f2 as i64)],
            Instruction::CFSW(f0, f1, f2) => seq![Operand::Reg(f0), Operand::Reg(f1), Operand::Imm(f2 as i64)],
            Instruction::CSD(f0, f1, f2) => seq![Operand::Reg(f0), Operand::Reg(f1), Operand::Imm(f2 as i64)],
            Instruction::CNOP(f0, f1) => seq![Operand::Reg(f0), Operand::Imm(f1 as i64)],
            Instruction::CADDI(f0, f1) => seq![Operand::Reg(f0), Operand::Imm(f1 as i64)],
            Instruction::CJAL(f0) => seq![Operand::Imm(f0 as i64)],
            Instruction::CLI(f0, f1) => seq![Operand::Reg(f0), Operand::Imm(f1 as i64)],
            Instruction::CADDI16SP(f0, f1) => seq![Operand::Reg(f0), Operand::Imm(f1 as i64)],
            Instruction::CLUI(f0, f1) => seq![Operand::Reg(f0), Operand::Imm(f1 as i64)],
            Instruction::CSRLI(f0, f1) => seq![Operand::Reg(f0), Operand::Imm(f1 as i64)],
            Instruction::CSRAI(f0, f1) => seq![Operand::Reg(f0), Operand::Imm(f1 as i64)],
            Instruction::CANDI(f0, f1) => seq![Operand::Reg(f0), Operand::Imm(f1 as i64)],
            Instruction::CSUB(f0, f1) => seq![Operand::Reg(f0), Operand::Reg(f1)],
            Instruction::CXOR(f0, f1) => seq![Operand::Reg(f0), Operand::Reg(f1)],
            Instruction::COR(f0, f1) => seq![Operand::Reg(f0), Operand::Reg(f1)],
            Instruction::CAND(f0, f1) => seq![Operand::Reg(f0), Operand::Reg(f1)],
            Instruction::CJ(f0) => seq![Operand::Imm(f0 as i64)],
            Instruction::CBEQZ(f0, f1) => seq![Operand::Reg(f0), Operand::Imm(f1 as i64)],
            Instruction::CBNEZ(f0, f1) => seq![Operand::Reg(f0), Operand::Imm(f1 as i64)],
            Instruction::CSLLI(f0, f1) => seq![Operand::Reg(f0), Operand::Imm(f1 as i64)],
            Instruction::CFLDSP(f0, f1) => seq![Operand::Reg(f0), Operand::Imm(f1 as i64)],
            Instruction::CLWSP(f0, f1) => seq![Operand::Reg(f0), Operand::Imm(f1 as i64)],
            Instruction::CFLWSP(f0, f1) => seq![Operand::Reg(f0), Operand::Imm(f1 as i64)],
            Instruction::CJR(f0) => seq![Operand::Reg(f0)],
            Instruction::CMV(f0, f1) => seq![Operand::Reg(f0), Operand::Reg(f1)],
            Instruction::CEBREAK() => seq![],
            Instruction::CJALR(f0) => seq![Operand::Reg(f0)],
            Instruction::CADD(f0, f1) => seq![Operand::Reg(f0), Operand::Reg(f1)],
            Instruction::CFSDSP(f0, f1) => seq![Operand::Reg(f0), Operand::Imm(f1 as i64)],
            Instruction::CSWSP(f0, f1) => seq![Operand::Reg(f0), Operand::Imm(f1 as i64)],
            Instruction::CFSWSP(f0, f1) => seq![Operand::Reg(f0), Operand::Imm(f1 as i64)],
        }
    }

    fn mnemonic(&self) -> (r: &'static str)
        ensures
            r == self.name(),
    {
        match *self {
            Instruction::LUI(_, _) => "lui",
            Instruction::AUIPC(_, _) => "auipc",
            Instruction::JAL(_, _) => "jal",
            Instruction::JALR(_, _, _) => "jalr",
            Instruction::BEQ(_, _, _) => "beq",
            Instruction::BNE(_, _, _) => "bne",
            Instruction::BLT(_, _, _) => "blt",
            Instruction::BGE(_, _, _) => "bge",
            Instruction::BLTU(_, _, _) => "bltu",
            Instruction::BGEU(_, _, _) => "bgeu",
            Instruction::LB(_, _, _) => "lb",
            Instruction::LH(_, _, _) => "lh",
            Instruction::LW(_, _, _) => "lw",
            Instruction::LBU(_, _, _) => "lbu",
            Instruction::LHU(_, _, _) => "lhu",
            Instruction::SB(_, _, _) => "sb",
            Instruction::SH(_, _, _) => "sh",
            Instruction::SW(_, _, _) => "sw",
            Instruction::ADDI(_, _, _) => "addi",
            Instruction::SLTI(_, _, _) => "slti",
            Instruction::SLTIU(_, _, _) => "sltiu",
            Instruction::XORI(_, _, _) => "xori",
            Instruction::ORI(_, _, _) => "ori",
            Instruction::ANDI(_, _, _) => "andi",
            Instruction::SLLI(_, _, _) => "slli",
            Instruction::SRLI(_, _, _) => "srli",
            Instruction::SRAI(_, _, _) => "srai",
            Instruction::ADD(_, _, _) => "add",
            Instruction::SUB(_, _, _) => "sub",
            Instruction::SLL(_, _, _) => "sll",
            Instruction::SLT(_, _, _) => "slt",
            Instruction::SLTU(_, _, _) => "sltu",
            Instruction::XOR(_, _, _) => "xor",
            Instruction::SRL(_, _, _) => "srl",
            Instruction::SRA(_, _, _) => "sra",
            Instruction::OR(_, _, _) => "or",
            Instruction::AND(_, _, _) => "and",
            Instruction::FENCE(_, _, _) => "fence",
            Instruction::ECALL() => "ecall",
            Instruction::EBREAK() => "ebreak",
            Instruction::MRET() => "mret",
            Instruction::WFI() => "WFI",
            Instruction::CSRRW(_, _, _) => "csrrw",
            Instruction::CSRRS(_, _, _) => "csrrs",
            Instruction::CSRRC(_, _, _) => "csrrc",
            Instruction::CSRRWI(_, _, _) => "csrrwi",
            Instruction::CSRRSI(_, _, _) => "csrrsi",
            Instruction::CSRRCI(_, _, _) => "csrrci",
            Instruction::MUL(_, _, _) => "mul",
            Instruction::MULH(_, _, _) => "mulh",
            Instruction::MULHSU(_, _, _) => "mulhsu",
            Instruction::MULHU(_, _, _) => "mulhu",
            Instruction::DIV(_, _, _) => "div",
            Instruction::DIVU(_, _, _) => "divu",
            Instruction::REM(_, _, _) => "rem",
            Instruction::REMU(_, _, _) => "remu",
            Instruction::LRW(_, _) => "LRW",
            Instruction::SCW(_, _, _) => "SCW",
            Instruction::AMOSWAPW(_, _, _) => "AMOSWAPW",
            Instruction::AMOADDW(_, _, _) => "AMOADDW",
            Instruction::AMOXORW(_, _, _) => "AMOXORW",
            Instruction::AMOANDW(_, _, _) => "AMOANDW",
            Instruction::AMOORW(_, _, _) => "AMOORW",
            Instruction::AMOMINW(_, _, _) => "AMOMINW",
            Instruction::AMOMAXW(_, _, _) => "AMOMAXW",
            Instruction::AMOMINUW(_, _, _) => "AMOMINUW",
            Instruction::AMOMAXUW(_, _, _) => "AMOMAXUW",
            Instruction::CADDI4SPN(_, _) => "C.ADDI4SPN",
            Instruction::CFLD(_, _, _) => "C.FLD",
            Instruction::CLQ(_, _, _) => "C.LQ",
            Instruction::CLW(_, _, _) => "C.LW",
            Instruction::CFLW(_, _, _) => "C.FLW",
            Instruction::CLD(_, _, _) => "C.LD",
            Instruction::CFSD(_, _, _) => "C.FSD",
            Instruction::CSQ(_, _, _) => "C.SQ",
            Instruction::CSW(_, _, _) => "C.SW",
            Instruction::CFSW(_, _, _) => "C.FSW",
            Instruction::CSD(_, _, _) => "C.SD",
            Instruction::CNOP(_, _) => "C.NOP",
            Instruction::CADDI(_, _) => "C.ADDI",
            Instruction::CJAL(_) => "C.JAL",
            Instruction::CLI(_, _) => "C.LI",
            Instruction::CADDI16SP(_, _) => "C.ADDI16SP",
            Instruction::CLUI(_, _) => "C.LUI",
            Instruction::CSRLI(_, _) => "C.SRLI",
            Instruction::CSRAI(_, _) => "C.SRAI",
            Instruction::CANDI(_, _) => "C.ANDI",
            Instruction::CSUB(_, _) => "C.SUB",
            Instruction::CXOR(_, _) => "C.XOR",
            Instruction::COR(_, _) => "C.OR",
            Instruction::CAND(_, _) => "C.AND",
            Instruction::CJ(_) => "C.J",
            Instruction::CBEQZ(_, _) => "C.BEQZ",
            Instruction::CBNEZ(_, _) => "C.BNEZ",
            Instruction::CSLLI(_, _) => "C.SLLI",
            Instruction::CFLDSP(_, _) => "C.FLDSP",
            Instruction::CLWSP(_, _) => "C.LWSP",
            Instruction::CFLWSP(_, _) => "C.FLWSP",
            Instruction::CJR(_) => "C.JR",
            Instruction::CMV(_, _) => "C.MV",
            Instruction::CEBREAK() => "C.EBREAK",
            Instruction::CJALR(_) => "C.JALR",
            Instruction::CADD(_, _) => "C.ADD",
            Instruction::CFSDSP(_, _) => "C.FSDSP",
            Instruction::CSWSP(_, _) => "C.FSDSP",
            Instruction::CFSWSP(_, _) => "C.FSDSP",
        }
    }

    fn print_style(&self) -> (r: PrintStyle)
        ensures
            r == self.style(),
    {
        if matches!(self, Instruction::WFI()
                | Instruction::LRW(..)
                | Instruction::SCW(..)
                | Instruction::AMOSWAPW(..)
                | Instruction::AMOADDW(..)
                | Instruction::AMOXORW(..)
                | Instruction::AMOANDW(..)
                | Instruction::AMOORW(..)
                | Instruction::AMOMINW(..)
                | Instruction::AMOMAXW(..)
                | Instruction::AMOMINUW(..)
                | Instruction::AMOMAXUW(..)) {
            PrintStyle::Debug
        } else {
            PrintStyle::Assembly
        }
    }

    #[verifier::rlimit(30)]
    fn operand_parts(&self) -> (r: (usize, Operand, Operand, Operand))
        ensures
            r.0 == self.operands().len(),
            r.0 > 0 ==> r.1 == self.operands()[0],
            r.0 > 1 ==> r.2 == self.operands()[1],
            r.0 > 2 ==> r.3 == self.operands()[2],
            self.wf() ==> forall|i: int| 0 <= i < r.0 ==> operand_ok(#[trigger] self.operands()[i]),
    {
        match *self {
            Instruction::LUI(f0, f1) => (2, Operand::Reg(f0), Operand::Imm(f1 as i64), Operand::Imm(0)),
            Instruction::AUIPC(f0, f1) => (2, Operand::Reg(f0), Operand::Imm(f1 as i64), Operand::Imm(0)),
            Instruction::JAL(f0, f1) => (2, Operand::Reg(f0), Operand::Imm(f1 as i64), Operand::Imm(0)),
            Instruction::JALR(f0, f1, f2) => (3, Operand::Reg(f0), Operand::Reg(f1), Operand::Imm(f2 as i64)),
            Instruction::BEQ(f0, f1, f2) => (3, Operand::Reg(f0), Operand::Reg(f1), Operand::Imm(f2 as i64)),
            Instruction::BNE(f0, f1, f2) => (3, Operand::Reg(f0), Operand::Reg(f1), Operand::Imm(f2 as i64)),
            Instruction::BLT(f0, f1, f2) => (3, Operand::Reg(f0), Operand::Reg(f1), Operand::Imm(f2 as i64)),
            Instruction::BGE(f0, f1, f2) => (3, Operand::Reg(f0), Operand::Reg(f1), Operand::Imm(f2 as i64)),
            Instruction::BLTU(f0, f1, f2) => (3, Operand::Reg(f0), Operand::Reg(f1), Operand::Imm(f2 as i64)),
            Instruction::BGEU(f0, f1, f2) => (3, Operand::Reg(f0), Operand::Reg(f1), Operand::Imm(f2 as i64)),
            Instruction::LB(f0, f1, f2) => (3, Operand::Reg(f0), Operand::Reg(f1), Operand::Imm(f2 as i64)),
            Instruction::LH(f0, f1, f2) => (3, Operand::Reg(f0), Operand::Reg(f1), Operand::Imm(f2 as i64)),
            Instruction::LW(f0, f1, f2) => (3, Operand::Reg(f0), Operand::Reg(f1), Operand::Imm(f2 as i64)),
            Instruction::LBU(f0, f1, f2) => (3, Operand::Reg(f0), Operand::Reg(f1), Operand::Imm(f2 as i64)),
            Instruction::LHU(f0, f1, f2) => (3, Operand::Reg(f0), Operand::Reg(f1), Operand::Imm(f2 as i64)),
            Instruction::SB(f0, f1, f2) => (3, Operand::Reg(f0), Operand::Reg(f1), Operand::Imm(f2 as i64)),
            Instruction::SH(f0, f1, f2) => (3, Operand::Reg(f0), Operand::Reg(f1), Operand::Imm(f2 as i64)),
            Instruction::SW(f0, f1, f2) => (3, Operand::Reg(f0), Operand::Reg(f1), Operand::Imm(f2 as i64)),
            Instruction::ADDI(f0, f1, f2) => (3, Operand::Reg(f0), Operand::Reg(f1), Operand::Imm(f2 as i64)),
            Instruction::SLTI(f0, f1, f2) => (3, Operand::Reg(f0), Operand::Reg(f1), Operand::Imm(f2 as i64)),
            Instruction::SLTIU(f0, f1, f2) => (3, Operand::Reg(f0), Operand::Reg(f1), Operand::Imm(f2 as i64)),
            Instruction::XORI(f0, f1, f2) => (3, Operand::Reg(f0), Operand::Reg(f1), Operand::Imm(f2 as i64)),
            Instruction::ORI(f0, f1, f2) => (3, Operand::Reg(f0), Operand::Reg(f1), Operand::Imm(f2 as i64)),
            Instruction::ANDI(f0, f1, f2) => (3, Operand::Reg(f0), Operand::Reg(f1), Operand::Imm(f2 as i64)),
            Instruction::SLLI(f0, f1, f2) => (3, Operand::Reg(f0), Operand::Reg(f1), Operand::Imm(f2 as i64)),
            Instruction::SRLI(f0, f1, f2) => (3, Operand::Reg(f0), Operand::Reg(f1), Operand::Imm(f2 as i64)),
            Instruction::SRAI(f0, f1, f2) => (3, Operand::Reg(f0), Operand::Reg(f1), Operand::Imm(f2 as i64)),
            Instruction::ADD(f0, f1, f2) => (3, Operand::Reg(f0), Operand::Reg(f1), Operand::Reg(f2)),
            Instruction::SUB(f0, f1, f2) => (3, Operand::Reg(f0), Operand::Reg(f1), Operand::Reg(f2)),
            Instruction::SLL(f0, f1, f2) => (3, Operand::Reg(f0), Operand::Reg(f1), Operand::Reg(f2)),
            Instruction::SLT(f0, f1, f2) => (3, Operand::Reg(f0), Operand::Reg(f1), Operand::Reg(f2)),
            Instruction::SLTU(f0, f1, f2) => (3, Operand::Reg(f0), Operand::Reg(f1), Operand::Reg(f2)),
            Instruction::XOR(f0, f1, f2) => (3, Operand::Reg(f0), Operand::Reg(f1), Operand::Reg(f2)),
            Instruction::SRL(f0, f1, f2) => (3, Operand::Reg(f0), Operand::Reg(f1), Operand::Reg(f2)),
            Instruction::SRA(f0, f1, f2) => (3, Operand::Reg(f0), Operand::Reg(f1), Operand::Reg(f2)),
            Instruction::OR(f0, f1, f2) => (3, Operand::Reg(f0), Operand::Reg(f1), Operand::Reg(f2)),
            Instruction::AND(f0, f1, f2) => (3, Operand::Reg(f0), Operand::Reg(f1), Operand::Reg(f2)),
            Instruction::FENCE(f0, f1, f2) => (3, Operand::Reg(f0), Operand::Reg(f1), Operand::Imm(f2 as i64)),
            Instruction::ECALL() => (0, Operand::Imm(0), Operand::Imm(0), Operand::Imm(0)),
            Instruction::EBREAK() => (0, Operand::Imm(0), Operand::Imm(0), Operand::Imm(0)),
            Instruction::MRET() => (0, Operand::Imm(0), Operand::Imm(0), Operand::Imm(0)),
            Instruction::WFI() => (0, Operand::Imm(0), Operand::Imm(0), Operand::Imm(0)),
            Instruction::CSRRW(f0, f1, f2) => (3, Operand::Reg(f0), Operand::Reg(f1), Operand::Imm(f2 as i64)),
            Instruction::CSRRS(f0, f1, f2) => (3, Operand::Reg(f0), Operand::Reg(f1), Operand::Imm(f2 as i64)),
            Instruction::CSRRC(f0, f1, f2) => (3, Operand::Reg(f0), Operand::Reg(f1), Operand::Imm(f2 as i64)),
            Instruction::CSRRWI(f0, f1, f2) => (3, Operand::Reg(f0), Operand::Reg(f1), Operand::Imm(f2 as i64)),
            Instruction::CSRRSI(f0, f1, f2) => (3, Operand::Reg(f0), Operand::Reg(f1), Operand::Imm(f2 as i64)),
            Instruction::CSRRCI(f0, f1, f2) => (3, Operand::Reg(f0), Operand::Reg(f1), Operand::Imm(f2 as i64)),
            Instruction::MUL(f0, f1, f2) => (3, Operand::Reg(f0), Operand::Reg(f1), Operand::Reg(f2)),
            Instruction::MULH(f0, f1, f2) => (3, Operand::Reg(f0), Operand::Reg(f1), Operand::Reg(f2)),
            Instruction::MULHSU(f0, f1, f2) => (3, Operand::Reg(f0), Operand::Reg(f1), Operand::Reg(f2)),
            Instruction::MULHU(f0, f1, f2) => (3, Operand::Reg(f0), Operand::Reg(f1), Operand::Reg(f2)),
            Instruction::DIV(f0, f1, f2) => (3, Operand::Reg(f0), Operand::Reg(f1), Operand::Reg(f2)),
            Instruction::DIVU(f0, f1, f2) => (3, Operand::Reg(f0), Operand::Reg(f1), Operand::Reg(f2)),
            Instruction::REM(f0, f1, f2) => (3, Operand::Reg(f0), Operand::Reg(f1), Operand::Reg(f2)),
            Instruction::REMU(f0, f1, f2) => (3, Operand::Reg(f0), Operand::Reg(f1), Operand::Reg(f2)),
            Instruction::LRW(f0, f1) => (2, Operand::Reg(f0), Operand::Reg(f1), Operand::Imm(0)),
            Instruction::SCW(f0, f1, f2) => (3, Operand::Reg(f0), Operand::Reg(f1), Operand::Reg(f2)),
            Instruction::AMOSWAPW(f0, f1, f2) => (3, Operand::Reg(f0), Operand::Reg(f1), Operand::Reg(f2)),
            Instruction::AMOADDW(f0, f1, f2) => (3, Operand::Reg(f0), Operand::Reg(f1), Operand::Reg(f2)),
            Instruction::AMOXORW(f0, f1, f2) => (3, Operand::Reg(f0), Operand::Reg(f1), Operand::Reg(f2)),
            Instruction::AMOANDW(f0, f1, f2) => (3, Operand::Reg(f0), Operand::Reg(f1), Operand::Reg(f2)),
            Instruction::AMOORW(f0, f1, f2) => (3, Operand::Reg(f0), Operand::Reg(f1), Operand::Reg(f2)),
            Instruction::AMOMINW(f0, f1, f2) => (3, Operand::Reg(f0), Operand::Reg(f1), Operand::Reg(f2)),
            Instruction::AMOMAXW(f0, f1, f2) => (3, Operand::Reg(f0), Operand::Reg(f1), Operand::Reg(f2)),
            Instruction::AMOMINUW(f0, f1, f2) => (3, Operand::Reg(f0), Operand::Reg(f1), Operand::Reg(f2)),
            Instruction::AMOMAXUW(f0, f1, f2) => (3, Operand::Reg(f0), Operand::Reg(f1), Operand::Reg(f2)),
            Instruction::CADDI4SPN(f0, f1) => (2, Operand::Reg(f0), Operand::Imm(f1 as i64), Operand::Imm(0)),
            Instruction::CFLD(f0, f1, f2) => (3, Operand::Reg(f0), Operand::Reg(f1), Operand::Imm(f2 as i64)),
            Instruction::CLQ(f0, f1, f2) => (3, Operand::Reg(f0), Operand::Reg(f1), Operand::Imm(f2 as i64)),
            Instruction::CLW(f0, f1, f2) => (3, Operand::Reg(f0), Operand::Reg(f1), Operand::Imm(f2 as i64)),
            Instruction::CFLW(f0, f1, f2) => (3, Operand::Reg(f0), Operand::Reg(f1), Operand::Imm(f2 as i64)),
            Instruction::CLD(f0, f1, f2) => (3, Operand::Reg(f0), Operand::Reg(f1), Operand::Imm(f2 as i64)),
            Instruction::CFSD(f0, f1, f2) => (3, Operand::Reg(f0), Operand::Reg(f1), Operand::Imm(f2 as i64)),
            Instruction::CSQ(f0, f1, f2) => (3, Operand::Reg(f0), Operand::Reg(f1), Operand::Imm(f2 as i64)),
            Instruction::CSW(f0, f1, f2) => (3, Operand::Reg(f0), Operand::Reg(f1), Operand::Imm(f2 as i64)),
            Instruction::CFSW(f0, f1, f2) => (3, Operand::Reg(f0), Operand::Reg(f1), Operand::Imm(f2 as i64)),
            Instruction::CSD(f0, f1, f2) => (3, Operand::Reg(f0), Operand::Reg(f1), Operand::Imm(f2 as i64)),
            Instruction::CNOP(f0, f1) => (2, Operand::Reg(f0), Operand::Imm(f1 as i64), Operand::Imm(0)),
            Instruction::CADDI(f0, f1) => (2, Operand::Reg(f0), Operand::Imm(f1 as i64), Operand::Imm(0)),
            Instruction::CJAL(f0) => (1, Operand::Imm(f0 as i64), Operand::Imm(0), Operand::Imm(0)),
            Instruction::CLI(f0, f1) => (2, Operand::Reg(f0), Operand::Imm(f1 as i64), Operand::Imm(0)),
            Instruction::CADDI16SP(f0, f1) => (2, Operand::Reg(f0), Operand::Imm(f1 as i64), Operand::Imm(0)),
            Instruction::CLUI(f0, f1) => (2, Operand::Reg(f0), Operand::Imm(f1 as i64), Operand::Imm(0)),
            Instruction::CSRLI(f0, f1) => (2, Operand::Reg(f0), Operand::Imm(f1 as i64), Operand::Imm(0)),
            Instruction::CSRAI(f0, f1) => (2, Operand::Reg(f0), Operand::Imm(f1 as i64), Operand::Imm(0)),
            Instruction::CANDI(f0, f1) => (2, Operand::Reg(f0), Operand::Imm(f1 as i64), Operand::Imm(0)),
            Instruction::CSUB(f0, f1) => (2, Operand::Reg(f0), Operand::Reg(f1), Operand::Imm(0)),
            Instruction::CXOR(f0, f1) => (2, Operand::Reg(f0), Operand::Reg(f1), Operand::Imm(0)),
            Instruction::COR(f0, f1) => (2, Operand::Reg(f0), Operand::Reg(f1), Operand::Imm(0)),
            Instruction::CAND(f0, f1) => (2, Operand::Reg(f0), Operand::Reg(f1), Operand::Imm(0)),
            Instruction::CJ(f0) => (1, Operand::Imm(f0 as i64), Operand::Imm(0), Operand::Imm(0)),
            Instruction::CBEQZ(f0, f1) => (2, Operand::Reg(f0), Operand::Imm(f1 as i64), Operand::Imm(0)),
            Instruction::CBNEZ(f0, f1) => (2, Operand::Reg(f0), Operand::Imm(f1 as i64), Operand::Imm(0)),
            Instruction::CSLLI(f0, f1) => (2, Operand::Reg(f0), Operand::Imm(f1 as i64), Operand::Imm(0)),
            Instruction::CFLDSP(f0, f1) => (2, Operand::Reg(f0), Operand::Imm(f1 as i64), Operand::Imm(0)),
            Instruction::CLWSP(f0, f1) => (2, Operand::Reg(f0), Operand::Imm(f1 as i64), Operand::Imm(0)),
            Instruction::CFLWSP(f0, f1) => (2, Operand::Reg(f0), Operand::Imm(f1 as i64), Operand::Imm(0)),
            Instruction::CJR(f0) => (1, Operand::Reg(f0), Operand::Imm(0), Operand::Imm(0)),
            Instruction::CMV(f0, f1) => (2, Operand::Reg(f0), Operand::Reg(f1), Operand::Imm(0)),
            Instruction::CEBREAK() => (0, Operand::Imm(0), Operand::Imm(0), Operand::Imm(0)),
            Instruction::CJALR(f0) => (1, Operand::Reg(f0), Operand::Imm(0), Operand::Imm(0)),
            Instruction::CADD(f0, f1) => (2, Operand::Reg(f0), Operand::Reg(f1), Operand::Imm(0)),
            Instruction::CFSDSP(f0, f1) => (2, Operand::Reg(f0), Operand::Imm(f1 as i64), Operand::Imm(0)),
            Instruction::CSWSP(f0, f1) => (2, Operand::Reg(f0), Operand::Imm(f1 as i64), Operand::Imm(0)),
            Instruction::CFSWSP(f0, f1) => (2, Operand::Reg(f0), Operand::Imm(f1 as i64), Operand::Imm(0)),
        }
    }

    /// The instruction as text, e.g. `addi a0, sp, 16` or `C.LW a0, s1, 4`.
    pub open spec fn text(self) -> Seq<char> {
        render(self.style(), self.name(), self.operands())
    }

    /// Returns the instruction as text, e.g. `addi a0, sp, 16`.
    pub fn print(&self) -> (s: String)
        requires
            self.wf(),
        ensures
            s@ == self.text(),
    {
        let (n, o0, o1, o2) = self.operand_parts();
        let mut ops: Vec<Operand> = Vec::new();
        if n > 0 {
            ops.push(o0);
        }
        if n > 1 {
            ops.push(o1);
        }
        if n > 2 {
            ops.push(o2);
        }
        assert(ops@ =~= self.operands());
        let style = self.print_style();
        let name = self.mnemonic();
        render_exec(style, name, &ops)
    }
}

proof fn lemma_join_step(parts: Seq<Seq<char>>, i: int)
    requires
        1 <= i < parts.len(),
    ensures
        join_comma(parts.take(i + 1)) == join_comma(parts.take(i)) + seq![',', ' '] + parts[i],
{
    assert(parts.take(i + 1).drop_last() =~= parts.take(i));
}

fn push_operand(s: &mut String, style: PrintStyle, op: Operand)
    requires
        operand_ok(op),
    ensures
        final(s)@ == old(s)@ + (match style {
            PrintStyle::Assembly => operand_text(op),
            PrintStyle::Debug => debug_text(op),
        }),
{
    match op {
        Operand::Reg(r) => {
            match style {
                PrintStyle::Assembly => s.append(index_to_name(r)),
                PrintStyle::Debug => push_unsigned(s, r as u64),
            }
        }
        Operand::Imm(v) => push_signed(s, v),
    }
}

fn render_exec(style: PrintStyle, name: &'static str, ops: &Vec<Operand>) -> (s: String)
    requires
        forall|i: int| 0 <= i < ops@.len() ==> operand_ok(#[trigger] ops@[i]),
    ensures
        s@ == render(style, name, ops@),
{
    let mut s = String::new();
    s.append(name);
    if ops.len() == 0 {
        return s;
    }
    match style {
        PrintStyle::Assembly => push_char(&mut s, ' '),
        PrintStyle::Debug => push_char(&mut s, '('),
    }
    let ghost head = s@;
    let ghost texts = match style {
        PrintStyle::Assembly => ops@.map_values(|o: Operand| operand_text(o)),
        PrintStyle::Debug => ops@.map_values(|o: Operand| debug_text(o)),
    };
    let mut i: usize = 0;
    while i < ops.len()
        invariant
            i <= ops@.len(),
            texts.len() == ops@.len(),
            forall|k: int| 0 <= k < ops@.len() ==> operand_ok(#[trigger] ops@[k]),
            forall|k: int| 0 <= k < ops@.len() ==> texts[k] == match style {
                PrintStyle::Assembly => operand_text(#[trigger] ops@[k]),
                PrintStyle::Debug => debug_text(ops@[k]),
            },
            s@ == head + join_comma(texts.take(i as int)),
        decreases ops@.len() - i,
    {
        if i > 0 {
            push_char(&mut s, ',');
            push_char(&mut s, ' ');
        }
        push_operand(&mut s, style, ops[i]);
        proof {
            if i > 0 {
                lemma_join_step(texts, i as int);
                assert(s@ =~= head + join_comma(texts.take(i + 1)));
            } else {
                assert(texts.take(1) =~= seq![texts[0]]);
                assert(s@ =~= head + join_comma(texts.take(i + 1)));
            }
        }
        i = i + 1;
    }
    assert(texts.take(ops@.len() as int) =~= texts);
    if let PrintStyle::Debug = style {
        push_char(&mut s, ')');
    }
    assert(s@ =~= render(style, name, ops@));
    s
}

/// Two texts of the same length with the same character at each position.
pub open spec fn same_text(n: Seq<char>, m: Seq<char>) -> bool {
    n.len() == m.len() && forall|i: int| 0 <= i < n.len() ==> #[trigger] n[i] == m[i]
}

/// The kind of instruction printed under the name `n`.
pub open spec fn name_kind(n: Seq<char>) -> nat {
    if same_text(n, "lui"@) {
        0
    } else if same_text(n, "auipc"@) {
        1
    } else if same_text(n, "jal"@) {
        2
    } else if same_text(n, "jalr"@) {
        3
    } else if same_text(n, "beq"@) {
        4
    } else if same_text(n, "bne"@) {
        5
    } else if same_text(n, "blt"@) {
        6
    } else if same_text(n, "bge"@) {
        7
    } else if same_text(n, "bltu"@) {
        8
    } else if same_text(n, "bgeu"@) {
        9
    } else if same_text(n, "lb"@) {
        10
    } else if same_text(n, "lh"@) {
        11
    } else if same_text(n, "lw"@) {
        12
    } else if same_text(n, "lbu"@) {
        13
    } else if same_text(n, "lhu"@) {
        14
    } else if same_text(n, "sb"@) {
        15
    } else if same_text(n, "sh"@) {
        16
    } else if same_text(n, "sw"@) {
        17
    } else if same_text(n, "addi"@) {
        18
    } else if same_text(n, "slti"@) {
        19
    } else if same_text(n, "sltiu"@) {
        20
    } else if same_text(n, "xori"@) {
        21
    } else if same_text(n, "ori"@) {
        22
    } else if same_text(n, "andi"@) {
        23
    } else if same_text(n, "slli"@) {
        24
    } else if same_text(n, "srli"@) {
        25
    } else if same_text(n, "srai"@) {
        26
    } else if same_text(n, "add"@) {
        27
    } else if same_text(n, "sub"@) {
        28
    } else if same_text(n, "sll"@) {
        29
    } else if same_text(n, "slt"@) {
        30
    } else if same_text(n, "sltu"@) {
        31
    } else if same_text(n, "xor"@) {
        32
    } else if same_text(n, "srl"@) {
        33
    } else if same_text(n, "sra"@) {
        34
    } else if same_text(n, "or"@) {
        35
    } else if same_text(n, "and"@) {
        36
    } else if same_text(n, "fence"@) {
        37
    } else if same_text(n, "ecall"@) {
        38
    } else if same_text(n, "ebreak"@) {
        39
    } else if same_text(n, "mret"@) {
        40
    } else if same_text(n, "WFI"@) {
        41
    } else if same_text(n, "csrrw"@) {
        42
    } else if same_text(n, "csrrs"@) {
        43
    } else if same_text(n, "csrrc"@) {
        44
    } else if same_text(n, "csrrwi"@) {
        45
    } else if same_text(n, "csrrsi"@) {
        46
    } else if same_text(n, "csrrci"@) {
        47
    } else if same_text(n, "mul"@) {
        48
    } else if same_text(n, "mulh"@) {
        49
    } else if same_text(n, "mulhsu"@) {
        50
    } else if same_text(n, "mulhu"@) {
        51
    } else if same_text(n, "div"@) {
        52
    } else if same_text(n, "divu"@) {
        53
    } else if same_text(n, "rem"@) {
        54
    } else if same_text(n, "remu"@) {
        55
    } else if same_text(n, "LRW"@) {
        56
    } else if same_text(n, "SCW"@) {
        57
    } else if same_text(n, "AMOSWAPW"@) {
        58
    } else if same_text(n, "AMOADDW"@) {
        59
    } else if same_text(n, "AMOXORW"@) {
        60
    } else if same_text(n, "AMOANDW"@) {
        61
    } else if same_text(n, "AMOORW"@) {
        62
    } else if same_text(n, "AMOMINW"@) {
        63
    } else if same_text(n, "AMOMAXW"@) {
        64
    } else if same_text(n, "AMOMINUW"@) {
        65
    } else if same_text(n, "AMOMAXUW"@) {
        66
    } else if same_text(n, "C.ADDI4SPN"@) {
        67
    } else if same_text(n, "C.FLD"@) {
        68
    } else if same_text(n, "C.LQ"@) {
        69
    } else if same_text(n, "C.LW"@) {
        70
    } else if same_text(n, "C.FLW"@) {
        71
    } else if same_text(n, "C.LD"@) {
        72
    } else if same_text(n, "C.FSD"@) {
        73
    } else if same_text(n, "C.SQ"@) {
        74
    } else if same_text(n, "C.SW"@) {
        75
    } else if same_text(n, "C.FSW"@) {
        76
    } else if same_text(n, "C.SD"@) {
        77
    } else if same_text(n, "C.NOP"@) {
        78
    } else if same_text(n, "C.ADDI"@) {
        79
    } else if same_text(n, "C.JAL"@) {
        80
    } else if same_text(n, "C.LI"@) {
        81
    } else if same_text(n, "C.ADDI16SP"@) {
        82
    } else if same_text(n, "C.LUI"@) {
        83
    } else if same_text(n, "C.SRLI"@) {
        84
    } else if same_text(n, "C.SRAI"@) {
        85
    } else if same_text(n, "C.ANDI"@) {
        86
    } else if same_text(n, "C.SUB"@) {
        87
    } else if same_text(n, "C.XOR"@) {
        88
    } else if same_text(n, "C.OR"@) {
        89
    } else if same_text(n, "C.AND"@) {
        90
    } else if same_text(n, "C.J"@) {
        91
    } else if same_text(n, "C.BEQZ"@) {
        92
    } else if same_text(n, "C.BNEZ"@) {
        93
    } else if same_text(n, "C.SLLI"@) {
        94
    } else if same_text(n, "C.FLDSP"@) {
        95
    } else if same_text(n, "C.LWSP"@) {
        96
    } else if same_text(n, "C.FLWSP"@) {
        97
    } else if same_text(n, "C.JR"@) {
        98
    } else if same_text(n, "C.MV"@) {
        99
    } else if same_text(n, "C.EBREAK"@) {
        100
    } else if same_text(n, "C.JALR"@) {
        101
    } else if same_text(n, "C.ADD"@) {
        102
    } else if same_text(n, "C.FSDSP"@) {
        103
    } else {
        106
    }
}

/// The name an instruction prints under gives back its kind, except for
/// `c.swsp` and `c.fswsp`, which print as `C.FSDSP`.
#[verifier::rlimit(100)]
proof fn lemma_name_gives_kind(a: Instruction)
    requires
        !(a is CSWSP),
        !(a is CFSWSP),
    ensures
        name_kind(a.name()@) == a.kind_number(),
{
    reveal_strlit("lui");
    assert("lui"@[0] == 'l' && "lui"@[1] == 'u' && "lui"@[2] == 'i');
    reveal_strlit("auipc");
    assert("auipc"@[0] == 'a' && "auipc"@[1] == 'u' && "auipc"@[2] == 'i' && "auipc"@[3] == 'p' && "auipc"@[4] == 'c');
    reveal_strlit("jal");
    assert("jal"@[0] == 'j' && "jal"@[1] == 'a' && "jal"@[2] == 'l');
    reveal_strlit("jalr");
    assert("jalr"@[0] == 'j' && "jalr"@[1] == 'a' && "jalr"@[2] == 'l' && "jalr"@[3] == 'r');
    reveal_strlit("beq");
    assert("beq"@[0] == 'b' && "beq"@[1] == 'e' && "beq"@[2] == 'q');
    reveal_strlit("bne");
    assert("bne"@[0] == 'b' && "bne"@[1] == 'n' && "bne"@[2] == 'e');
    reveal_strlit("blt");
    assert("blt"@[0] == 'b' && "blt"@[1] == 'l' && "blt"@[2] == 't');
    reveal_strlit("bge");
    assert("bge"@[0] == 'b' && "bge"@[1] == 'g' && "bge"@[2] == 'e');
    reveal_strlit("bltu");
    assert("bltu"@[0] == 'b' && "bltu"@[1] == 'l' && "bltu"@[2] == 't' && "bltu"@[3] == 'u');
    reveal_strlit("bgeu");
    assert("bgeu"@[0] == 'b' && "bgeu"@[1] == 'g' && "bgeu"@[2] == 'e' && "bgeu"@[3] == 'u');
    reveal_strlit("lb");
    assert("lb"@[0] == 'l' && "lb"@[1] == 'b');
    reveal_strlit("lh");
    assert("lh"@[0] == 'l' && "lh"@[1] == 'h');
    reveal_strlit("lw");
    assert("lw"@[0] == 'l' && "lw"@[1] == 'w');
    reveal_strlit("lbu");
    assert("lbu"@[0] == 'l' && "lbu"@[1] == 'b' && "lbu"@[2] == 'u');
    reveal_strlit("lhu");
    assert("lhu"@[0] == 'l' && "lhu"@[1] == 'h' && "lhu"@[2] == 'u');
    reveal_strlit("sb");
    assert("sb"@[0] == 's' && "sb"@[1] == 'b');
    reveal_strlit("sh");
    assert("sh"@[0] == 's' && "sh"@[1] == 'h');
    reveal_strlit("sw");
    assert("sw"@[0] == 's' && "sw"@[1] == 'w');
    reveal_strlit("addi");
    assert("addi"@[0] == 'a' && "addi"@[1] == 'd' && "addi"@[2] == 'd' && "addi"@[3] == 'i');
    reveal_strlit("slti");
    assert("slti"@[0] == 's' && "slti"@[1] == 'l' && "slti"@[2] == 't' && "slti"@[3] == 'i');
    reveal_strlit("sltiu");
    assert("sltiu"@[0] == 's' && "sltiu"@[1] == 'l' && "sltiu"@[2] == 't' && "sltiu"@[3] == 'i' && "sltiu"@[4] == 'u');
    reveal_strlit("xori");
    assert("xori"@[0] == 'x' && "xori"@[1] == 'o' && "xori"@[2] == 'r' && "xori"@[3] == 'i');
    reveal_strlit("ori");
    assert("ori"@[0] == 'o' && "ori"@[1] == 'r' && "ori"@[2] == 'i');
    reveal_strlit("andi");
    assert("andi"@[0] == 'a' && "andi"@[1] == 'n' && "andi"@[2] == 'd' && "andi"@[3] == 'i');
    reveal_strlit("slli");
    assert("slli"@[0] == 's' && "slli"@[1] == 'l' && "slli"@[2] == 'l' && "slli"@[3] == 'i');
    reveal_strlit("srli");
    assert("srli"@[0] == 's' && "srli"@[1] == 'r' && "srli"@[2] == 'l' && "srli"@[3] == 'i');
    reveal_strlit("srai");
    assert("srai"@[0] == 's' && "srai"@[1] == 'r' && "srai"@[2] == 'a' && "srai"@[3] == 'i');
    reveal_strlit("add");
    assert("add"@[0] == 'a' && "add"@[1] == 'd' && "add"@[2] == 'd');
    reveal_strlit("sub");
    assert("sub"@[0] == 's' && "sub"@[1] == 'u' && "sub"@[2] == 'b');
    reveal_strlit("sll");
    assert("sll"@[0] == 's' && "sll"@[1] == 'l' && "sll"@[2] == 'l');
    reveal_strlit("slt");
    assert("slt"@[0] == 's' && "slt"@[1] == 'l' && "slt"@[2] == 't');
    reveal_strlit("sltu");
    assert("sltu"@[0] == 's' && "sltu"@[1] == 'l' && "sltu"@[2] == 't' && "sltu"@[3] == 'u');
    reveal_strlit("xor");
    assert("xor"@[0] == 'x' && "xor"@[1] == 'o' && "xor"@[2] == 'r');
    reveal_strlit("srl");
    assert("srl"@[0] == 's' && "srl"@[1] == 'r' && "srl"@[2] == 'l');
    reveal_strlit("sra");
    assert("sra"@[0] == 's' && "sra"@[1] == 'r' && "sra"@[2] == 'a');
    reveal_strlit("or");
    assert("or"@[0] == 'o' && "or"@[1] == 'r');
    reveal_strlit("and");
    assert("and"@[0] == 'a' && "and"@[1] == 'n' && "and"@[2] == 'd');
    reveal_strlit("fence");
    assert("fence"@[0] == 'f' && "fence"@[1] == 'e' && "fence"@[2] == 'n' && "fence"@[3] == 'c' && "fence"@[4] == 'e');
    reveal_strlit("ecall");
    assert("ecall"@[0] == 'e' && "ecall"@[1] == 'c' && "ecall"@[2] == 'a' && "ecall"@[3] == 'l' && "ecall"@[4] == 'l');
    reveal_strlit("ebreak");
    assert("ebreak"@[0] == 'e' && "ebreak"@[1] == 'b' && "ebreak"@[2] == 'r' && "ebreak"@[3] == 'e' && "ebreak"@[4] == 'a' && "ebreak"@[5] == 'k');
    reveal_strlit("mret");
    assert("mret"@[0] == 'm' && "mret"@[1] == 'r' && "mret"@[2] == 'e' && "mret"@[3] == 't');
    reveal_strlit("WFI");
    assert("WFI"@[0] == 'W' && "WFI"@[1] == 'F' && "WFI"@[2] == 'I');
    reveal_strlit("csrrw");
    assert("csrrw"@[0] == 'c' && "csrrw"@[1] == 's' && "csrrw"@[2] == 'r' && "csrrw"@[3] == 'r' && "csrrw"@[4] == 'w');
    reveal_strlit("csrrs");
    assert("csrrs"@[0] == 'c' && "csrrs"@[1] == 's' && "csrrs"@[2] == 'r' && "csrrs"@[3] == 'r' && "csrrs"@[4] == 's');
    reveal_strlit("csrrc");
    assert("csrrc"@[0] == 'c' && "csrrc"@[1] == 's' && "csrrc"@[2] == 'r' && "csrrc"@[3] == 'r' && "csrrc"@[4] == 'c');
    reveal_strlit("csrrwi");
    assert("csrrwi"@[0] == 'c' && "csrrwi"@[1] == 's' && "csrrwi"@[2] == 'r' && "csrrwi"@[3] == 'r' && "csrrwi"@[4] == 'w' && "csrrwi"@[5] == 'i');
    reveal_strlit("csrrsi");
    assert("csrrsi"@[0] == 'c' && "csrrsi"@[1] == 's' && "csrrsi"@[2] == 'r' && "csrrsi"@[3] == 'r' && "csrrsi"@[4] == 's' && "csrrsi"@[5] == 'i');
    reveal_strlit("csrrci");
    assert("csrrci"@[0] == 'c' && "csrrci"@[1] == 's' && "csrrci"@[2] == 'r' && "csrrci"@[3] == 'r' && "csrrci"@[4] == 'c' && "csrrci"@[5] == 'i');
    reveal_strlit("mul");
    assert("mul"@[0] == 'm' && "mul"@[1] == 'u' && "mul"@[2] == 'l');
    reveal_strlit("mulh");
    assert("mulh"@[0] == 'm' && "mulh"@[1] == 'u' && "mulh"@[2] == 'l' && "mulh"@[3] == 'h');
    reveal_strlit("mulhsu");
    assert("mulhsu"@[0] == 'm' && "mulhsu"@[1] == 'u' && "mulhsu"@[2] == 'l' && "mulhsu"@[3] == 'h' && "mulhsu"@[4] == 's' && "mulhsu"@[5] == 'u');
    reveal_strlit("mulhu");
    assert("mulhu"@[0] == 'm' && "mulhu"@[1] == 'u' && "mulhu"@[2] == 'l' && "mulhu"@[3] == 'h' && "mulhu"@[4] == 'u');
    reveal_strlit("div");
    assert("div"@[0] == 'd' && "div"@[1] == 'i' && "div"@[2] == 'v');
    reveal_strlit("divu");
    assert("divu"@[0] == 'd' && "divu"@[1] == 'i' && "divu"@[2] == 'v' && "divu"@[3] == 'u');
    reveal_strlit("rem");
    assert("rem"@[0] == 'r' && "rem"@[1] == 'e' && "rem"@[2] == 'm');
    reveal_strlit("remu");
    assert("remu"@[0] == 'r' && "remu"@[1] == 'e' && "remu"@[2] == 'm' && "remu"@[3] == 'u');
    reveal_strlit("LRW");
    assert("LRW"@[0] == 'L' && "LRW"@[1] == 'R' && "LRW"@[2] == 'W');
    reveal_strlit("SCW");
    assert("SCW"@[0] == 'S' && "SCW"@[1] == 'C' && "SCW"@[2] == 'W');
    reveal_strlit("AMOSWAPW");
    assert("AMOSWAPW"@[0] == 'A' && "AMOSWAPW"@[1] == 'M' && "AMOSWAPW"@[2] == 'O' && "AMOSWAPW"@[3] == 'S' && "AMOSWAPW"@[4] == 'W' && "AMOSWAPW"@[5] == 'A' && "AMOSWAPW"@[6] == 'P' && "AMOSWAPW"@[7] == 'W');
    reveal_strlit("AMOADDW");
    assert("AMOADDW"@[0] == 'A' && "AMOADDW"@[1] == 'M' && "AMOADDW"@[2] == 'O' && "AMOADDW"@[3] == 'A' && "AMOADDW"@[4] == 'D' && "AMOADDW"@[5] == 'D' && "AMOADDW"@[6] == 'W');
    reveal_strlit("AMOXORW");
    assert("AMOXORW"@[0] == 'A' && "AMOXORW"@[1] == 'M' && "AMOXORW"@[2] == 'O' && "AMOXORW"@[3] == 'X' && "AMOXORW"@[4] == 'O' && "AMOXORW"@[5] == 'R' && "AMOXORW"@[6] == 'W');
    reveal_strlit("AMOANDW");
    assert("AMOANDW"@[0] == 'A' && "AMOANDW"@[1] == 'M' && "AMOANDW"@[2] == 'O' && "AMOANDW"@[3] == 'A' && "AMOANDW"@[4] == 'N' && "AMOANDW"@[5] == 'D' && "AMOANDW"@[6] == 'W');
    reveal_strlit("AMOORW");
    assert("AMOORW"@[0] == 'A' && "AMOORW"@[1] == 'M' && "AMOORW"@[2] == 'O' && "AMOORW"@[3] == 'O' && "AMOORW"@[4] == 'R' && "AMOORW"@[5] == 'W');
    reveal_strlit("AMOMINW");
    assert("AMOMINW"@[0] == 'A' && "AMOMINW"@[1] == 'M' && "AMOMINW"@[2] == 'O' && "AMOMINW"@[3] == 'M' && "AMOMINW"@[4] == 'I' && "AMOMINW"@[5] == 'N' && "AMOMINW"@[6] == 'W');
    reveal_strlit("AMOMAXW");
    assert("AMOMAXW"@[0] == 'A' && "AMOMAXW"@[1] == 'M' && "AMOMAXW"@[2] == 'O' && "AMOMAXW"@[3] == 'M' && "AMOMAXW"@[4] == 'A' && "AMOMAXW"@[5] == 'X' && "AMOMAXW"@[6] == 'W');
    reveal_strlit("AMOMINUW");
    assert("AMOMINUW"@[0] == 'A' && "AMOMINUW"@[1] == 'M' && "AMOMINUW"@[2] == 'O' && "AMOMINUW"@[3] == 'M' && "AMOMINUW"@[4] == 'I' && "AMOMINUW"@[5] == 'N' && "AMOMINUW"@[6] == 'U' && "AMOMINUW"@[7] == 'W');
    reveal_strlit("AMOMAXUW");
    assert("AMOMAXUW"@[0] == 'A' && "AMOMAXUW"@[1] == 'M' && "AMOMAXUW"@[2] == 'O' && "AMOMAXUW"@[3] == 'M' && "AMOMAXUW"@[4] == 'A' && "AMOMAXUW"@[5] == 'X' && "AMOMAXUW"@[6] == 'U' && "AMOMAXUW"@[7] == 'W');
    reveal_strlit("C.ADDI4SPN");
    assert("C.ADDI4SPN"@[0] == 'C' && "C.ADDI4SPN"@[1] == '.' && "C.ADDI4SPN"@[2] == 'A' && "C.ADDI4SPN"@[3] == 'D' && "C.ADDI4SPN"@[4] == 'D' && "C.ADDI4SPN"@[5] == 'I' && "C.ADDI4SPN"@[6] == '4' && "C.ADDI4SPN"@[7] == 'S' && "C.ADDI4SPN"@[8] == 'P' && "C.ADDI4SPN"@[9] == 'N');
    reveal_strlit("C.FLD");
    assert("C.FLD"@[0] == 'C' && "C.FLD"@[1] == '.' && "C.FLD"@[2] == 'F' && "C.FLD"@[3] == 'L' && "C.FLD"@[4] == 'D');
    reveal_strlit("C.LQ");
    assert("C.LQ"@[0] == 'C' && "C.LQ"@[1] == '.' && "C.LQ"@[2] == 'L' && "C.LQ"@[3] == 'Q');
    reveal_strlit("C.LW");
    assert("C.LW"@[0] == 'C' && "C.LW"@[1] == '.' && "C.LW"@[2] == 'L' && "C.LW"@[3] == 'W');
    reveal_strlit("C.FLW");
    assert("C.FLW"@[0] == 'C' && "C.FLW"@[1] == '.' && "C.FLW"@[2] == 'F' && "C.FLW"@[3] == 'L' && "C.FLW"@[4] == 'W');
    reveal_strlit("C.LD");
    assert("C.LD"@[0] == 'C' && "C.LD"@[1] == '.' && "C.LD"@[2] == 'L' && "C.LD"@[3] == 'D');
    reveal_strlit("C.FSD");
    assert("C.FSD"@[0] == 'C' && "C.FSD"@[1] == '.' && "C.FSD"@[2] == 'F' && "C.FSD"@[3] == 'S' && "C.FSD"@[4] == 'D');
    reveal_strlit("C.SQ");
    assert("C.SQ"@[0] == 'C' && "C.SQ"@[1] == '.' && "C.SQ"@[2] == 'S' && "C.SQ"@[3] == 'Q');
    reveal_strlit("C.SW");
    assert("C.SW"@[0] == 'C' && "C.SW"@[1] == '.' && "C.SW"@[2] == 'S' && "C.SW"@[3] == 'W');
    reveal_strlit("C.FSW");
    assert("C.FSW"@[0] == 'C' && "C.FSW"@[1] == '.' && "C.FSW"@[2] == 'F' && "C.FSW"@[3] == 'S' && "C.FSW"@[4] == 'W');
    reveal_strlit("C.SD");
    assert("C.SD"@[0] == 'C' && "C.SD"@[1] == '.' && "C.SD"@[2] == 'S' && "C.SD"@[3] == 'D');
    reveal_strlit("C.NOP");
    assert("C.NOP"@[0] == 'C' && "C.NOP"@[1] == '.' && "C.NOP"@[2] == 'N' && "C.NOP"@[3] == 'O' && "C.NOP"@[4] == 'P');
    reveal_strlit("C.ADDI");
    assert("C.ADDI"@[0] == 'C' && "C.ADDI"@[1] == '.' && "C.ADDI"@[2] == 'A' && "C.ADDI"@[3] == 'D' && "C.ADDI"@[4] == 'D' && "C.ADDI"@[5] == 'I');
    reveal_strlit("C.JAL");
    assert("C.JAL"@[0] == 'C' && "C.JAL"@[1] == '.' && "C.JAL"@[2] == 'J' && "C.JAL"@[3] == 'A' && "C.JAL"@[4] == 'L');
    reveal_strlit("C.LI");
    assert("C.LI"@[0] == 'C' && "C.LI"@[1] == '.' && "C.LI"@[2] == 'L' && "C.LI"@[3] == 'I');
    reveal_strlit("C.ADDI16SP");
    assert("C.ADDI16SP"@[0] == 'C' && "C.ADDI16SP"@[1] == '.' && "C.ADDI16SP"@[2] == 'A' && "C.ADDI16SP"@[3] == 'D' && "C.ADDI16SP"@[4] == 'D' && "C.ADDI16SP"@[5] == 'I' && "C.ADDI16SP"@[6] == '1' && "C.ADDI16SP"@[7] == '6' && "C.ADDI16SP"@[8] == 'S' && "C.ADDI16SP"@[9] == 'P');
    reveal_strlit("C.LUI");
    assert("C.LUI"@[0] == 'C' && "C.LUI"@[1] == '.' && "C.LUI"@[2] == 'L' && "C.LUI"@[3] == 'U' && "C.LUI"@[4] == 'I');
    reveal_strlit("C.SRLI");
    assert("C.SRLI"@[0] == 'C' && "C.SRLI"@[1] == '.' && "C.SRLI"@[2] == 'S' && "C.SRLI"@[3] == 'R' && "C.SRLI"@[4] == 'L' && "C.SRLI"@[5] == 'I');
    reveal_strlit("C.SRAI");
    assert("C.SRAI"@[0] == 'C' && "C.SRAI"@[1] == '.' && "C.SRAI"@[2] == 'S' && "C.SRAI"@[3] == 'R' && "C.SRAI"@[4] == 'A' && "C.SRAI"@[5] == 'I');
    reveal_strlit("C.ANDI");
    assert("C.ANDI"@[0] == 'C' && "C.ANDI"@[1] == '.' && "C.ANDI"@[2] == 'A' && "C.ANDI"@[3] == 'N' && "C.ANDI"@[4] == 'D' && "C.ANDI"@[5] == 'I');
    reveal_strlit("C.SUB");
    assert("C.SUB"@[0] == 'C' && "C.SUB"@[1] == '.' && "C.SUB"@[2] == 'S' && "C.SUB"@[3] == 'U' && "C.SUB"@[4] == 'B');
    reveal_strlit("C.XOR");
    assert("C.XOR"@[0] == 'C' && "C.XOR"@[1] == '.' && "C.XOR"@[2] == 'X' && "C.XOR"@[3] == 'O' && "C.XOR"@[4] == 'R');
    reveal_strlit("C.OR");
    assert("C.OR"@[0] == 'C' && "C.OR"@[1] == '.' && "C.OR"@[2] == 'O' && "C.OR"@[3] == 'R');
    reveal_strlit("C.AND");
    assert("C.AND"@[0] == 'C' && "C.AND"@[1] == '.' && "C.AND"@[2] == 'A' && "C.AND"@[3] == 'N' && "C.AND"@[4] == 'D');
    reveal_strlit("C.J");
    assert("C.J"@[0] == 'C' && "C.J"@[1] == '.' && "C.J"@[2] == 'J');
    reveal_strlit("C.BEQZ");
    assert("C.BEQZ"@[0] == 'C' && "C.BEQZ"@[1] == '.' && "C.BEQZ"@[2] == 'B' && "C.BEQZ"@[3] == 'E' && "C.BEQZ"@[4] == 'Q' && "C.BEQZ"@[5] == 'Z');
    reveal_strlit("C.BNEZ");
    assert("C.BNEZ"@[0] == 'C' && "C.BNEZ"@[1] == '.' && "C.BNEZ"@[2] == 'B' && "C.BNEZ"@[3] == 'N' && "C.BNEZ"@[4] == 'E' && "C.BNEZ"@[5] == 'Z');
    reveal_strlit("C.SLLI");
    assert("C.SLLI"@[0] == 'C' && "C.SLLI"@[1] == '.' && "C.SLLI"@[2] == 'S' && "C.SLLI"@[3] == 'L' && "C.SLLI"@[4] == 'L' && "C.SLLI"@[5] == 'I');
    reveal_strlit("C.FLDSP");
    assert("C.FLDSP"@[0] == 'C' && "C.FLDSP"@[1] == '.' && "C.FLDSP"@[2] == 'F' && "C.FLDSP"@[3] == 'L' && "C.FLDSP"@[4] == 'D' && "C.FLDSP"@[5] == 'S' && "C.FLDSP"@[6] == 'P');
    reveal_strlit("C.LWSP");
    assert("C.LWSP"@[0] == 'C' && "C.LWSP"@[1] == '.' && "C.LWSP"@[2] == 'L' && "C.LWSP"@[3] == 'W' && "C.LWSP"@[4] == 'S' && "C.LWSP"@[5] == 'P');
    reveal_strlit("C.FLWSP");
    assert("C.FLWSP"@[0] == 'C' && "C.FLWSP"@[1] == '.' && "C.FLWSP"@[2] == 'F' && "C.FLWSP"@[3] == 'L' && "C.FLWSP"@[4] == 'W' && "C.FLWSP"@[5] == 'S' && "C.FLWSP"@[6] == 'P');
    reveal_strlit("C.JR");
    assert("C.JR"@[0] == 'C' && "C.JR"@[1] == '.' && "C.JR"@[2] == 'J' && "C.JR"@[3] == 'R');
    reveal_strlit("C.MV");
    assert("C.MV"@[0] == 'C' && "C.MV"@[1] == '.' && "C.MV"@[2] == 'M' && "C.MV"@[3] == 'V');
    reveal_strlit("C.EBREAK");
    assert("C.EBREAK"@[0] == 'C' && "C.EBREAK"@[1] == '.' && "C.EBREAK"@[2] == 'E' && "C.EBREAK"@[3] == 'B' && "C.EBREAK"@[4] == 'R' && "C.EBREAK"@[5] == 'E' && "C.EBREAK"@[6] == 'A' && "C.EBREAK"@[7] == 'K');
    reveal_strlit("C.JALR");
    assert("C.JALR"@[0] == 'C' && "C.JALR"@[1] == '.' && "C.JALR"@[2] == 'J' && "C.JALR"@[3] == 'A' && "C.JALR"@[4] == 'L' && "C.JALR"@[5] == 'R');
    reveal_strlit("C.ADD");
    assert("C.ADD"@[0] == 'C' && "C.ADD"@[1] == '.' && "C.ADD"@[2] == 'A' && "C.ADD"@[3] == 'D' && "C.ADD"@[4] == 'D');
    reveal_strlit("C.FSDSP");
    assert("C.FSDSP"@[0] == 'C' && "C.FSDSP"@[1] == '.' && "C.FSDSP"@[2] == 'F' && "C.FSDSP"@[3] == 'S' && "C.FSDSP"@[4] == 'D' && "C.FSDSP"@[5] == 'S' && "C.FSDSP"@[6] == 'P');
    match a {
        Instruction::LUI(..) => assert(name_kind("lui"@) == 0),
        Instruction::AUIPC(..) => assert(name_kind("auipc"@) == 1),
        Instruction::JAL(..) => assert(name_kind("jal"@) == 2),
        Instruction::JALR(..) => assert(name_kind("jalr"@) == 3),
        Instruction::BEQ(..) => assert(name_kind("beq"@) == 4),
        Instruction::BNE(..) => assert(name_kind("bne"@) == 5),
        Instruction::BLT(..) => assert(name_kind("blt"@) == 6),
        Instruction::BGE(..) => assert(name_kind("bge"@) == 7),
        Instruction::BLTU(..) => assert(name_kind("bltu"@) == 8),
        Instruction::BGEU(..) => assert(name_kind("bgeu"@) == 9),
        Instruction::LB(..) => assert(name_kind("lb"@) == 10),
        Instruction::LH(..) => assert(name_kind("lh"@) == 11),
        Instruction::LW(..) => assert(name_kind("lw"@) == 12),
        Instruction::LBU(..) => assert(name_kind("lbu"@) == 13),
        Instruction::LHU(..) => assert(name_kind("lhu"@) == 14),
        Instruction::SB(..) => assert(name_kind("sb"@) == 15),
        Instruction::SH(..) => assert(name_kind("sh"@) == 16),
        Instruction::SW(..) => assert(name_kind("sw"@) == 17),
        Instruction::ADDI(..) => assert(name_kind("addi"@) == 18),
        Instruction::SLTI(..) => assert(name_kind("slti"@) == 19),
        Instruction::SLTIU(..) => assert(name_kind("sltiu"@) == 20),
        Instruction::XORI(..) => assert(name_kind("xori"@) == 21),
        Instruction::ORI(..) => assert(name_kind("ori"@) == 22),
        Instruction::ANDI(..) => assert(name_kind("andi"@) == 23),
        Instruction::SLLI(..) => assert(name_kind("slli"@) == 24),
        Instruction::SRLI(..) => assert(name_kind("srli"@) == 25),
        Instruction::SRAI(..) => assert(name_kind("srai"@) == 26),
        Instruction::ADD(..) => assert(name_kind("add"@) == 27),
        Instruction::SUB(..) => assert(name_kind("sub"@) == 28),
        Instruction::SLL(..) => assert(name_kind("sll"@) == 29),
        Instruction::SLT(..) => assert(name_kind("slt"@) == 30),
        Instruction::SLTU(..) => assert(name_kind("sltu"@) == 31),
        Instruction::XOR(..) => assert(name_kind("xor"@) == 32),
        Instruction::SRL(..) => assert(name_kind("srl"@) == 33),
        Instruction::SRA(..) => assert(name_kind("sra"@) == 34),
        Instruction::OR(..) => assert(name_kind("or"@) == 35),
        Instruction::AND(..) => assert(name_kind("and"@) == 36),
        Instruction::FENCE(..) => assert(name_kind("fence"@) == 37),
        Instruction::ECALL(..) => assert(name_kind("ecall"@) == 38),
        Instruction::EBREAK(..) => assert(name_kind("ebreak"@) == 39),
        Instruction::MRET(..) => assert(name_kind("mret"@) == 40),
        Instruction::WFI(..) => assert(name_kind("WFI"@) == 41),
        Instruction::CSRRW(..) => assert(name_kind("csrrw"@) == 42),
        Instruction::CSRRS(..) => assert(name_kind("csrrs"@) == 43),
        Instruction::CSRRC(..) => assert(name_kind("csrrc"@) == 44),
        Instruction::CSRRWI(..) => assert(name_kind("csrrwi"@) == 45),
        Instruction::CSRRSI(..) => assert(name_kind("csrrsi"@) == 46),
        Instruction::CSRRCI(..) => assert(name_kind("csrrci"@) == 47),
        Instruction::MUL(..) => assert(name_kind("mul"@) == 48),
        Instruction::MULH(..) => assert(name_kind("mulh"@) == 49),
        Instruction::MULHSU(..) => assert(name_kind("mulhsu"@) == 50),
        Instruction::MULHU(..) => assert(name_kind("mulhu"@) == 51),
        Instruction::DIV(..) => assert(name_kind("div"@) == 52),
        Instruction::DIVU(..) => assert(name_kind("divu"@) == 53),
        Instruction::REM(..) => assert(name_kind("rem"@) == 54),
        Instruction::REMU(..) => assert(name_kind("remu"@) == 55),
        Instruction::LRW(..) => assert(name_kind("LRW"@) == 56),
        Instruction::SCW(..) => assert(name_kind("SCW"@) == 57),
        Instruction::AMOSWAPW(..) => assert(name_kind("AMOSWAPW"@) == 58),
        Instruction::AMOADDW(..) => assert(name_kind("AMOADDW"@) == 59),
        Instruction::AMOXORW(..) => assert(name_kind("AMOXORW"@) == 60),
        Instruction::AMOANDW(..) => assert(name_kind("AMOANDW"@) == 61),
        Instruction::AMOORW(..) => assert(name_kind("AMOORW"@) == 62),
        Instruction::AMOMINW(..) => assert(name_kind("AMOMINW"@) == 63),
        Instruction::AMOMAXW(..) => assert(name_kind("AMOMAXW"@) == 64),
        Instruction::AMOMINUW(..) => assert(name_kind("AMOMINUW"@) == 65),
        Instruction::AMOMAXUW(..) => assert(name_kind("AMOMAXUW"@) == 66),
        Instruction::CADDI4SPN(..) => assert(name_kind("C.ADDI4SPN"@) == 67),
        Instruction::CFLD(..) => assert(name_kind("C.FLD"@) == 68),
        Instruction::CLQ(..) => assert(name_kind("C.LQ"@) == 69),
        Instruction::CLW(..) => assert(name_kind("C.LW"@) == 70),
        Instruction::CFLW(..) => assert(name_kind("C.FLW"@) == 71),
        Instruction::CLD(..) => assert(name_kind("C.LD"@) == 72),
        Instruction::CFSD(..) => assert(name_kind("C.FSD"@) == 73),
        Instruction::CSQ(..) => assert(name_kind("C.SQ"@) == 74),
        Instruction::CSW(..) => assert(name_kind("C.SW"@) == 75),
        Instruction::CFSW(..) => assert(name_kind("C.FSW"@) == 76),
        Instruction::CSD(..) => assert(name_kind("C.SD"@) == 77),
        Instruction::CNOP(..) => assert(name_kind("C.NOP"@) == 78),
        Instruction::CADDI(..) => assert(name_kind("C.ADDI"@) == 79),
        Instruction::CJAL(..) => assert(name_kind("C.JAL"@) == 80),
        Instruction::CLI(..) => assert(name_kind("C.LI"@) == 81),
        Instruction::CADDI16SP(..) => assert(name_kind("C.ADDI16SP"@) == 82),
        Instruction::CLUI(..) => assert(name_kind("C.LUI"@) == 83),
        Instruction::CSRLI(..) => assert(name_kind("C.SRLI"@) == 84),
        Instruction::CSRAI(..) => assert(name_kind("C.SRAI"@) == 85),
        Instruction::CANDI(..) => assert(name_kind("C.ANDI"@) == 86),
        Instruction::CSUB(..) => assert(name_kind("C.SUB"@) == 87),
        Instruction::CXOR(..) => assert(name_kind("C.XOR"@) == 88),
        Instruction::COR(..) => assert(name_kind("C.OR"@) == 89),
        Instruction::CAND(..) => assert(name_kind("C.AND"@) == 90),
        Instruction::CJ(..) => assert(name_kind("C.J"@) == 91),
        Instruction::CBEQZ(..) => assert(name_kind("C.BEQZ"@) == 92),
        Instruction::CBNEZ(..) => assert(name_kind("C.BNEZ"@) == 93),
        Instruction::CSLLI(..) => assert(name_kind("C.SLLI"@) == 94),
        Instruction::CFLDSP(..) => assert(name_kind("C.FLDSP"@) == 95),
        Instruction::CLWSP(..) => assert(name_kind("C.LWSP"@) == 96),
        Instruction::CFLWSP(..) => assert(name_kind("C.FLWSP"@) == 97),
        Instruction::CJR(..) => assert(name_kind("C.JR"@) == 98),
        Instruction::CMV(..) => assert(name_kind("C.MV"@) == 99),
        Instruction::CEBREAK(..) => assert(name_kind("C.EBREAK"@) == 100),
        Instruction::CJALR(..) => assert(name_kind("C.JALR"@) == 101),
        Instruction::CADD(..) => assert(name_kind("C.ADD"@) == 102),
        Instruction::CFSDSP(..) => assert(name_kind("C.FSDSP"@) == 103),
        Instruction::CSWSP(..) => {},
        Instruction::CFSWSP(..) => {},
    }
}

/// Two instructions that print under the same name are of the same kind:
/// no two kinds share a name (`c.swsp` and `c.fswsp` aside, which print as
/// `C.FSDSP`), so, for one, `bgeu` never shows as `bge`.
pub proof fn lemma_name_tells_kind(a: Instruction, b: Instruction)
    requires
        !(a is CSWSP),
        !(a is CFSWSP),
        !(b is CSWSP),
        !(b is CFSWSP),
        a.name()@ == b.name()@,
    ensures
        a.kind_number() == b.kind_number(),
{
    lemma_name_gives_kind(a);
    lemma_name_gives_kind(b);
}

} // verus!
