//! The decoder is split into the four quadrants of RISC-V encodings, told
//! apart by the two lowest bits. Quadrants 0 to 2 hold the 16-bit compressed
//! instructions, quadrant 3 the regular 32-bit wide ones.
//! See chapter 34 of The RISC-V Instruction Set Manual Volume I, Version 20240411.
use vstd::prelude::*;

use crate::instructions::Instruction;

pub mod decoder_q0;
pub mod decoder_q1;
pub mod decoder_q2;
pub mod decoder_q3;

pub use crate::bits::bit_from_to;

verus! {

/// Bit `from` of `inst` moved to bit position `to`.
pub open spec fn bit(inst: u32, from: u32, to: u32) -> u32 {
    ((inst >> from) & 1) << to
}

/// Bounds of the register fields and of the immediate parts read from them.
pub proof fn lemma_field_bounds(inst: u32)
    ensures
        (inst >> 2) & 0b1_1111 < 32,
        (inst >> 7) & 0b1_1111 < 32,
        (inst >> 15) & 0b1_1111 < 32,
        (inst >> 20) & 0b1_1111 < 32,
        (inst >> 2) & 0b111 < 8,
        (inst >> 7) & 0b111 < 8,
        ((inst >> 2) & 0b1_1111) << 12 <= 0x1F000,
        inst & 0b11 < 4,
        (inst >> 5) & 0b11 < 4,
        (inst >> 12) & 0b111 < 8,
{
    assert((inst >> 2) & 0b1_1111 < 32 && (inst >> 7) & 0b1_1111 < 32 && (inst >> 15) & 0b1_1111 < 32
        && (inst >> 20) & 0b1_1111 < 32 && (inst >> 2) & 0b111 < 8 && (inst >> 7) & 0b111 < 8
        && ((inst >> 2) & 0b1_1111) << 12 <= 0x1F000 && inst & 0b11 < 4 && (inst >> 5) & 0b11 < 4
        && (inst >> 12) & 0b111 < 8) by (bit_vector);
    vstd::arithmetic::power2::lemma2_to64();
}

/// The decoding of `instruction`, by quadrant.
pub open spec fn spec_decode(instruction: u32) -> Result<Instruction, &'static str> {
    let quadrant = instruction & 0b11;
    if quadrant == 0 {
        decoder_q0::spec_decode(instruction & 0xFFFF)
    } else if quadrant == 1 {
        decoder_q1::spec_decode(instruction & 0xFFFF)
    } else if quadrant == 2 {
        decoder_q2::spec_decode(instruction & 0xFFFF)
    } else {
        decoder_q3::spec_decode(instruction)
    }
}

/// Branch and jump offsets are multiples of two.
pub open spec fn even_offsets(inst: Instruction) -> bool {
    match inst {
        Instruction::JAL(_, imm) | Instruction::BEQ(_, _, imm) | Instruction::BNE(_, _, imm)
        | Instruction::BLT(_, _, imm) | Instruction::BGE(_, _, imm) | Instruction::BLTU(_, _, imm)
        | Instruction::BGEU(_, _, imm) | Instruction::CJAL(imm) | Instruction::CJ(imm)
        | Instruction::CBEQZ(_, imm) | Instruction::CBNEZ(_, imm) => imm % 2 == 0,
        _ => true,
    }
}

/// Decodes one instruction. Only the lowest 16 bits of a compressed
/// instruction are read.
///
/// Whatever decodes names registers below 32 and has even branch and jump
/// offsets, and it is compressed exactly when the two lowest bits are not `0b11`.
pub fn decode(instruction: u32) -> (r: Result<Instruction, &'static str>)
    ensures
        r == spec_decode(instruction),
        r matches Ok(inst) ==> inst.wf() && even_offsets(inst),
        r matches Ok(inst) ==> (inst.spec_is_compressed() <==> instruction & 0b11 != 0b11),
{
    let encoding_quadrant = instruction & 0b11;
    proof {
        lemma_field_bounds(instruction);
    }
    if encoding_quadrant == 0 {
        decoder_q0::decode(instruction & 0xFFFF)
    } else if encoding_quadrant == 1 {
        decoder_q1::decode(instruction & 0xFFFF)
    } else if encoding_quadrant == 2 {
        decoder_q2::decode(instruction & 0xFFFF)
    } else {
        decoder_q3::decode(instruction)
    }
}

/// The register format of quadrant 2 (bits 15:13 `100`), with `r` the
/// register in bits 11:7 and `s` the one in bits 6:2: with bit 12 clear it
/// is `c.jr r` (a jump to `r` that links nothing) when `s` is zero, else
/// `c.mv r, s`; with bit 12 set it is `c.ebreak` when both are zero,
/// `c.jalr r` (a jump to `r` that links the return address in `ra`) when
/// only `s` is, else `c.add r, s`. Each stands for the 32-bit instruction
/// given with it.
pub proof fn lemma_decode_compressed_register_format(x: u32)
    requires
        x < 0x1_0000,
        x & 0b11 == 0b10,
        x >> 13 == 0b100,
    ensures
        ({
            let r = ((x >> 7) & 0x1F) as usize;
            let s = ((x >> 2) & 0x1F) as usize;
            let link = (x >> 12) & 1 == 1;
            &&& !link && s == 0 ==> spec_decode(x) == Ok::<Instruction, &'static str>(Instruction::CJR(r))
                && Instruction::CJR(r).spec_decompress() == Some(Instruction::JALR(0, r, 0))
            &&& !link && s != 0 ==> spec_decode(x) == Ok::<Instruction, &'static str>(Instruction::CMV(r, s))
                && Instruction::CMV(r, s).spec_decompress() == Some(Instruction::ADD(r, 0, s))
            &&& link && s == 0 && r == 0 ==> spec_decode(x) == Ok::<Instruction, &'static str>(Instruction::CEBREAK())
                && Instruction::CEBREAK().spec_decompress() == Some(Instruction::EBREAK())
            &&& link && s == 0 && r != 0 ==> spec_decode(x) == Ok::<Instruction, &'static str>(Instruction::CJALR(r))
                && Instruction::CJALR(r).spec_decompress() == Some(Instruction::JALR(1, r, 0))
            &&& link && s != 0 ==> spec_decode(x) == Ok::<Instruction, &'static str>(Instruction::CADD(r, s))
                && Instruction::CADD(r, s).spec_decompress() == Some(Instruction::ADD(r, r, s))
        }),
{
    assert(x & 0xFFFF == x && (x & 0xFFFF) >> 13 == 4) by (bit_vector)
        requires
            x < 0x1_0000,
            x >> 13 == 0b100,
    ;
}

/// The stack-pointer forms of quadrant 2, read field by field: `c.lwsp rd`
/// (bits 15:13 `010`) loads from `sp` plus `uimm[5]` from bit 12,
/// `uimm[4:2]` from bits 6:4 and `uimm[7:6]` from bits 3:2; `c.swsp rs2`
/// (bits 15:13 `110`) stores `rs2` (bits 6:2) at `sp` plus `uimm[5:2]` from
/// bits 12:9 and `uimm[7:6]` from bits 8:7; `c.slli rd` (bits 15:13 `000`)
/// shifts `rd` left by bit 12 and bits 6:2 as `shamt[5]` and `shamt[4:0]`.
pub proof fn lemma_decode_compressed_stack_forms(x: u32)
    requires
        x < 0x1_0000,
        x & 0b11 == 0b10,
    ensures
        ({
            let rd = ((x >> 7) & 0x1F) as usize;
            let rs2 = ((x >> 2) & 0x1F) as usize;
            let lw_off = (((x >> 12) & 1) << 5) | (((x >> 4) & 0b111) << 2) | (((x >> 2) & 0b11) << 6);
            let sw_off = (((x >> 9) & 0b1111) << 2) | (((x >> 7) & 0b11) << 6);
            let shamt = (((x >> 12) & 1) << 5) | ((x >> 2) & 0x1F);
            &&& x >> 13 == 0b010 ==> spec_decode(x) == Ok::<Instruction, &'static str>(
                Instruction::CLWSP(rd, lw_off as i32),
            ) && Instruction::CLWSP(rd, lw_off as i32).spec_decompress() == Some(Instruction::LW(rd, 2, lw_off as i32))
            &&& x >> 13 == 0b110 ==> spec_decode(x) == Ok::<Instruction, &'static str>(
                Instruction::CSWSP(rs2, sw_off as i32),
            ) && Instruction::CSWSP(rs2, sw_off as i32).spec_decompress() == Some(
                Instruction::SW(2, rs2, sw_off as i32),
            )
            &&& x >> 13 == 0b000 ==> spec_decode(x) == Ok::<Instruction, &'static str>(
                Instruction::CSLLI(rd, shamt as i32),
            ) && Instruction::CSLLI(rd, shamt as i32).spec_decompress() == Some(
                Instruction::SLLI(rd, rd, shamt as i32),
            )
        }),
{
    assert(x & 0xFFFF == x && decoder_q2::spec_ci_offset(x) == (((x >> 12) & 1) << 5) | (((x >> 4) & 0b111) << 2) | (((
    x >> 2) & 0b11) << 6) && decoder_q2::spec_css_offset(x) == (((x >> 9) & 0b1111) << 2) | (((x >> 7) & 0b11) << 6)
        && decoder_q2::spec_shamt(x) == (((x >> 12) & 1) << 5) | ((x >> 2) & 0x1F)) by (bit_vector)
        requires
            x < 0x1_0000,
    ;
}

/// The fields of a 32-bit instruction word as the decoder reads them: the
/// major opcode is bits 6:2, and the immediates are put together from
/// their bit fields and sign-extended from their top bit, bit 31.
proof fn lemma_q3_fields(x: u32)
    by (bit_vector)
    ensures
        x & 0b11 == (x & 0x7F) % 4,
        ((x >> 5) & 0b11) * 8 + ((x >> 2) & 0b111) == (x & 0x7F) / 4,
        decoder_q3::spec_imm_i(x) as int == (x >> 20) as int - (if x >> 31 == 1 { 0x1000int } else { 0int }),
        decoder_q3::spec_imm_s(x) as int == ((((x >> 25) << 5) | ((x >> 7) & 0x1F)) as int) - (if x >> 31 == 1 {
            0x1000int
        } else {
            0int
        }),
        decoder_q3::spec_imm_b(x) as int == (((x >> 31) << 12) | (((x >> 7) & 1) << 11) | (((x >> 25) & 0x3F) << 5) | (((
        x >> 8) & 0xF) << 1)) as int - (if x >> 31 == 1 { 0x2000int } else { 0int }),
        decoder_q3::spec_imm_j(x) as int == (((x >> 31) << 20) | (((x >> 12) & 0xFF) << 12) | (((x >> 20) & 1) << 11) | (((
        x >> 21) & 0x3FF) << 1)) as int - (if x >> 31 == 1 { 0x20_0000int } else { 0int }),
        decoder_q3::spec_imm_u(x) as int == (x & 0xFFFF_F000) as int - (if x >> 31 == 1 { 0x1_0000_0000int } else { 0int }),
{
}

/// The register-register operations (opcode `0110011`), with `rd`, `rs1`,
/// `rs2` in bits 11:7, 19:15, 24:20, `funct3` in bits 14:12 and `funct7`
/// in bits 31:25: `funct7` zero selects, by `funct3` from 0 to 7, `add`,
/// `sll`, `slt`, `sltu`, `xor`, `srl`, `or`, `and`; `funct7` `0100000`
/// selects `sub` (`funct3` 0) and `sra` (5); `funct7` one selects `mul`,
/// `mulh`, `mulhsu`, `mulhu`, `div`, `divu`, `rem`, `remu`. Nothing else
/// decodes.
pub proof fn lemma_decode_register_ops(x: u32)
    requires
        x & 0x7F == 0b011_0011,
    ensures
        ({
            let rd = ((x >> 7) & 0x1F) as usize;
            let rs1 = ((x >> 15) & 0x1F) as usize;
            let rs2 = ((x >> 20) & 0x1F) as usize;
            let f3 = (x >> 12) & 0b111;
            let f7 = x >> 25;
            let d = spec_decode(x);
            &&& f7 == 0 && f3 == 0 ==> d == Ok::<Instruction, &'static str>(Instruction::ADD(rd, rs1, rs2))
            &&& f7 == 0 && f3 == 1 ==> d == Ok::<Instruction, &'static str>(Instruction::SLL(rd, rs1, rs2))
            &&& f7 == 0 && f3 == 2 ==> d == Ok::<Instruction, &'static str>(Instruction::SLT(rd, rs1, rs2))
            &&& f7 == 0 && f3 == 3 ==> d == Ok::<Instruction, &'static str>(Instruction::SLTU(rd, rs1, rs2))
            &&& f7 == 0 && f3 == 4 ==> d == Ok::<Instruction, &'static str>(Instruction::XOR(rd, rs1, rs2))
            &&& f7 == 0 && f3 == 5 ==> d == Ok::<Instruction, &'static str>(Instruction::SRL(rd, rs1, rs2))
            &&& f7 == 0 && f3 == 6 ==> d == Ok::<Instruction, &'static str>(Instruction::OR(rd, rs1, rs2))
            &&& f7 == 0 && f3 == 7 ==> d == Ok::<Instruction, &'static str>(Instruction::AND(rd, rs1, rs2))
            &&& f7 == 0x20 && f3 == 0 ==> d == Ok::<Instruction, &'static str>(Instruction::SUB(rd, rs1, rs2))
            &&& f7 == 0x20 && f3 == 5 ==> d == Ok::<Instruction, &'static str>(Instruction::SRA(rd, rs1, rs2))
            &&& f7 == 1 && f3 == 0 ==> d == Ok::<Instruction, &'static str>(Instruction::MUL(rd, rs1, rs2))
            &&& f7 == 1 && f3 == 1 ==> d == Ok::<Instruction, &'static str>(Instruction::MULH(rd, rs1, rs2))
            &&& f7 == 1 && f3 == 2 ==> d == Ok::<Instruction, &'static str>(Instruction::MULHSU(rd, rs1, rs2))
            &&& f7 == 1 && f3 == 3 ==> d == Ok::<Instruction, &'static str>(Instruction::MULHU(rd, rs1, rs2))
            &&& f7 == 1 && f3 == 4 ==> d == Ok::<Instruction, &'static str>(Instruction::DIV(rd, rs1, rs2))
            &&& f7 == 1 && f3 == 5 ==> d == Ok::<Instruction, &'static str>(Instruction::DIVU(rd, rs1, rs2))
            &&& f7 == 1 && f3 == 6 ==> d == Ok::<Instruction, &'static str>(Instruction::REM(rd, rs1, rs2))
            &&& f7 == 1 && f3 == 7 ==> d == Ok::<Instruction, &'static str>(Instruction::REMU(rd, rs1, rs2))
            &&& !(f7 == 0 || f7 == 1 || (f7 == 0x20 && (f3 == 0 || f3 == 5))) ==> d is Err
        }),
{
    lemma_q3_fields(x);
}

/// The branches (opcode `1100011`) and jumps: by `funct3` 0, 1, 4, 5, 6, 7
/// a branch is `beq`, `bne`, `blt`, `bge`, `bltu`, `bgeu` on `rs1`, `rs2`
/// with the offset `imm[12|10:5]` from bits 31:25 and `imm[4:1|11]` from
/// bits 11:7; `funct3` 2 and 3 do not decode. `jal` (opcode `1101111`)
/// links in `rd` and has the offset `imm[20|10:1|11|19:12]` from bits
/// 31:12; `jalr` (opcode `1100111`, `funct3` 0) links in `rd` and adds the
/// 12-bit immediate in bits 31:20 to `rs1`. Offsets and immediates are
/// sign-extended from bit 31.
pub proof fn lemma_decode_branches_and_jumps(x: u32)
    requires
        x & 0x7F == 0b110_0011 || x & 0x7F == 0b110_1111 || x & 0x7F == 0b110_0111,
    ensures
        ({
            let rd = ((x >> 7) & 0x1F) as usize;
            let rs1 = ((x >> 15) & 0x1F) as usize;
            let rs2 = ((x >> 20) & 0x1F) as usize;
            let f3 = (x >> 12) & 0b111;
            let neg = x >> 31 == 1;
            let b = (((x >> 31) << 12) | (((x >> 7) & 1) << 11) | (((x >> 25) & 0x3F) << 5) | (((x >> 8) & 0xF) << 1)) as int
                - (if neg { 0x2000int } else { 0int });
            let j = (((x >> 31) << 20) | (((x >> 12) & 0xFF) << 12) | (((x >> 20) & 1) << 11) | (((x >> 21) & 0x3FF) << 1)) as int
                - (if neg { 0x20_0000int } else { 0int });
            let i = (x >> 20) as int - (if neg { 0x1000int } else { 0int });
            let d = spec_decode(x);
            &&& x & 0x7F == 0b110_0011 ==> {
                &&& f3 == 0 ==> (d matches Ok(Instruction::BEQ(r1, r2, o)) && r1 == rs1 && r2 == rs2 && o == b)
                &&& f3 == 1 ==> (d matches Ok(Instruction::BNE(r1, r2, o)) && r1 == rs1 && r2 == rs2 && o == b)
                &&& f3 == 4 ==> (d matches Ok(Instruction::BLT(r1, r2, o)) && r1 == rs1 && r2 == rs2 && o == b)
                &&& f3 == 5 ==> (d matches Ok(Instruction::BGE(r1, r2, o)) && r1 == rs1 && r2 == rs2 && o == b)
                &&& f3 == 6 ==> (d matches Ok(Instruction::BLTU(r1, r2, o)) && r1 == rs1 && r2 == rs2 && o == b)
                &&& f3 == 7 ==> (d matches Ok(Instruction::BGEU(r1, r2, o)) && r1 == rs1 && r2 == rs2 && o == b)
                &&& (f3 == 2 || f3 == 3) ==> d is Err
            }
            &&& x & 0x7F == 0b110_1111 ==> (d matches Ok(Instruction::JAL(r, o)) && r == rd && o == j)
            &&& x & 0x7F == 0b110_0111 ==> if f3 == 0 {
                (d matches Ok(Instruction::JALR(r, r1, o)) && r == rd && r1 == rs1 && o == i)
            } else {
                d is Err
            }
        }),
{
    lemma_q3_fields(x);
}

/// The immediate operations (opcode `0010011`), loads (`0000011`), stores
/// (`0100011`), `lui` (`0110111`) and `auipc` (`0010111`). By `funct3` 0,
/// 2, 3, 4, 6, 7 an immediate operation is `addi`, `slti`, `sltiu`, `xori`,
/// `ori`, `andi` with the 12-bit immediate in bits 31:20; `funct3` 1 with
/// bits 31:25 zero is `slli`, 5 with them zero `srli` and with them
/// `0100000` `srai`, shifting by bits 24:20. By `funct3` 0, 1, 2, 4, 5 a
/// load is `lb`, `lh`, `lw`, `lbu`, `lhu` at `rs1` plus that immediate; by
/// `funct3` 0, 1, 2 a store is `sb`, `sh`, `sw` of `rs2` at `rs1` plus the
/// immediate of bits 31:25 and 11:7. `lui` and `auipc` take bits 31:12 as
/// the upper 20 bits of their immediate. Immediates are sign-extended from
/// bit 31.
pub proof fn lemma_decode_immediate_ops(x: u32)
    requires
        x & 0x7F == 0b001_0011 || x & 0x7F == 0b000_0011 || x & 0x7F == 0b010_0011 || x & 0x7F == 0b011_0111 || x
            & 0x7F == 0b001_0111,
    ensures
        ({
            let rd = ((x >> 7) & 0x1F) as usize;
            let rs1 = ((x >> 15) & 0x1F) as usize;
            let rs2 = ((x >> 20) & 0x1F) as usize;
            let f3 = (x >> 12) & 0b111;
            let f7 = x >> 25;
            let neg = x >> 31 == 1;
            let i = (x >> 20) as int - (if neg { 0x1000int } else { 0int });
            let st = ((((x >> 25) << 5) | ((x >> 7) & 0x1F)) as int) - (if neg { 0x1000int } else { 0int });
            let u = (x & 0xFFFF_F000) as int - (if neg { 0x1_0000_0000int } else { 0int });
            let d = spec_decode(x);
            &&& x & 0x7F == 0b001_0011 ==> {
                &&& f3 == 0 ==> (d matches Ok(Instruction::ADDI(r, r1, o)) && r == rd && r1 == rs1 && o == i)
                &&& f3 == 2 ==> (d matches Ok(Instruction::SLTI(r, r1, o)) && r == rd && r1 == rs1 && o == i)
                &&& f3 == 3 ==> (d matches Ok(Instruction::SLTIU(r, r1, o)) && r == rd && r1 == rs1 && o == i)
                &&& f3 == 4 ==> (d matches Ok(Instruction::XORI(r, r1, o)) && r == rd && r1 == rs1 && o == i)
                &&& f3 == 6 ==> (d matches Ok(Instruction::ORI(r, r1, o)) && r == rd && r1 == rs1 && o == i)
                &&& f3 == 7 ==> (d matches Ok(Instruction::ANDI(r, r1, o)) && r == rd && r1 == rs1 && o == i)
                &&& f3 == 1 && f7 == 0 ==> (d matches Ok(Instruction::SLLI(r, r1, o)) && r == rd && r1 == rs1 && o == rs2)
                &&& f3 == 5 && f7 == 0 ==> (d matches Ok(Instruction::SRLI(r, r1, o)) && r == rd && r1 == rs1 && o == rs2)
                &&& f3 == 5 && f7 == 0x20 ==> (d matches Ok(Instruction::SRAI(r, r1, o)) && r == rd && r1 == rs1 && o == rs2)
                &&& (f3 == 1 && f7 != 0) || (f3 == 5 && f7 != 0 && f7 != 0x20) ==> d is Err
            }
            &&& x & 0x7F == 0b000_0011 ==> {
                &&& f3 == 0 ==> (d matches Ok(Instruction::LB(r, r1, o)) && r == rd && r1 == rs1 && o == i)
                &&& f3 == 1 ==> (d matches Ok(Instruction::LH(r, r1, o)) && r == rd && r1 == rs1 && o == i)
                &&& f3 == 2 ==> (d matches Ok(Instruction::LW(r, r1, o)) && r == rd && r1 == rs1 && o == i)
                &&& f3 == 4 ==> (d matches Ok(Instruction::LBU(r, r1, o)) && r == rd && r1 == rs1 && o == i)
                &&& f3 == 5 ==> (d matches Ok(Instruction::LHU(r, r1, o)) && r == rd && r1 == rs1 && o == i)
                &&& (f3 == 3 || f3 == 6 || f3 == 7) ==> d is Err
            }
            &&& x & 0x7F == 0b010_0011 ==> {
                &&& f3 == 0 ==> (d matches Ok(Instruction::SB(r1, r2, o)) && r1 == rs1 && r2 == rs2 && o == st)
                &&& f3 == 1 ==> (d matches Ok(Instruction::SH(r1, r2, o)) && r1 == rs1 && r2 == rs2 && o == st)
                &&& f3 == 2 ==> (d matches Ok(Instruction::SW(r1, r2, o)) && r1 == rs1 && r2 == rs2 && o == st)
                &&& f3 > 2 ==> d is Err
            }
            &&& x & 0x7F == 0b011_0111 ==> (d matches Ok(Instruction::LUI(r, o)) && r == rd && o == u)
            &&& x & 0x7F == 0b001_0111 ==> (d matches Ok(Instruction::AUIPC(r, o)) && r == rd && o == u)
        }),
{
    lemma_q3_fields(x);
    lemma_field_bounds(x);
}

/// The immediates of the compressed formats of quadrants 0 and 1 as the
/// decoder reads them, put together field by field and, where signed,
/// sign-extended from bit 12.
proof fn lemma_compressed_fields(x: u32)
    by (bit_vector)
    ensures
        decoder_q0::spec_addi4spn_imm(x) as int == (((x >> 11) & 0b11) << 4 | ((x >> 7) & 0xF) << 6 | ((x >> 6) & 1) << 2
            | ((x >> 5) & 1) << 3) as int,
        decoder_q0::spec_imm(x) as int == (((x >> 10) & 0b111) << 3 | ((x >> 6) & 1) << 2 | ((x >> 5) & 1) << 6) as int,
        decoder_q1::spec_imm6(x) as int == (((x >> 12) & 1) << 5 | (x >> 2) & 0x1F) as int - (if (x >> 12) & 1 == 1 {
            64int
        } else {
            0int
        }),
        decoder_q1::spec_shamt(x) == ((x >> 12) & 1) << 5 | (x >> 2) & 0x1F,
        decoder_q1::spec_shamt(x) < 64,
        decoder_q1::spec_jump_offset(x) as int == (((x >> 12) & 1) << 11 | ((x >> 11) & 1) << 4 | ((x >> 9) & 0b11) << 8 | ((
        x >> 8) & 1) << 10 | ((x >> 7) & 1) << 6 | ((x >> 6) & 1) << 7 | ((x >> 3) & 0b111) << 1 | ((x >> 2) & 1) << 5) as int
            - (if (x >> 12) & 1 == 1 { 0x1000int } else { 0int }),
        decoder_q1::spec_branch_offset(x) as int == (((x >> 12) & 1) << 8 | ((x >> 10) & 0b11) << 3 | ((x >> 5) & 0b11) << 6
            | ((x >> 3) & 0b11) << 1 | ((x >> 2) & 1) << 5) as int - (if (x >> 12) & 1 == 1 { 0x200int } else { 0int }),
        decoder_q1::spec_addi16sp_imm(x) as int == (((x >> 12) & 1) << 9 | ((x >> 6) & 1) << 4 | ((x >> 5) & 1) << 6 | ((x
            >> 3) & 0b11) << 7 | ((x >> 2) & 1) << 5) as int - (if (x >> 12) & 1 == 1 { 0x400int } else { 0int }),
        decoder_q1::spec_lui_imm(x) as int == (((x >> 12) & 1) << 17 | ((x >> 2) & 0x1F) << 12) as int - (if (x >> 12) & 1
            == 1 {
            0x4_0000int
        } else {
            0int
        }),
        x < 0x1_0000 ==> x & 0xFFFF == x,
        x >> 13 != 0 ==> x != 0,
{
}

/// Quadrant 0 (bits 1:0 `00`), with `rd'` in bits 4:2 and `rs1'` in bits
/// 9:7 naming `x8` to `x15`: the all-zero word does not decode; by bits
/// 15:13 `000` is `c.addi4spn rd'` (an `addi` of `sp` plus `nzuimm[5:4|9:6|2|3]`
/// from bits 12:5), `010` `c.lw rd'` and `110` `c.sw rs2'` (bits 4:2) at
/// `rs1'` plus `uimm[5:3]` from bits 12:10, `uimm[2]` from bit 6 and
/// `uimm[6]` from bit 5; the floating point forms and `100` do not decode.
pub proof fn lemma_decode_quadrant0(x: u32)
    requires
        x < 0x1_0000,
        x & 0b11 == 0,
    ensures
        ({
            let r = ((x >> 2) & 0b111) as usize + 8;
            let s = ((x >> 7) & 0b111) as usize + 8;
            let spn = (((x >> 11) & 0b11) << 4 | ((x >> 7) & 0xF) << 6 | ((x >> 6) & 1) << 2 | ((x >> 5) & 1) << 3) as int;
            let w = (((x >> 10) & 0b111) << 3 | ((x >> 6) & 1) << 2 | ((x >> 5) & 1) << 6) as int;
            let d = spec_decode(x);
            &&& x == 0 ==> d is Err
            &&& x != 0 && x >> 13 == 0 ==> (d matches Ok(Instruction::CADDI4SPN(a, i)) && a == r && i == spn
                && Instruction::CADDI4SPN(a, i).spec_decompress() == Some(Instruction::ADDI(a, 2, i)))
            &&& x >> 13 == 2 ==> (d matches Ok(Instruction::CLW(a, b, i)) && a == r && b == s && i == w
                && Instruction::CLW(a, b, i).spec_decompress() == Some(Instruction::LW(a, b, i)))
            &&& x >> 13 == 6 ==> (d matches Ok(Instruction::CSW(a, b, i)) && a == s && b == r && i == w
                && Instruction::CSW(a, b, i).spec_decompress() == Some(Instruction::SW(a, b, i)))
            &&& (x >> 13 == 1 || x >> 13 == 3 || x >> 13 == 4 || x >> 13 == 5 || x >> 13 == 7) ==> d is Err
        }),
{
    lemma_compressed_fields(x);
    lemma_field_bounds(x);
}

/// Quadrant 1 (bits 1:0 `01`), with `rd` in bits 11:7, `rd'` in bits 9:7
/// and `rs2'` in bits 4:2 naming `x8` to `x15`, and the six-bit immediate
/// of bit 12 and bits 6:2, sign-extended. By bits 15:13: `000` is `c.nop`
/// for `rd` zero, else `c.addi rd` (`addi rd, rd, imm`); `001` `c.jal`
/// (linking in `ra`) and `101` `c.j` (linking nothing) jump by
/// `offset[11|4|9:8|10|6|7|3:1|5]` from bits 12:2; `010` is `c.li rd`
/// (`addi rd, x0, imm`); `011` is `c.addi16sp` for `rd` two, adding
/// `nzimm[9|4|6|8:7|5]` to `sp`, else `c.lui rd` with `nzimm[17|16:12]`;
/// `100` holds, by bits 11:10, `c.srli rd'`, `c.srai rd'` by the shift
/// amount of bit 12 and bits 6:2, `c.andi rd'` with the immediate, and,
/// with bit 12 clear, by bits 6:5 `c.sub`, `c.xor`, `c.or`, `c.and` of
/// `rd'` and `rs2'` (with bit 12 set nothing decodes); `110` `c.beqz rd'`
/// and `111` `c.bnez rd'` branch by `offset[8|4:3|7:6|2:1|5]`. Each
/// offset and immediate but the shift amount is sign-extended from bit 12.
pub proof fn lemma_decode_quadrant1(x: u32)
    requires
        x < 0x1_0000,
        x & 0b11 == 1,
    ensures
        ({
            let rd = ((x >> 7) & 0x1F) as usize;
            let rdp = ((x >> 7) & 0b111) as usize + 8;
            let rs2p = ((x >> 2) & 0b111) as usize + 8;
            let neg = (x >> 12) & 1 == 1;
            let imm = (((x >> 12) & 1) << 5 | (x >> 2) & 0x1F) as int - (if neg { 64int } else { 0int });
            let shamt = (((x >> 12) & 1) << 5 | (x >> 2) & 0x1F) as int;
            let j = (((x >> 12) & 1) << 11 | ((x >> 11) & 1) << 4 | ((x >> 9) & 0b11) << 8 | ((x >> 8) & 1) << 10 | ((x >> 7)
                & 1) << 6 | ((x >> 6) & 1) << 7 | ((x >> 3) & 0b111) << 1 | ((x >> 2) & 1) << 5) as int - (if neg {
                0x1000int
            } else {
                0int
            });
            let b = (((x >> 12) & 1) << 8 | ((x >> 10) & 0b11) << 3 | ((x >> 5) & 0b11) << 6 | ((x >> 3) & 0b11) << 1 | ((x
                >> 2) & 1) << 5) as int - (if neg { 0x200int } else { 0int });
            let sp = (((x >> 12) & 1) << 9 | ((x >> 6) & 1) << 4 | ((x >> 5) & 1) << 6 | ((x >> 3) & 0b11) << 7 | ((x >> 2)
                & 1) << 5) as int - (if neg { 0x400int } else { 0int });
            let up = (((x >> 12) & 1) << 17 | ((x >> 2) & 0x1F) << 12) as int - (if neg { 0x4_0000int } else { 0int });
            let f = x >> 13;
            let sub = (x >> 10) & 0b11;
            let op = (x >> 5) & 0b11;
            let d = spec_decode(x);
            &&& f == 0 && rd == 0 ==> (d matches Ok(Instruction::CNOP(..)))
            &&& f == 0 && rd != 0 ==> (d matches Ok(Instruction::CADDI(a, i)) && a == rd && i == imm
                && Instruction::CADDI(a, i).spec_decompress() == Some(Instruction::ADDI(a, a, i)))
            &&& f == 1 ==> (d matches Ok(Instruction::CJAL(o)) && o == j && Instruction::CJAL(o).spec_decompress() == Some(
                Instruction::JAL(1, o),
            ))
            &&& f == 2 ==> (d matches Ok(Instruction::CLI(a, i)) && a == rd && i == imm
                && Instruction::CLI(a, i).spec_decompress() == Some(Instruction::ADDI(a, 0, i)))
            &&& f == 3 && rd == 2 ==> (d matches Ok(Instruction::CADDI16SP(a, i)) && a == 2 && i == sp
                && Instruction::CADDI16SP(a, i).spec_decompress() == Some(Instruction::ADDI(2, 2, i)))
            &&& f == 3 && rd != 2 ==> (d matches Ok(Instruction::CLUI(a, i)) && a == rd && i == up
                && Instruction::CLUI(a, i).spec_decompress() == Some(Instruction::LUI(a, i)))
            &&& f == 4 && sub == 0 ==> (d matches Ok(Instruction::CSRLI(a, i)) && a == rdp && i == shamt
                && Instruction::CSRLI(a, i).spec_decompress() == Some(Instruction::SRLI(a, a, i)))
            &&& f == 4 && sub == 1 ==> (d matches Ok(Instruction::CSRAI(a, i)) && a == rdp && i == shamt
                && Instruction::CSRAI(a, i).spec_decompress() == Some(Instruction::SRAI(a, a, i)))
            &&& f == 4 && sub == 2 ==> (d matches Ok(Instruction::CANDI(a, i)) && a == rdp && i == imm
                && Instruction::CANDI(a, i).spec_decompress() == Some(Instruction::ANDI(a, a, i)))
            &&& f == 4 && sub == 3 && neg ==> d is Err
            &&& f == 4 && sub == 3 && !neg && op == 0 ==> (d matches Ok(Instruction::CSUB(a, c)) && a == rdp && c == rs2p
                && Instruction::CSUB(a, c).spec_decompress() == Some(Instruction::SUB(a, a, c)))
            &&& f == 4 && sub == 3 && !neg && op == 1 ==> (d matches Ok(Instruction::CXOR(a, c)) && a == rdp && c == rs2p
                && Instruction::CXOR(a, c).spec_decompress() == Some(Instruction::XOR(a, a, c)))
            &&& f == 4 && sub == 3 && !neg && op == 2 ==> (d matches Ok(Instruction::COR(a, c)) && a == rdp && c == rs2p
                && Instruction::COR(a, c).spec_decompress() == Some(Instruction::OR(a, a, c)))
            &&& f == 4 && sub == 3 && !neg && op == 3 ==> (d matches Ok(Instruction::CAND(a, c)) && a == rdp && c == rs2p
                && Instruction::CAND(a, c).spec_decompress() == Some(Instruction::AND(a, a, c)))
            &&& f == 5 ==> (d matches Ok(Instruction::CJ(o)) && o == j && Instruction::CJ(o).spec_decompress() == Some(
                Instruction::JAL(0, o),
            ))
            &&& f == 6 ==> (d matches Ok(Instruction::CBEQZ(a, o)) && a == rdp && o == b
                && Instruction::CBEQZ(a, o).spec_decompress() == Some(Instruction::BEQ(a, 0, o)))
            &&& f == 7 ==> (d matches Ok(Instruction::CBNEZ(a, o)) && a == rdp && o == b
                && Instruction::CBNEZ(a, o).spec_decompress() == Some(Instruction::BNE(a, 0, o)))
        }),
{
    lemma_compressed_fields(x);
    lemma_field_bounds(x);
}

/// The system instructions (opcode `1110011`): with `funct3` zero, the
/// 12 bits 31:20 select `ecall` (0), `ebreak` (1), `mret` (`0x302`) and
/// `wfi` (`0x105`), and nothing else decodes; `funct3` 1, 2, 3 give `csrrw`,
/// `csrrs`, `csrrc` of `rd` and `rs1`, and 5, 6, 7 give `csrrwi`, `csrrsi`,
/// `csrrci` with the 5-bit immediate in the `rs1` field, all on the CSR
/// numbered by bits 31:20; `funct3` 4 does not decode.
pub proof fn lemma_decode_system(x: u32)
    requires
        x & 0x7F == 0b111_0011,
    ensures
        ({
            let rd = ((x >> 7) & 0x1F) as usize;
            let rs1 = ((x >> 15) & 0x1F) as usize;
            let f3 = (x >> 12) & 0b111;
            let c = x >> 20;
            let d = spec_decode(x);
            &&& f3 == 0 && c == 0 ==> d == Ok::<Instruction, &'static str>(Instruction::ECALL())
            &&& f3 == 0 && c == 1 ==> d == Ok::<Instruction, &'static str>(Instruction::EBREAK())
            &&& f3 == 0 && c == 0x302 ==> d == Ok::<Instruction, &'static str>(Instruction::MRET())
            &&& f3 == 0 && c == 0x105 ==> d == Ok::<Instruction, &'static str>(Instruction::WFI())
            &&& f3 == 0 && !(c == 0 || c == 1 || c == 0x302 || c == 0x105) ==> d is Err
            &&& f3 == 1 ==> d == Ok::<Instruction, &'static str>(Instruction::CSRRW(rd, rs1, c))
            &&& f3 == 2 ==> d == Ok::<Instruction, &'static str>(Instruction::CSRRS(rd, rs1, c))
            &&& f3 == 3 ==> d == Ok::<Instruction, &'static str>(Instruction::CSRRC(rd, rs1, c))
            &&& f3 == 4 ==> d is Err
            &&& f3 == 5 ==> d == Ok::<Instruction, &'static str>(Instruction::CSRRWI(rd, rs1, c))
            &&& f3 == 6 ==> d == Ok::<Instruction, &'static str>(Instruction::CSRRSI(rd, rs1, c))
            &&& f3 == 7 ==> d == Ok::<Instruction, &'static str>(Instruction::CSRRCI(rd, rs1, c))
        }),
{
    lemma_q3_fields(x);
}

} // verus!
