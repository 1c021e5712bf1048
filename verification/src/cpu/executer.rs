//! Executing one instruction: `CPU::exec`.
use vstd::prelude::*;

use super::CPU;
use crate::bits::{add_signed, lemma_sign_extend_value, sign_extend, spec_add_signed, spec_sign_extend, wrap};
use crate::decoder::even_offsets;
use crate::instructions::{Instruction, RS1value, RS2value};
use crate::memory::{
    in_ram, lemma_ram_byte_read_after_write, lemma_ram_word_read_after_write, lemma_writes_keep_rom, mem_same, Memory, MemoryError,
    MmapPeripheral,
};
use crate::register::{csr_write_allowed, is_known_csr, lemma_csr_read_after_write, Register, CSR};

verus! {

/// The general purpose registers after writing `v` to `x[rd]`; `x0` keeps zero.
pub open spec fn wr(x: Seq<u32>, rd: usize, v: u32) -> Seq<u32> {
    if rd > 0 {
        x.update(rd as int, v)
    } else {
        x
    }
}

/// Size of the instruction in bytes.
pub open spec fn inst_size(inst: Instruction) -> nat {
    if inst.spec_is_compressed() {
        2
    } else {
        4
    }
}

/// Loads, stores and atomic memory operations.
pub open spec fn is_memory_access(a: Instruction) -> bool {
    matches!(a, Instruction::LB(..) | Instruction::LH(..) | Instruction::LW(..) | Instruction::LBU(..)
        | Instruction::LHU(..) | Instruction::SB(..) | Instruction::SH(..) | Instruction::SW(..)
        | Instruction::LRW(..) | Instruction::SCW(..) | Instruction::AMOSWAPW(..) | Instruction::AMOADDW(..)
        | Instruction::AMOXORW(..) | Instruction::AMOANDW(..) | Instruction::AMOORW(..)
        | Instruction::AMOMINW(..) | Instruction::AMOMAXW(..) | Instruction::AMOMINUW(..)
        | Instruction::AMOMAXUW(..))
}

/// Jumps, branches and the system instructions that are no CSR access.
pub open spec fn is_control(a: Instruction) -> bool {
    matches!(a, Instruction::JAL(..) | Instruction::JALR(..) | Instruction::BEQ(..) | Instruction::BNE(..)
        | Instruction::BLT(..) | Instruction::BGE(..) | Instruction::BLTU(..) | Instruction::BGEU(..)
        | Instruction::FENCE(..) | Instruction::ECALL() | Instruction::EBREAK() | Instruction::MRET()
        | Instruction::WFI())
}

/// Signed division rounding towards zero.
pub open spec fn trunc_div(a: int, b: int) -> int {
    let q = (if a < 0 { -a } else { a }) / (if b < 0 { -b } else { b });
    if (a < 0) != (b < 0) {
        -q
    } else {
        q
    }
}

/// `a / b` as `i32::overflowing_div` computes it: `a` itself where the quotient overflows.
pub open spec fn i32_div(a: i32, b: i32) -> i32 {
    if a == i32::MIN && b == -1 {
        a
    } else {
        trunc_div(a as int, b as int) as i32
    }
}

/// `a % b` as `i32::overflowing_rem` computes it: zero where the quotient overflows.
pub open spec fn i32_rem(a: i32, b: i32) -> i32 {
    if a == i32::MIN && b == -1 {
        0
    } else {
        (a - b * trunc_div(a as int, b as int)) as i32
    }
}

/// Facts about the bits of words that the laws below use.
proof fn lemma_word_facts(a: u32, b: u32, v: i32)
    by (bit_vector)
    ensures
        (v as u32) as i32 == v,
        (a as i32) as u32 == a,
        (a as i32 == 0) == (a == 0),
        a as i32 == i32::MIN ==> a == 0x8000_0000,
        u32::MAX as i32 == -1i32,
        a & !1u32 == a - a % 2,
        a | b == b | a,
        !a & b == b & !a,
        a & 0b1_1111 == a % 32,
        ((v & 0b1_1111) as u32) == (v as u32) % 32,
{
}

/// The low byte of a word.
proof fn lemma_byte_value(v: u32)
    by (bit_vector)
    ensures
        v & 0xFF == v % 256,
        (v & 0xFF) < (1u64 << 8u64),
{
}

/// The low and the high half of a 64-bit word.
proof fn lemma_halves(p: u64)
    by (bit_vector)
    ensures
        p as u32 == p % 0x1_0000_0000,
        (p >> 32u32) as u32 == p / 0x1_0000_0000,
{
}

/// Dividing magnitudes: the quotient is no larger than the dividend, and
/// at most half of it for a divisor of two or more.
proof fn lemma_div_magnitude(x: int, d: int)
    requires
        x >= 0,
        d >= 1,
    ensures
        0 <= x / d <= x,
        d >= 2 ==> x / d <= x / 2,
        x % d == x - d * (x / d),
        0 <= x % d < d,
{
    assert(0 <= x / d <= x) by (nonlinear_arith)
        requires
            x >= 0,
            d >= 1,
    ;
    assert(d >= 2 ==> x / d <= x / 2) by (nonlinear_arith)
        requires
            x >= 0,
            d >= 1,
    ;
    assert(x % d == x - d * (x / d) && 0 <= x % d < d) by (nonlinear_arith)
        requires
            d >= 1,
    ;
}

/// Division rounding towards zero, taken case by case on the signs, agrees
/// with `trunc_div`; it stays within `i32` but for `i32::MIN / -1`, and so
/// does the remainder that goes with it.
proof fn lemma_trunc_div_cases(a: i32, b: i32)
    requires
        b != 0,
    ensures
        ({
            let x = a as int;
            let d = b as int;
            let q = if x == 0 {
                0
            } else if x > 0 && d > 0 {
                x / d
            } else if x < 0 && d < 0 {
                ((x * -1) / (d * -1))
            } else if x < 0 {
                ((x * -1) / d) * -1
            } else {
                (x / (d * -1)) * -1
            };
            let m = if x == 0 {
                0
            } else if x > 0 && d > 0 {
                x % d
            } else if x < 0 && d < 0 {
                ((x * -1) % (d * -1)) * -1
            } else if x < 0 {
                ((x * -1) % d) * -1
            } else {
                x % (d * -1)
            };
            &&& q == trunc_div(x, d)
            &&& m == x - d * trunc_div(x, d)
            &&& i32::MIN <= m <= i32::MAX
            &&& (!(a == i32::MIN && b == -1) ==> i32::MIN <= q <= i32::MAX)
        }),
{
    let x = a as int;
    let d = b as int;
    let ax = if x < 0 { -x } else { x };
    let ad = if d < 0 { -d } else { d };
    lemma_div_magnitude(ax, ad);
    let q = ax / ad;
    assert(d < 0 ==> d * q == -(ad * q)) by (nonlinear_arith)
        requires
            d < 0 ==> ad == -d,
    ;
    assert(d > 0 ==> d * q == ad * q) by (nonlinear_arith)
        requires
            d > 0 ==> ad == d,
    ;
    assert(d * -q == -(d * q)) by (nonlinear_arith);
    if x == 0 {
        assert(0int / ad == 0) by (nonlinear_arith)
            requires
                ad >= 1,
        ;
    } else if x > 0 && d > 0 {
        assert(x * -1 == -x);
    } else if x < 0 && d < 0 {
        assert(x * -1 == ax && d * -1 == ad);
        assert(d * q == -(ad * q));
    } else if x < 0 {
        assert(x * -1 == ax);
        assert(d * q == ad * q);
    } else {
        assert(d * -1 == ad);
        assert(d * q == -(ad * q));
    }
}

/// Quotient of `a` and `b` rounded towards zero, `a` itself where it
/// overflows (what `i32::overflowing_div` gives as its value).
fn overflowing_div(a: i32, b: i32) -> (r: i32)
    requires
        b != 0,
    ensures
        r == i32_div(a, b),
{
    proof {
        let x = a as int;
        let d = b as int;
        lemma_trunc_div_cases(a, b);
    }
    match a.checked_div(b) {
        Some(q) => q,
        None => a,
    }
}

/// Remainder of `a` and `b` with the sign of `a`, zero where the quotient
/// overflows (what `i32::overflowing_rem` gives as its value).
fn overflowing_rem(a: i32, b: i32) -> (r: i32)
    requires
        b != 0,
    ensures
        r == i32_rem(a, b),
{
    proof {
        let x = a as int;
        let d = b as int;
        lemma_trunc_div_cases(a, b);
    }
    match a.checked_rem(b) {
        Some(m) => m,
        None => 0,
    }
}

/// The destination register of a computational instruction.
pub open spec fn alu_dest(a: Instruction) -> usize {
    match a {
        Instruction::LUI(rd, _) | Instruction::AUIPC(rd, _) => rd,
        Instruction::ADDI(rd, _, _) | Instruction::SLTI(rd, _, _) | Instruction::SLTIU(rd, _, _)
        | Instruction::XORI(rd, _, _) | Instruction::ORI(rd, _, _) | Instruction::ANDI(rd, _, _)
        | Instruction::SLLI(rd, _, _) | Instruction::SRLI(rd, _, _) | Instruction::SRAI(rd, _, _) => rd,
        Instruction::ADD(rd, _, _) | Instruction::SUB(rd, _, _) | Instruction::SLL(rd, _, _)
        | Instruction::SLT(rd, _, _) | Instruction::SLTU(rd, _, _) | Instruction::XOR(rd, _, _)
        | Instruction::SRL(rd, _, _) | Instruction::SRA(rd, _, _) | Instruction::OR(rd, _, _)
        | Instruction::AND(rd, _, _) => rd,
        Instruction::MUL(rd, _, _) | Instruction::MULH(rd, _, _) | Instruction::MULHSU(rd, _, _)
        | Instruction::MULHU(rd, _, _) | Instruction::DIV(rd, _, _) | Instruction::DIVU(rd, _, _)
        | Instruction::REM(rd, _, _) | Instruction::REMU(rd, _, _) => rd,
        _ => 0,
    }
}

/// The value a computational instruction at `addr` writes to its destination.
pub open spec fn alu_value(x: Seq<u32>, a: Instruction, addr: u32) -> u32 {
    match a {
        Instruction::LUI(_, u) => u as u32,
        Instruction::AUIPC(_, u) => wrap(addr as int + (u as u32) as int),
        Instruction::ADDI(_, rs1, i) => spec_add_signed(x[rs1 as int], i),
        Instruction::SLTI(_, rs1, i) => if (x[rs1 as int] as i32) < i { 1 } else { 0 },
        Instruction::SLTIU(_, rs1, i) => if x[rs1 as int] < (i as u32) { 1 } else { 0 },
        Instruction::XORI(_, rs1, i) => x[rs1 as int] ^ (i as u32),
        Instruction::ORI(_, rs1, i) => x[rs1 as int] | (i as u32),
        Instruction::ANDI(_, rs1, i) => x[rs1 as int] & (i as u32),
        Instruction::SLLI(_, rs1, i) => x[rs1 as int] << ((i & 0b1_1111) as u32),
        Instruction::SRLI(_, rs1, i) => x[rs1 as int] >> ((i & 0b1_1111) as u32),
        Instruction::SRAI(_, rs1, i) => spec_sign_extend(
            x[rs1 as int] >> ((i & 0b1_1111) as u32),
            (32 - ((i & 0b1_1111) as u32)) as u32,
        ),
        Instruction::ADD(_, rs1, rs2) => wrap(x[rs1 as int] + x[rs2 as int]),
        Instruction::SUB(_, rs1, rs2) => wrap(x[rs1 as int] - x[rs2 as int]),
        Instruction::SLL(_, rs1, rs2) => x[rs1 as int] << (x[rs2 as int] & 0b1_1111),
        Instruction::SLT(_, rs1, rs2) => if (x[rs1 as int] as i32) < (x[rs2 as int] as i32) { 1 } else { 0 },
        Instruction::SLTU(_, rs1, rs2) => if x[rs1 as int] < x[rs2 as int] { 1 } else { 0 },
        Instruction::XOR(_, rs1, rs2) => x[rs1 as int] ^ x[rs2 as int],
        Instruction::SRL(_, rs1, rs2) => x[rs1 as int] >> (x[rs2 as int] & 0b1_1111),
        Instruction::SRA(_, rs1, rs2) => spec_sign_extend(
            x[rs1 as int] >> (x[rs2 as int] & 0b1_1111),
            (32 - (x[rs2 as int] & 0b1_1111)) as u32,
        ),
        Instruction::OR(_, rs1, rs2) => x[rs1 as int] | x[rs2 as int],
        Instruction::AND(_, rs1, rs2) => x[rs1 as int] & x[rs2 as int],
        Instruction::MUL(_, rs1, rs2) => ((x[rs1 as int] as int * x[rs2 as int] as int) as u64) as u32,
        Instruction::MULH(_, rs1, rs2) => ((((x[rs1 as int] as i32) as int * (x[rs2 as int] as i32) as int) as i64)
            >> 32u32) as u32,
        Instruction::MULHSU(_, rs1, rs2) => ((((x[rs1 as int] as i32) as int * x[rs2 as int] as int) as i64)
            >> 32u32) as u32,
        Instruction::MULHU(_, rs1, rs2) => (((x[rs1 as int] as int * x[rs2 as int] as int) as u64) >> 32u32) as u32,
        Instruction::DIV(_, rs1, rs2) => if x[rs2 as int] == 0 {
            u32::MAX
        } else {
            i32_div(x[rs1 as int] as i32, x[rs2 as int] as i32) as u32
        },
        Instruction::DIVU(_, rs1, rs2) => if x[rs2 as int] == 0 {
            u32::MAX
        } else {
            x[rs1 as int] / x[rs2 as int]
        },
        Instruction::REM(_, rs1, rs2) => if x[rs2 as int] == 0 {
            x[rs1 as int]
        } else {
            i32_rem(x[rs1 as int] as i32, x[rs2 as int] as i32) as u32
        },
        Instruction::REMU(_, rs1, rs2) => if x[rs2 as int] == 0 {
            x[rs1 as int]
        } else {
            x[rs1 as int] % x[rs2 as int]
        },
        _ => 0,
    }
}

/// Registers, program counter and CSRs after a jump, branch or system
/// instruction at `addr` whose successor is at `next`.
pub open spec fn control_step(x: Seq<u32>, csr: CSR, a: Instruction, addr: u32, next: u32) -> (Seq<u32>, u32, CSR) {
    match a {
        Instruction::JAL(rd, j) => (wr(x, rd, next), spec_add_signed(addr, j), csr),
        Instruction::JALR(rd, rs1, i) => (wr(x, rd, next), spec_add_signed(x[rs1 as int], i) & !1u32, csr),
        Instruction::BEQ(rs1, rs2, b) => (x, if x[rs1 as int] == x[rs2 as int] { spec_add_signed(addr, b) } else { next }, csr),
        Instruction::BNE(rs1, rs2, b) => (x, if x[rs1 as int] != x[rs2 as int] { spec_add_signed(addr, b) } else { next }, csr),
        Instruction::BLT(rs1, rs2, b) => (
            x,
            if (x[rs1 as int] as i32) < (x[rs2 as int] as i32) { spec_add_signed(addr, b) } else { next },
            csr,
        ),
        Instruction::BGE(rs1, rs2, b) => (
            x,
            if (x[rs1 as int] as i32) >= (x[rs2 as int] as i32) { spec_add_signed(addr, b) } else { next },
            csr,
        ),
        Instruction::BLTU(rs1, rs2, b) => (x, if x[rs1 as int] < x[rs2 as int] { spec_add_signed(addr, b) } else { next }, csr),
        Instruction::BGEU(rs1, rs2, b) => (x, if x[rs1 as int] >= x[rs2 as int] { spec_add_signed(addr, b) } else { next }, csr),
        // Environment call from M-mode: trap to mtvec
        Instruction::ECALL() => (x, csr.mtvec, CSR { mepc: addr, mcause: 11, ..csr }),
        Instruction::MRET() => (x, csr.mepc, csr),
        _ => (x, next, csr),
    }
}

/// Registers and CSRs after a CSR instruction: the CSR's old value goes to
/// `rd`, and the source register is read as it was before the instruction,
/// so `csrrw r, c, r` swaps `r` and the CSR.
pub open spec fn csr_step(x: Seq<u32>, csr: CSR, a: Instruction) -> (Seq<u32>, CSR) {
    match a {
        Instruction::CSRRW(rd, rs1, c) => (wr(x, rd, csr.value(c)), csr.written(c, x[rs1 as int])),
        Instruction::CSRRS(rd, rs1, c) => {
            let v = csr.value(c);
            (wr(x, rd, v), if rs1 != 0 { csr.written(c, x[rs1 as int] | v) } else { csr })
        },
        Instruction::CSRRC(rd, rs1, c) => {
            let v = csr.value(c);
            (wr(x, rd, v), if rs1 != 0 { csr.written(c, !x[rs1 as int] & v) } else { csr })
        },
        Instruction::CSRRWI(rd, uimm, c) => {
            let x1 = if rd != 0 { wr(x, rd, csr.value(c)) } else { x };
            (x1, csr.written(c, uimm as u32))
        },
        Instruction::CSRRSI(rd, uimm, c) => {
            let v = csr.value(c);
            (wr(x, rd, v), if uimm != 0 { csr.written(c, (uimm as u32) | v) } else { csr })
        },
        Instruction::CSRRCI(rd, uimm, c) => {
            let v = csr.value(c);
            (wr(x, rd, v), if uimm != 0 { csr.written(c, !(uimm as u32) & v) } else { csr })
        },
        _ => (x, csr),
    }
}

/// A CSR instruction only reads CSRs that exist and only writes what
/// `CSR::write` carries out.
pub open spec fn csr_step_defined(x: Seq<u32>, csr: CSR, a: Instruction) -> bool {
    match a {
        Instruction::CSRRW(rd, rs1, c) => is_known_csr(c) && csr_write_allowed(c, x[rs1 as int]),
        Instruction::CSRRS(rd, rs1, c) => is_known_csr(c) && (rs1 != 0 ==> csr_write_allowed(
            c,
            x[rs1 as int] | csr.value(c),
        )),
        Instruction::CSRRC(rd, rs1, c) => is_known_csr(c) && (rs1 != 0 ==> csr_write_allowed(
            c,
            !x[rs1 as int] & csr.value(c),
        )),
        Instruction::CSRRWI(rd, uimm, c) => (rd != 0 ==> is_known_csr(c)) && csr_write_allowed(c, uimm as u32),
        Instruction::CSRRSI(rd, uimm, c) => is_known_csr(c) && (uimm != 0 ==> csr_write_allowed(
            c,
            (uimm as u32) | csr.value(c),
        )),
        Instruction::CSRRCI(rd, uimm, c) => is_known_csr(c) && (uimm != 0 ==> csr_write_allowed(
            c,
            !(uimm as u32) & csr.value(c),
        )),
        _ => true,
    }
}

/// Registers, program counter and CSRs after an instruction that does not
/// access memory.
pub open spec fn reg_step(x: Seq<u32>, csr: CSR, a: Instruction, addr: u32, next: u32) -> (Seq<u32>, u32, CSR) {
    if is_control(a) {
        control_step(x, csr, a, addr, next)
    } else if a.spec_is_zicsr() {
        (csr_step(x, csr, a).0, next, csr_step(x, csr, a).1)
    } else {
        (wr(x, alu_dest(a), alu_value(x, a, addr)), next, csr)
    }
}

/// The word an atomic memory operation stores, from the word `data` in
/// memory and the source register value `org`.
pub open spec fn amo_result(a: Instruction, data: u32, org: u32) -> u32 {
    match a {
        Instruction::AMOSWAPW(..) => org,
        Instruction::AMOADDW(..) => wrap(data + org),
        Instruction::AMOXORW(..) => data ^ org,
        Instruction::AMOANDW(..) => data & org,
        Instruction::AMOORW(..) => data | org,
        Instruction::AMOMINW(..) => (if (org as i32) < (data as i32) { org as i32 } else { data as i32 }) as u32,
        Instruction::AMOMAXW(..) => (if (org as i32) >= (data as i32) { org as i32 } else { data as i32 }) as u32,
        Instruction::AMOMINUW(..) => if org < data { org } else { data },
        Instruction::AMOMAXUW(..) => if org >= data { org } else { data },
        _ => 0,
    }
}

/// RAM, ROM and the UARTs are the same; the reservation may differ.
pub open spec fn same_but_reservation<T: MmapPeripheral>(a: Memory<T>, b: Memory<T>) -> bool {
    &&& a.ram@ == b.ram@
    &&& a.rom@ == b.rom@
    &&& a.uart0 == b.uart0
    &&& a.uart1 == b.uart1
}

/// The register value a load writes from the loaded value `v`.
pub open spec fn load_value(a: Instruction, v: u32) -> u32 {
    match a {
        Instruction::LB(..) => spec_sign_extend(v, 8),
        Instruction::LH(..) => spec_sign_extend(v, 16),
        _ => v,
    }
}

/// Memory `m1` and registers `x1` are a possible outcome of the memory
/// access `a` on memory `m0` and registers `x`, with result `res`.
pub open spec fn memory_step<T: MmapPeripheral>(m0: Memory<T>, m1: Memory<T>, x: Seq<u32>, x1: Seq<u32>, a: Instruction, res: Result<(), MemoryError>) -> bool {
    match a {
        Instruction::LB(rd, rs1, i) => load_step(m0, m1, x, x1, a, rd, rs1, i, 1, res),
        Instruction::LBU(rd, rs1, i) => load_step(m0, m1, x, x1, a, rd, rs1, i, 1, res),
        Instruction::LH(rd, rs1, i) => load_step(m0, m1, x, x1, a, rd, rs1, i, 2, res),
        Instruction::LHU(rd, rs1, i) => load_step(m0, m1, x, x1, a, rd, rs1, i, 2, res),
        Instruction::LW(rd, rs1, i) => load_step(m0, m1, x, x1, a, rd, rs1, i, 4, res),
        Instruction::SB(rs1, rs2, s) => x1 == x && m0.writes_byte(
            m1,
            spec_add_signed(x[rs1 as int], s) as usize,
            x[rs2 as int],
            res,
        ),
        Instruction::SH(rs1, rs2, s) => x1 == x && m0.writes_halfword(
            m1,
            spec_add_signed(x[rs1 as int], s) as usize,
            x[rs2 as int],
            res,
        ),
        Instruction::SW(rs1, rs2, s) => x1 == x && m0.writes_word(
            m1,
            spec_add_signed(x[rs1 as int], s) as usize,
            x[rs2 as int],
            res,
        ),
        Instruction::LRW(rd, rs1) => {
            let t = x[rs1 as int] as usize;
            exists|r: Result<u32, MemoryError>| #[trigger] m0.reads_word(t, r) && match r {
                Ok(v) => res is Ok && x1 == wr(x, rd, v) && same_but_reservation(m1, m0)
                    && m1.reservation == Some((t, v)),
                Err(e) => res == Err::<(), MemoryError>(e) && x1 == x && mem_same(m1, m0),
            }
        },
        Instruction::SCW(rd, rs1, rs2) => scw_step(m0, m1, x, x1, rd, rs1, rs2, res),
        _ => amo_step(m0, m1, x, x1, a, res),
    }
}

/// A load of `width` bytes at `x[rs1] + i` into `rd`: memory is unchanged;
/// the value read (sign-extended for `lb` and `lh`) is written to `rd`, or
/// the read's error is returned with the registers unchanged.
pub open spec fn load_step<T: MmapPeripheral>(m0: Memory<T>, m1: Memory<T>, x: Seq<u32>, x1: Seq<u32>, a: Instruction, rd: usize, rs1: usize, i: i32, width: nat, res: Result<(), MemoryError>) -> bool {
    let t = spec_add_signed(x[rs1 as int], i) as usize;
    &&& mem_same(m1, m0)
    &&& exists|r: Result<u32, MemoryError>| #[trigger] reads_width(m0, t, width, r) && load_after_read(x, x1, a, rd, r, res)
}

/// `m` gives `r` for a read of `width` bytes at `t`.
pub open spec fn reads_width<T: MmapPeripheral>(m: Memory<T>, t: usize, width: nat, r: Result<u32, MemoryError>) -> bool {
    if width == 1 {
        m.reads_byte(t, r)
    } else if width == 2 {
        m.reads_halfword(t, r)
    } else {
        m.reads_word(t, r)
    }
}

pub open spec fn load_after_read(x: Seq<u32>, x1: Seq<u32>, a: Instruction, rd: usize, r: Result<u32, MemoryError>, res: Result<(), MemoryError>) -> bool {
    match r {
        Ok(v) => res is Ok && x1 == wr(x, rd, load_value(a, v)),
        Err(e) => res == Err::<(), MemoryError>(e) && x1 == x,
    }
}

/// The outcome of an atomic memory operation: the word read is written to
/// `rd`, and the result of combining it with the source register is stored
/// at the same address.
pub open spec fn amo_step<T: MmapPeripheral>(m0: Memory<T>, m1: Memory<T>, x: Seq<u32>, x1: Seq<u32>, a: Instruction, res: Result<(), MemoryError>) -> bool {
    let t = x[amo_address(a) as int] as usize;
    exists|r: Result<u32, MemoryError>| #[trigger] m0.reads_word(t, r) && amo_after_read(m0, m1, x, x1, a, t, r, res)
}

pub open spec fn amo_after_read<T: MmapPeripheral>(m0: Memory<T>, m1: Memory<T>, x: Seq<u32>, x1: Seq<u32>, a: Instruction, t: usize, r: Result<u32, MemoryError>, res: Result<(), MemoryError>) -> bool {
    match r {
        Err(e) => res == Err::<(), MemoryError>(e) && x1 == x && mem_same(m1, m0),
        Ok(data) => x1 == wr(x, alu_dest_amo(a), data) && m0.writes_word(
            m1,
            t,
            amo_result(a, data, x[amo_source(a) as int]),
            res,
        ),
    }
}

/// The outcome of `sc.w`: the word at `rs1` is read; if the reservation is
/// for that address and word, `rs2` is stored there and `rd` set to 0,
/// otherwise `rd` is set to 1; the reservation is dropped in either case.
pub open spec fn scw_step<T: MmapPeripheral>(m0: Memory<T>, m1: Memory<T>, x: Seq<u32>, x1: Seq<u32>, rd: usize, rs1: usize, rs2: usize, res: Result<(), MemoryError>) -> bool {
    let t = x[rs1 as int] as usize;
    exists|r: Result<u32, MemoryError>| #[trigger] m0.reads_word(t, r) && scw_after_read(m0, m1, x, x1, rd, rs2, t, r, res)
}

pub open spec fn scw_after_read<T: MmapPeripheral>(m0: Memory<T>, m1: Memory<T>, x: Seq<u32>, x1: Seq<u32>, rd: usize, rs2: usize, t: usize, r: Result<u32, MemoryError>, res: Result<(), MemoryError>) -> bool {
    match r {
        Err(e) => res == Err::<(), MemoryError>(e) && x1 == x && mem_same(m1, m0),
        Ok(v) => if m0.reservation == Some((t, v)) {
            exists|mid: Memory<T>, w: Result<(), MemoryError>| #[trigger] m0.writes_word(mid, t, x[rs2 as int], w) && match w {
                Err(e) => res == Err::<(), MemoryError>(e) && x1 == wr(x, rd, 1) && mem_same(m1, mid),
                Ok(_) => res is Ok && x1 == wr(x, rd, 0) && same_but_reservation(m1, mid) && m1.reservation is None,
            }
        } else {
            res is Ok && x1 == wr(x, rd, 1) && same_but_reservation(m1, m0) && m1.reservation is None
        },
    }
}

pub open spec fn alu_dest_amo(a: Instruction) -> usize {
    match a {
        Instruction::AMOSWAPW(rd, _, _) | Instruction::AMOADDW(rd, _, _) | Instruction::AMOXORW(rd, _, _)
        | Instruction::AMOANDW(rd, _, _) | Instruction::AMOORW(rd, _, _) | Instruction::AMOMINW(rd, _, _)
        | Instruction::AMOMAXW(rd, _, _) | Instruction::AMOMINUW(rd, _, _) | Instruction::AMOMAXUW(rd, _, _) => rd,
        _ => 0,
    }
}

pub open spec fn amo_address(a: Instruction) -> usize {
    match a {
        Instruction::AMOSWAPW(_, rs1, _) | Instruction::AMOADDW(_, rs1, _) | Instruction::AMOXORW(_, rs1, _)
        | Instruction::AMOANDW(_, rs1, _) | Instruction::AMOORW(_, rs1, _) | Instruction::AMOMINW(_, rs1, _)
        | Instruction::AMOMAXW(_, rs1, _) | Instruction::AMOMINUW(_, rs1, _) | Instruction::AMOMAXUW(_, rs1, _) => rs1,
        _ => 0,
    }
}

pub open spec fn amo_source(a: Instruction) -> usize {
    match a {
        Instruction::AMOSWAPW(_, _, rs2) | Instruction::AMOADDW(_, _, rs2) | Instruction::AMOXORW(_, _, rs2)
        | Instruction::AMOANDW(_, _, rs2) | Instruction::AMOORW(_, _, rs2) | Instruction::AMOMINW(_, _, rs2)
        | Instruction::AMOMAXW(_, _, rs2) | Instruction::AMOMINUW(_, _, rs2) | Instruction::AMOMAXUW(_, _, rs2) => rs2,
        _ => 0,
    }
}

/// Every 32-bit address, plus the three bytes after it, is a `usize` (true
/// on 64-bit hosts).
pub open spec fn addresses_fit() -> bool {
    u32::MAX as int + 3 < usize::MAX as int
}

/// `new` is the state after executing `inst` on `old` with result `res`.
/// A compressed instruction is executed as its 32-bit expansion, with the
/// program counter advanced by two instead of four. A failed memory access
/// leaves the program counter advanced and the effects before the failure in place.
pub open spec fn executed<T: MmapPeripheral>(old: CPU<T>, new: CPU<T>, inst: Instruction, res: Result<(), MemoryError>) -> bool {
    let a = inst.spec_decompress()->Some_0;
    let addr = old.register.pc;
    let next = (addr + inst_size(inst)) as u32;
    let x = old.register.x();
    &&& new.instruction_log@ == old.instruction_log@
    &&& if is_memory_access(a) {
        &&& new.waits_for_interrupt == old.waits_for_interrupt
        &&& new.register.csr == old.register.csr
        &&& new.register.pc == next
        &&& memory_step(old.memory, new.memory, x, new.register.x(), a, res)
    } else {
        &&& res is Ok
        &&& new.register.x() == reg_step(x, old.register.csr, a, addr, next).0
        &&& new.register.pc == reg_step(x, old.register.csr, a, addr, next).1
        &&& new.register.csr == reg_step(x, old.register.csr, a, addr, next).2
        &&& mem_same(new.memory, old.memory)
        &&& new.waits_for_interrupt == (old.waits_for_interrupt || a == Instruction::WFI())
    }
}

/// Decompressing a decoded instruction gives a well formed, regular (not
/// compressed) instruction with even branch offsets; a regular instruction
/// decompresses to itself.
pub proof fn lemma_decompress(inst: Instruction)
    requires
        inst.wf(),
        even_offsets(inst),
        inst.spec_decompress() is Some,
    ensures
        inst.spec_decompress()->Some_0.wf(),
        even_offsets(inst.spec_decompress()->Some_0),
        !inst.spec_decompress()->Some_0.spec_is_compressed(),
        !inst.spec_is_compressed() ==> inst.spec_decompress()->Some_0 == inst,
{
}

/// An instruction that is no jump, branch or trap continues with the
/// instruction after it: the program counter moves on by two for a
/// compressed instruction and by four for a regular one, whether or not a
/// memory access fails; and register `x0` still holds zero.
pub proof fn lemma_sequential_execution<T: MmapPeripheral>(old: CPU<T>, new: CPU<T>, inst: Instruction, res: Result<(), MemoryError>)
    requires
        old.register.wf(),
        new.register.wf(),
        old.can_exec(inst),
        executed(old, new, inst, res),
        !is_control(inst.spec_decompress()->Some_0),
    ensures
        new.register.pc == old.register.pc + (if inst.spec_is_compressed() { 2int } else { 4int }),
        new.register.x()[0] == 0,
{
}

/// The integer arithmetic of the register instructions, over the register
/// values as unsigned numbers `a = x[rs1]` and `b = x[rs2]`: `add` and
/// `sub` give `a + b` and `a - b` modulo `2^32`, `mul` the low and `mulhu`
/// the high 32 bits of `a * b`, `slt` and `sltu` whether `a` is below `b`
/// as signed and as unsigned numbers, and `addi` adds its sign-extended
/// immediate modulo `2^32`. The result goes to `rd` (unless it is `x0`),
/// no other register changes, and execution goes on with the next
/// instruction.
pub proof fn lemma_register_arithmetic<T: MmapPeripheral>(old: CPU<T>, new: CPU<T>, inst: Instruction, res: Result<(), MemoryError>)
    requires
        old.register.wf(),
        inst.wf(),
        !inst.spec_is_compressed(),
        old.register.pc + 4 <= u32::MAX,
        executed(old, new, inst, res),
        inst matches Instruction::ADD(..) || inst matches Instruction::SUB(..) || inst matches Instruction::MUL(..)
            || inst matches Instruction::MULHU(..) || inst matches Instruction::SLT(..)
            || inst matches Instruction::SLTU(..) || inst matches Instruction::ADDI(..),
    ensures
        res is Ok,
        new.register.pc == old.register.pc + 4,
        new.register.csr == old.register.csr,
        forall|j: int| 0 <= j < 32 && j != alu_dest(inst) ==> new.register.x()[j] == old.register.x()[j],
        alu_dest(inst) == 0 ==> new.register.x() == old.register.x(),
        ({
            let x = old.register.x();
            let y = new.register.x();
            match inst {
                Instruction::ADD(rd, rs1, rs2) => rd != 0 ==> y[rd as int] == (x[rs1 as int] + x[rs2 as int]) % 0x1_0000_0000,
                Instruction::SUB(rd, rs1, rs2) => rd != 0 ==> y[rd as int] == (x[rs1 as int] - x[rs2 as int]) % 0x1_0000_0000,
                Instruction::MUL(rd, rs1, rs2) => rd != 0 ==> y[rd as int] == (x[rs1 as int] * x[rs2 as int]) % 0x1_0000_0000,
                Instruction::MULHU(rd, rs1, rs2) => rd != 0 ==> y[rd as int] == (x[rs1 as int] * x[rs2 as int]) / 0x1_0000_0000,
                Instruction::SLT(rd, rs1, rs2) => rd != 0 ==> (y[rd as int] == 1 <==> (x[rs1 as int] as i32) < (
                x[rs2 as int] as i32)) && (y[rd as int] == 0 || y[rd as int] == 1),
                Instruction::SLTU(rd, rs1, rs2) => rd != 0 ==> (y[rd as int] == 1 <==> x[rs1 as int] < x[rs2 as int]) && (
                y[rd as int] == 0 || y[rd as int] == 1),
                Instruction::ADDI(rd, rs1, imm) => rd != 0 ==> y[rd as int] == (x[rs1 as int] + imm) % 0x1_0000_0000,
                _ => true,
            }
        }),
{
    let x = old.register.x();
    match inst {
        Instruction::MUL(rd, rs1, rs2) => {
            let a = x[rs1 as int];
            let b = x[rs2 as int];
            let p = (a as int * b as int) as u64;
            assert(a as int * b as int <= 0xFFFF_FFFF * 0xFFFF_FFFF) by (nonlinear_arith)
                requires
                    a <= 0xFFFF_FFFF,
                    b <= 0xFFFF_FFFF,
            ;
            assert(0 <= a as int * b as int) by (nonlinear_arith);
            assert(p == a as int * b as int);
            lemma_halves(p);
        },
        Instruction::MULHU(rd, rs1, rs2) => {
            let a = x[rs1 as int];
            let b = x[rs2 as int];
            let p = (a as int * b as int) as u64;
            assert(a as int * b as int <= 0xFFFF_FFFF * 0xFFFF_FFFF) by (nonlinear_arith)
                requires
                    a <= 0xFFFF_FFFF,
                    b <= 0xFFFF_FFFF,
            ;
            assert(0 <= a as int * b as int) by (nonlinear_arith);
            assert(p == a as int * b as int);
            lemma_halves(p);
        },
        _ => {},
    }
}

/// Unsigned division and remainder of the same registers fit together:
/// for `a = x[rs1]` and a divisor `b = x[rs2]` other than zero, `divu`
/// gives `q` and `remu` gives `r` with `q * b + r == a` and `r < b`; a
/// division by zero gives all ones and the remainder `a`.
pub proof fn lemma_unsigned_division<T: MmapPeripheral>(
    c: CPU<T>,
    n1: CPU<T>,
    n2: CPU<T>,
    rd1: usize,
    rd2: usize,
    rs1: usize,
    rs2: usize,
    res1: Result<(), MemoryError>,
    res2: Result<(), MemoryError>,
)
    requires
        c.register.wf(),
        0 < rd1 < 32,
        0 < rd2 < 32,
        rs1 < 32,
        rs2 < 32,
        executed(c, n1, Instruction::DIVU(rd1, rs1, rs2), res1),
        executed(c, n2, Instruction::REMU(rd2, rs1, rs2), res2),
    ensures
        ({
            let a = c.register.x()[rs1 as int] as int;
            let b = c.register.x()[rs2 as int] as int;
            let q = n1.register.x()[rd1 as int] as int;
            let r = n2.register.x()[rd2 as int] as int;
            &&& b != 0 ==> q * b + r == a && 0 <= r < b
            &&& b == 0 ==> q == 0xFFFF_FFFF && r == a
        }),
{
    let a = c.register.x()[rs1 as int] as int;
    let b = c.register.x()[rs2 as int] as int;
    if b != 0 {
        lemma_div_magnitude(a, b);
        assert((a / b) * b == b * (a / b)) by (nonlinear_arith);
    }
}

/// Casting a signed word to its bits and back gives it again.
proof fn lemma_i32_bits(v: i32)
    ensures
        (v as u32) as i32 == v,
{
    lemma_word_facts(0, 0, v);
}

/// Signed division and remainder of the same registers fit together: for
/// `a = x[rs1]` and `b = x[rs2]` read as signed numbers, `div` gives `q`
/// and `rem` gives `r` with `q * b + r == a`, `r` smaller than `b` in size
/// and zero or of the sign of `a` (the quotient rounds towards zero). A
/// division by zero gives `-1` and the remainder `a`; the one overflow,
/// `i32::MIN / -1`, gives `i32::MIN` and the remainder zero.
pub proof fn lemma_signed_division<T: MmapPeripheral>(
    c: CPU<T>,
    n1: CPU<T>,
    n2: CPU<T>,
    rd1: usize,
    rd2: usize,
    rs1: usize,
    rs2: usize,
    res1: Result<(), MemoryError>,
    res2: Result<(), MemoryError>,
)
    requires
        c.register.wf(),
        0 < rd1 < 32,
        0 < rd2 < 32,
        rs1 < 32,
        rs2 < 32,
        executed(c, n1, Instruction::DIV(rd1, rs1, rs2), res1),
        executed(c, n2, Instruction::REM(rd2, rs1, rs2), res2),
    ensures
        ({
            let a = c.register.x()[rs1 as int] as i32 as int;
            let b = c.register.x()[rs2 as int] as i32 as int;
            let q = n1.register.x()[rd1 as int] as i32 as int;
            let r = n2.register.x()[rd2 as int] as i32 as int;
            &&& b != 0 && !(a == i32::MIN && b == -1) ==> {
                &&& q * b + r == a
                &&& (if r < 0 { -r } else { r }) < (if b < 0 { -b } else { b })
                &&& r == 0 || (r < 0) == (a < 0)
            }
            &&& b == 0 ==> q == -1 && r == a
            &&& a == i32::MIN && b == -1 ==> q == i32::MIN && r == 0
        }),
{
    let xa = c.register.x()[rs1 as int];
    let xb = c.register.x()[rs2 as int];
    let ai = xa as i32;
    let bi = xb as i32;
    let a = ai as int;
    let b = bi as int;
    lemma_word_facts(xb, 0, 0);
    lemma_word_facts(xa, 0, -1i32);
    let qu = n1.register.x()[rd1 as int];
    let ru = n2.register.x()[rd2 as int];
    assert(qu == alu_value(c.register.x(), Instruction::DIV(rd1, rs1, rs2), 0));
    assert(ru == alu_value(c.register.x(), Instruction::REM(rd2, rs1, rs2), 0));
    lemma_i32_bits(ai);
    if b != 0 {
        lemma_trunc_div_cases(ai, bi);
        lemma_i32_bits(i32_div(ai, bi));
        lemma_i32_bits(i32_rem(ai, bi));
        let t = trunc_div(a, b);
        let ax = if a < 0 { -a } else { a };
        let ad = if b < 0 { -b } else { b };
        lemma_div_magnitude(ax, ad);
        assert(t * b == b * t) by (nonlinear_arith);
        if !(a == i32::MIN && b == -1) {
            assert(i32_div(ai, bi) as int == t);
            assert(i32_rem(ai, bi) as int == a - b * t);
            assert(qu as i32 == i32_div(ai, bi));
            assert(ru as i32 == i32_rem(ai, bi));
        } else {
            assert(qu as i32 == i32_div(ai, bi));
            assert(ru as i32 == i32_rem(ai, bi));
        }
    } else {
        assert(qu == u32::MAX);
        assert(ru == xa);
    }
}

/// Jumps and branches, over `pc` and the register values `a = x[rs1]`,
/// `b = x[rs2]`: a branch goes to `pc + offset` (modulo `2^32`) exactly
/// when its comparison holds (`beq` equal, `bne` different, `blt`/`bge`
/// below / not below as signed numbers, `bltu`/`bgeu` as unsigned ones),
/// else on to `pc + 4`, and changes no register; `jal` goes to
/// `pc + offset` and `jalr` to `a + offset` with the lowest bit cleared,
/// both linking `pc + 4` in `rd`. CSRs and memory stay as they were.
pub proof fn lemma_jumps_and_branches<T: MmapPeripheral>(old: CPU<T>, new: CPU<T>, inst: Instruction, res: Result<(), MemoryError>)
    requires
        old.register.wf(),
        inst.wf(),
        !inst.spec_is_compressed(),
        old.register.pc + 4 <= u32::MAX,
        executed(old, new, inst, res),
        inst matches Instruction::BEQ(..) || inst matches Instruction::BNE(..) || inst matches Instruction::BLT(..)
            || inst matches Instruction::BGE(..) || inst matches Instruction::BLTU(..)
            || inst matches Instruction::BGEU(..) || inst matches Instruction::JAL(..)
            || inst matches Instruction::JALR(..),
    ensures
        res is Ok,
        new.register.csr == old.register.csr,
        mem_same(new.memory, old.memory),
        ({
            let x = old.register.x();
            let y = new.register.x();
            let pc = old.register.pc as int;
            let to = |off: i32| ((pc + off) % 0x1_0000_0000) as u32;
            match inst {
                Instruction::BEQ(rs1, rs2, off) => y == x && new.register.pc == if x[rs1 as int] == x[rs2 as int] {
                    to(off)
                } else {
                    (pc + 4) as u32
                },
                Instruction::BNE(rs1, rs2, off) => y == x && new.register.pc == if x[rs1 as int] != x[rs2 as int] {
                    to(off)
                } else {
                    (pc + 4) as u32
                },
                Instruction::BLT(rs1, rs2, off) => y == x && new.register.pc == if (x[rs1 as int] as i32) < (
                x[rs2 as int] as i32) {
                    to(off)
                } else {
                    (pc + 4) as u32
                },
                Instruction::BGE(rs1, rs2, off) => y == x && new.register.pc == if (x[rs1 as int] as i32) < (
                x[rs2 as int] as i32) {
                    (pc + 4) as u32
                } else {
                    to(off)
                },
                Instruction::BLTU(rs1, rs2, off) => y == x && new.register.pc == if x[rs1 as int] < x[rs2 as int] {
                    to(off)
                } else {
                    (pc + 4) as u32
                },
                Instruction::BGEU(rs1, rs2, off) => y == x && new.register.pc == if x[rs1 as int] < x[rs2 as int] {
                    (pc + 4) as u32
                } else {
                    to(off)
                },
                Instruction::JAL(rd, off) => {
                    &&& new.register.pc == to(off)
                    &&& rd != 0 ==> y[rd as int] == pc + 4
                    &&& forall|j: int| 0 <= j < 32 && j != rd ==> y[j] == x[j]
                },
                Instruction::JALR(rd, rs1, off) => {
                    let t = (x[rs1 as int] + off) % 0x1_0000_0000;
                    &&& new.register.pc == t - t % 2
                    &&& rd != 0 ==> y[rd as int] == pc + 4
                    &&& forall|j: int| 0 <= j < 32 && j != rd ==> y[j] == x[j]
                },
                _ => true,
            }
        }),
{
    if let Instruction::JALR(rd, rs1, off) = inst {
        let t = spec_add_signed(old.register.x()[rs1 as int], off);
        lemma_word_facts(t, 0, 0);
    }
}

/// The CSR instructions, for a CSR `c` that holds what is written to it
/// (`mstatus`, `mie`, `mtvec`, `mscratch`, `mepc`, `mcause`): the old value
/// of `c` goes to `rd`, and `c` then holds `x[rs1]` (`csrrw`), the old value
/// with the bits of `x[rs1]` set (`csrrs`) or cleared (`csrrc`), where
/// `rs1` is `x0` the set and clear leave `c` alone; the immediate forms do
/// the same with the 5-bit immediate. Execution goes on with the next
/// instruction and memory stays as it was.
pub proof fn lemma_csr_instructions<T: MmapPeripheral>(old: CPU<T>, new: CPU<T>, inst: Instruction, res: Result<(), MemoryError>)
    requires
        old.register.wf(),
        inst.wf(),
        !inst.spec_is_compressed(),
        old.register.pc + 4 <= u32::MAX,
        csr_step_defined(old.register.x(), old.register.csr, inst),
        executed(old, new, inst, res),
        inst.spec_is_zicsr(),
    ensures
        res is Ok,
        new.register.pc == old.register.pc + 4,
        mem_same(new.memory, old.memory),
        ({
            let x = old.register.x();
            let y = new.register.x();
            let v = |c: u32| old.register.csr.value(c);
            let holds = |c: u32| c == 0x300 || c == 0x304 || c == 0x305 || c == 0x340 || c == 0x341 || c == 0x342;
            match inst {
                Instruction::CSRRW(rd, rs1, c) => (rd != 0 ==> y[rd as int] == v(c)) && (holds(c)
                    ==> new.register.csr.value(c) == x[rs1 as int]),
                Instruction::CSRRS(rd, rs1, c) => (rd != 0 ==> y[rd as int] == v(c)) && (holds(c)
                    ==> new.register.csr.value(c) == if rs1 != 0 { v(c) | x[rs1 as int] } else { v(c) }),
                Instruction::CSRRC(rd, rs1, c) => (rd != 0 ==> y[rd as int] == v(c)) && (holds(c)
                    ==> new.register.csr.value(c) == if rs1 != 0 { v(c) & !x[rs1 as int] } else { v(c) }),
                Instruction::CSRRWI(rd, u, c) => (rd != 0 ==> y[rd as int] == v(c)) && (holds(c)
                    ==> new.register.csr.value(c) == u as u32),
                Instruction::CSRRSI(rd, u, c) => (rd != 0 ==> y[rd as int] == v(c)) && (holds(c)
                    ==> new.register.csr.value(c) == if u != 0 { v(c) | u as u32 } else { v(c) }),
                Instruction::CSRRCI(rd, u, c) => (rd != 0 ==> y[rd as int] == v(c)) && (holds(c)
                    ==> new.register.csr.value(c) == if u != 0 { v(c) & !(u as u32) } else { v(c) }),
                _ => true,
            }
        }),
{
    let x = old.register.x();
    let csr = old.register.csr;
    match inst {
        Instruction::CSRRW(rd, rs1, c) => {
            lemma_csr_read_after_write(csr, c, x[rs1 as int], 0xF11);
        },
        Instruction::CSRRS(rd, rs1, c) => {
            let (xr, cv) = (x[rs1 as int], csr.value(c));
            let w = xr | cv;
            lemma_word_facts(xr, cv, 0);
            if rs1 != 0 {
                lemma_csr_read_after_write(csr, c, w, 0xF11);
            }
        },
        Instruction::CSRRC(rd, rs1, c) => {
            let (xr, cv) = (x[rs1 as int], csr.value(c));
            let w = !xr & cv;
            lemma_word_facts(xr, cv, 0);
            if rs1 != 0 {
                lemma_csr_read_after_write(csr, c, w, 0xF11);
            }
        },
        Instruction::CSRRWI(rd, u, c) => {
            lemma_csr_read_after_write(csr, c, u as u32, 0xF11);
        },
        Instruction::CSRRSI(rd, u, c) => {
            let (uu, cv) = (u as u32, csr.value(c));
            let w = uu | cv;
            lemma_word_facts(uu, cv, 0);
            if u != 0 {
                lemma_csr_read_after_write(csr, c, w, 0xF11);
            }
        },
        Instruction::CSRRCI(rd, u, c) => {
            let (uu, cv) = (u as u32, csr.value(c));
            let w = !uu & cv;
            lemma_word_facts(uu, cv, 0);
            if u != 0 {
                lemma_csr_read_after_write(csr, c, w, 0xF11);
            }
        },
        _ => {},
    }
}

/// Bit `i` of `v` is set.
pub open spec fn bit_set(v: u32, i: u32) -> bool {
    (v >> i) & 1 == 1
}

/// Each bit of a bitwise result comes from the same bit of the operands.
proof fn lemma_bitwise(a: u32, b: u32, i: u32)
    by (bit_vector)
    requires
        i < 32,
    ensures
        ((a & b) >> i) & 1 == 1 <==> ((a >> i) & 1 == 1 && (b >> i) & 1 == 1),
        ((a | b) >> i) & 1 == 1 <==> ((a >> i) & 1 == 1 || (b >> i) & 1 == 1),
        ((a ^ b) >> i) & 1 == 1 <==> ((a >> i) & 1 == 1) != ((b >> i) & 1 == 1),
{
}

/// A left shift within 32 bits multiplies by a power of two and drops
/// what passes bit 31.
proof fn lemma_shift_left(a: u32, s: u32)
    requires
        s < 32,
    ensures
        (a << s) as int == (a as int * vstd::arithmetic::power2::pow2(s as nat)) % 0x1_0000_0000,
{
    let w = a as u64;
    let t = s as u64;
    vstd::arithmetic::power2::lemma_pow2_strictly_increases(s as nat, 32);
    vstd::arithmetic::power2::lemma2_to64();
    assert(w * vstd::arithmetic::power2::pow2(t as nat) <= u64::MAX) by (nonlinear_arith)
        requires
            w < 0x1_0000_0000,
            vstd::arithmetic::power2::pow2(t as nat) < 0x1_0000_0000,
    ;
    vstd::bits::lemma_u64_shl_is_mul(w, t);
    let p = w << t;
    assert((a << s) == (p as u32)) by (bit_vector)
        requires
            w == a as u64,
            t == s as u64,
            p == w << t,
            s < 32,
    ;
    lemma_halves(p);
}

/// The bitwise and shift instructions, over the register values
/// `a = x[rs1]` and `b = x[rs2]` (the sign-extended immediate for the
/// immediate forms): each bit of the result of `and`, `or`, `xor` is the
/// and, or, exclusive or of the operands' bits; `sll` multiplies `a` by
/// `2^s` modulo `2^32` and `srl` divides it by `2^s`, for the shift amount
/// `s` in the low five bits of `b` (of the immediate for `slli`, `srli`);
/// `slti` and `sltiu` tell whether `a` is below the immediate as signed and
/// as unsigned numbers. The result goes to `rd` (unless it is `x0`), no
/// other register changes and execution goes on with the next instruction.
pub proof fn lemma_logic_and_shifts<T: MmapPeripheral>(old: CPU<T>, new: CPU<T>, inst: Instruction, res: Result<(), MemoryError>)
    requires
        old.register.wf(),
        inst.wf(),
        !inst.spec_is_compressed(),
        old.register.pc + 4 <= u32::MAX,
        executed(old, new, inst, res),
        inst matches Instruction::AND(..) || inst matches Instruction::OR(..) || inst matches Instruction::XOR(..)
            || inst matches Instruction::ANDI(..) || inst matches Instruction::ORI(..)
            || inst matches Instruction::XORI(..) || inst matches Instruction::SLL(..)
            || inst matches Instruction::SRL(..) || inst matches Instruction::SLLI(..)
            || inst matches Instruction::SRLI(..) || inst matches Instruction::SLTI(..)
            || inst matches Instruction::SLTIU(..),
    ensures
        res is Ok,
        new.register.pc == old.register.pc + 4,
        new.register.csr == old.register.csr,
        mem_same(new.memory, old.memory),
        forall|j: int| 0 <= j < 32 && j != alu_dest(inst) ==> new.register.x()[j] == old.register.x()[j],
        ({
            let x = old.register.x();
            let y = new.register.x();
            let p = |s: u32| vstd::arithmetic::power2::pow2(s as nat);
            match inst {
                Instruction::AND(rd, rs1, rs2) => rd != 0 ==> forall|i: u32|
                    i < 32 ==> #[trigger] bit_set(y[rd as int], i) == (bit_set(x[rs1 as int], i) && bit_set(x[rs2 as int], i)),
                Instruction::OR(rd, rs1, rs2) => rd != 0 ==> forall|i: u32|
                    i < 32 ==> #[trigger] bit_set(y[rd as int], i) == (bit_set(x[rs1 as int], i) || bit_set(x[rs2 as int], i)),
                Instruction::XOR(rd, rs1, rs2) => rd != 0 ==> forall|i: u32|
                    i < 32 ==> #[trigger] bit_set(y[rd as int], i) == (bit_set(x[rs1 as int], i) != bit_set(x[rs2 as int], i)),
                Instruction::ANDI(rd, rs1, imm) => rd != 0 ==> forall|i: u32|
                    i < 32 ==> #[trigger] bit_set(y[rd as int], i) == (bit_set(x[rs1 as int], i) && bit_set(imm as u32, i)),
                Instruction::ORI(rd, rs1, imm) => rd != 0 ==> forall|i: u32|
                    i < 32 ==> #[trigger] bit_set(y[rd as int], i) == (bit_set(x[rs1 as int], i) || bit_set(imm as u32, i)),
                Instruction::XORI(rd, rs1, imm) => rd != 0 ==> forall|i: u32|
                    i < 32 ==> #[trigger] bit_set(y[rd as int], i) == (bit_set(x[rs1 as int], i) != bit_set(imm as u32, i)),
                Instruction::SLL(rd, rs1, rs2) => rd != 0 ==> y[rd as int] == (x[rs1 as int] * p(x[rs2 as int] % 32))
                    % 0x1_0000_0000,
                Instruction::SRL(rd, rs1, rs2) => rd != 0 ==> y[rd as int] == x[rs1 as int] as nat / p(x[rs2 as int] % 32),
                Instruction::SLLI(rd, rs1, imm) => rd != 0 ==> y[rd as int] == (x[rs1 as int] * p(
                    ((imm as u32) % 32) as u32,
                )) % 0x1_0000_0000,
                Instruction::SRLI(rd, rs1, imm) => rd != 0 ==> y[rd as int] == x[rs1 as int] as nat / p(((imm as u32) % 32) as u32),
                Instruction::SLTI(rd, rs1, imm) => rd != 0 ==> (y[rd as int] == 1 <==> (x[rs1 as int] as i32) < imm) && (
                y[rd as int] == 0 || y[rd as int] == 1),
                Instruction::SLTIU(rd, rs1, imm) => rd != 0 ==> (y[rd as int] == 1 <==> x[rs1 as int] < imm as u32) && (
                y[rd as int] == 0 || y[rd as int] == 1),
                _ => true,
            }
        }),
{
    let x = old.register.x();
    match inst {
        Instruction::AND(rd, rs1, rs2) => {
            let (a, b) = (x[rs1 as int], x[rs2 as int]);
            assert forall|i: u32| i < 32 implies #[trigger] bit_set(a & b, i) == (bit_set(a, i) && bit_set(b, i)) by {
                lemma_bitwise(a, b, i);
            }
        },
        Instruction::OR(rd, rs1, rs2) => {
            let (a, b) = (x[rs1 as int], x[rs2 as int]);
            assert forall|i: u32| i < 32 implies #[trigger] bit_set(a | b, i) == (bit_set(a, i) || bit_set(b, i)) by {
                lemma_bitwise(a, b, i);
            }
        },
        Instruction::XOR(rd, rs1, rs2) => {
            let (a, b) = (x[rs1 as int], x[rs2 as int]);
            assert forall|i: u32| i < 32 implies #[trigger] bit_set(a ^ b, i) == (bit_set(a, i) != bit_set(b, i)) by {
                lemma_bitwise(a, b, i);
            }
        },
        Instruction::ANDI(rd, rs1, imm) => {
            let (a, b) = (x[rs1 as int], imm as u32);
            assert forall|i: u32| i < 32 implies #[trigger] bit_set(a & b, i) == (bit_set(a, i) && bit_set(b, i)) by {
                lemma_bitwise(a, b, i);
            }
        },
        Instruction::ORI(rd, rs1, imm) => {
            let (a, b) = (x[rs1 as int], imm as u32);
            assert forall|i: u32| i < 32 implies #[trigger] bit_set(a | b, i) == (bit_set(a, i) || bit_set(b, i)) by {
                lemma_bitwise(a, b, i);
            }
        },
        Instruction::XORI(rd, rs1, imm) => {
            let (a, b) = (x[rs1 as int], imm as u32);
            assert forall|i: u32| i < 32 implies #[trigger] bit_set(a ^ b, i) == (bit_set(a, i) != bit_set(b, i)) by {
                lemma_bitwise(a, b, i);
            }
        },
        Instruction::SLL(rd, rs1, rs2) => {
            let b = x[rs2 as int];
            lemma_word_facts(b, 0, 0);
            lemma_shift_left(x[rs1 as int], b & 0b1_1111);
        },
        Instruction::SRL(rd, rs1, rs2) => {
            let b = x[rs2 as int];
            lemma_word_facts(b, 0, 0);
            vstd::bits::lemma_u32_shr_is_div(x[rs1 as int], b & 0b1_1111);
        },
        Instruction::SLLI(rd, rs1, imm) => {
            let u = imm as u32;
            lemma_word_facts(u, 0, imm);
            lemma_shift_left(x[rs1 as int], u % 32);
        },
        Instruction::SRLI(rd, rs1, imm) => {
            let u = imm as u32;
            lemma_word_facts(u, 0, imm);
            vstd::bits::lemma_u32_shr_is_div(x[rs1 as int], u % 32);
        },
        _ => {},
    }
}

/// `ecall` traps: it saves its own address in `mepc`, records cause 11
/// (environment call from machine mode) in `mcause` and jumps to `mtvec`;
/// `mret` returns to the address in `mepc`. Neither changes a register or
/// memory.
pub proof fn lemma_ecall_and_mret<T: MmapPeripheral>(old: CPU<T>, new: CPU<T>, inst: Instruction, res: Result<(), MemoryError>)
    requires
        old.register.wf(),
        executed(old, new, inst, res),
        inst == Instruction::ECALL() || inst == Instruction::MRET(),
    ensures
        res is Ok,
        new.register.x() == old.register.x(),
        mem_same(new.memory, old.memory),
        inst == Instruction::ECALL() ==> {
            &&& new.register.pc == old.register.csr.mtvec
            &&& new.register.csr.mepc == old.register.pc
            &&& new.register.csr.mcause == 11
            &&& new.register.csr.mtvec == old.register.csr.mtvec
            &&& new.register.csr.mstatus == old.register.csr.mstatus
        },
        inst == Instruction::MRET() ==> new.register.pc == old.register.csr.mepc && new.register.csr
            == old.register.csr,
{
}

/// A word stored to RAM with `sw` is what a following `lw` from the same
/// address loads, whatever registers the two use to form the address.
pub proof fn lemma_store_then_load_word<T: MmapPeripheral>(
    c0: CPU<T>,
    c1: CPU<T>,
    c2: CPU<T>,
    rs1: usize,
    rs2: usize,
    off: i32,
    rd: usize,
    base: usize,
    off2: i32,
    res1: Result<(), MemoryError>,
    res2: Result<(), MemoryError>,
)
    requires
        c0.register.wf(),
        c0.memory.wf(),
        rs1 < 32,
        rs2 < 32,
        0 < rd < 32,
        base < 32,
        executed(c0, c1, Instruction::SW(rs1, rs2, off), res1),
        executed(c1, c2, Instruction::LW(rd, base, off2), res2),
        spec_add_signed(c1.register.x()[base as int], off2) == spec_add_signed(c0.register.x()[rs1 as int], off),
        in_ram(spec_add_signed(c0.register.x()[rs1 as int], off) as usize),
        in_ram((spec_add_signed(c0.register.x()[rs1 as int], off) + 3) as usize),
    ensures
        res1 is Ok,
        res2 is Ok,
        c2.register.x()[rd as int] == c0.register.x()[rs2 as int],
{
    let t = spec_add_signed(c0.register.x()[rs1 as int], off) as usize;
    lemma_ram_word_read_after_write(c0.memory, c1.memory, t, c0.register.x()[rs2 as int], res1);
}

/// A byte stored to RAM with `sb` loads back with `lbu` as the low byte of
/// the stored register, and with `lb` as that byte read as a signed number.
pub proof fn lemma_store_then_load_byte<T: MmapPeripheral>(
    c0: CPU<T>,
    c1: CPU<T>,
    c2: CPU<T>,
    rs1: usize,
    rs2: usize,
    off: i32,
    load: Instruction,
    res1: Result<(), MemoryError>,
    res2: Result<(), MemoryError>,
)
    requires
        c0.register.wf(),
        c0.memory.wf(),
        rs1 < 32,
        rs2 < 32,
        executed(c0, c1, Instruction::SB(rs1, rs2, off), res1),
        executed(c1, c2, load, res2),
        load is LB || load is LBU,
        ({
            let (rd, base, off2) = match load {
                Instruction::LB(rd, base, off2) => (rd, base, off2),
                Instruction::LBU(rd, base, off2) => (rd, base, off2),
                _ => (0, 0, 0),
            };
            0 < rd < 32 && base < 32 && spec_add_signed(c1.register.x()[base as int], off2) == spec_add_signed(
                c0.register.x()[rs1 as int],
                off,
            )
        }),
        in_ram(spec_add_signed(c0.register.x()[rs1 as int], off) as usize),
    ensures
        res1 is Ok,
        res2 is Ok,
        ({
            let b = (c0.register.x()[rs2 as int] % 256) as int;
            match load {
                Instruction::LBU(rd, _, _) => c2.register.x()[rd as int] == b,
                Instruction::LB(rd, _, _) => (c2.register.x()[rd as int] as i32) as int == if b >= 128 {
                    b - 256
                } else {
                    b
                },
                _ => true,
            }
        }),
{
    let t = spec_add_signed(c0.register.x()[rs1 as int], off) as usize;
    let v = c0.register.x()[rs2 as int];
    lemma_ram_byte_read_after_write(c0.memory, c1.memory, t, v, res1);
    lemma_word_facts(v, 0, 0);
    let b = v & 0xFF;
    lemma_byte_value(v);
    if load is LB {
        lemma_sign_extend_value(b, 8);
        vstd::arithmetic::power2::lemma2_to64();
    }
}

/// The arithmetic right shift fills with the sign: shifting right by `s`
/// what `spec_sign_extend` gives is the signed word shifted right by `s`.
proof fn lemma_arithmetic_shift(a: u32, s: u32)
    by (bit_vector)
    requires
        s < 32,
    ensures
        spec_sign_extend(a >> s, (32 - s) as u32) == ((a as i32) >> s) as u32,
{
}

/// `sra` and `srai` shift the register value, read as a signed number,
/// right by the shift amount `s` (the low five bits of `x[rs2]` or of the
/// immediate), copying the sign bit into the bits that come free. The
/// result goes to `rd` unless it is `x0`.
pub proof fn lemma_shift_right_arithmetic<T: MmapPeripheral>(old: CPU<T>, new: CPU<T>, inst: Instruction, res: Result<(), MemoryError>)
    requires
        old.register.wf(),
        inst.wf(),
        !inst.spec_is_compressed(),
        old.register.pc + 4 <= u32::MAX,
        executed(old, new, inst, res),
        inst is SRA || inst is SRAI,
    ensures
        res is Ok,
        new.register.pc == old.register.pc + 4,
        forall|j: int| 0 <= j < 32 && j != alu_dest(inst) ==> new.register.x()[j] == old.register.x()[j],
        ({
            let x = old.register.x();
            let y = new.register.x();
            match inst {
                Instruction::SRA(rd, rs1, rs2) => rd != 0 ==> y[rd as int] as i32 == (x[rs1 as int] as i32) >> (
                x[rs2 as int] % 32),
                Instruction::SRAI(rd, rs1, imm) => rd != 0 ==> y[rd as int] as i32 == (x[rs1 as int] as i32) >> ((
                imm as u32) % 32),
                _ => true,
            }
        }),
{
    let x = old.register.x();
    match inst {
        Instruction::SRA(rd, rs1, rs2) => {
            let b = x[rs2 as int];
            lemma_word_facts(b, 0, 0);
            lemma_arithmetic_shift(x[rs1 as int], b & 0b1_1111);
            lemma_word_facts(0, 0, (x[rs1 as int] as i32) >> (b & 0b1_1111));
        },
        Instruction::SRAI(rd, rs1, imm) => {
            let u = imm as u32;
            lemma_word_facts(u, 0, imm);
            lemma_arithmetic_shift(x[rs1 as int], u % 32);
            lemma_word_facts(0, 0, (x[rs1 as int] as i32) >> (u % 32));
        },
        _ => {},
    }
}

/// What the atomic memory operations store, from the word `data` read
/// and the register value `src`: `amoswap` stores `src`, `amoadd` the sum
/// modulo `2^32`, `amoxor`, `amoand`, `amoor` the bitwise combination, and
/// `amomin`, `amomax` (signed) and `amominu`, `amomaxu` (unsigned) the
/// smaller or larger of the two.
pub proof fn lemma_atomic_results(data: u32, src: u32)
    ensures
        amo_result(Instruction::AMOSWAPW(1, 1, 1), data, src) == src,
        amo_result(Instruction::AMOADDW(1, 1, 1), data, src) == (data + src) % 0x1_0000_0000,
        forall|i: u32|
            i < 32 ==> #[trigger] bit_set(amo_result(Instruction::AMOXORW(1, 1, 1), data, src), i) == (bit_set(data, i)
                != bit_set(src, i)),
        forall|i: u32|
            i < 32 ==> #[trigger] bit_set(amo_result(Instruction::AMOANDW(1, 1, 1), data, src), i) == (bit_set(data, i)
                && bit_set(src, i)),
        forall|i: u32|
            i < 32 ==> #[trigger] bit_set(amo_result(Instruction::AMOORW(1, 1, 1), data, src), i) == (bit_set(data, i)
                || bit_set(src, i)),
        ({
            let m = amo_result(Instruction::AMOMINW(1, 1, 1), data, src);
            (m == data || m == src) && (m as i32) <= (data as i32) && (m as i32) <= (src as i32)
        }),
        ({
            let m = amo_result(Instruction::AMOMAXW(1, 1, 1), data, src);
            (m == data || m == src) && (m as i32) >= (data as i32) && (m as i32) >= (src as i32)
        }),
        ({
            let m = amo_result(Instruction::AMOMINUW(1, 1, 1), data, src);
            (m == data || m == src) && m <= data && m <= src
        }),
        ({
            let m = amo_result(Instruction::AMOMAXUW(1, 1, 1), data, src);
            (m == data || m == src) && m >= data && m >= src
        }),
{
    assert forall|i: u32| i < 32 implies #[trigger] bit_set(data ^ src, i) == (bit_set(data, i) != bit_set(src, i)) by {
        lemma_bitwise(data, src, i);
    }
    assert forall|i: u32| i < 32 implies #[trigger] bit_set(data & src, i) == (bit_set(data, i) && bit_set(src, i)) by {
        lemma_bitwise(data, src, i);
    }
    assert forall|i: u32| i < 32 implies #[trigger] bit_set(data | src, i) == (bit_set(data, i) || bit_set(src, i)) by {
        lemma_bitwise(data, src, i);
    }
    lemma_word_facts(data, src, 0);
    lemma_word_facts(src, data, 0);
    lemma_word_facts(0, 0, data as i32);
    lemma_word_facts(0, 0, src as i32);
}

/// The high half of a 64-bit signed product, as a signed word, is the
/// product divided by `2^32` rounded down.
proof fn lemma_high_half_signed(p: i64)
    by (bit_vector)
    ensures
        ((((p >> 32u32) as u32) as i32) as int) * 0x1_0000_0000 <= p as int,
        (p as int) < (((((p >> 32u32) as u32) as i32) as int) + 1) * 0x1_0000_0000,
{
}

/// `mulh` and `mulhsu` give the high 32 bits of the 64-bit product of the
/// register values, both read as signed numbers (`mulh`) or the first as
/// signed and the second as unsigned (`mulhsu`): read as a signed number,
/// the result `h` satisfies `h * 2^32 <= a * b < (h + 1) * 2^32`.
pub proof fn lemma_signed_high_multiply<T: MmapPeripheral>(old: CPU<T>, new: CPU<T>, inst: Instruction, res: Result<(), MemoryError>)
    requires
        old.register.wf(),
        inst.wf(),
        !inst.spec_is_compressed(),
        old.register.pc + 4 <= u32::MAX,
        executed(old, new, inst, res),
        inst is MULH || inst is MULHSU,
    ensures
        res is Ok,
        new.register.pc == old.register.pc + 4,
        forall|j: int| 0 <= j < 32 && j != alu_dest(inst) ==> new.register.x()[j] == old.register.x()[j],
        ({
            let x = old.register.x();
            let y = new.register.x();
            match inst {
                Instruction::MULH(rd, rs1, rs2) => rd != 0 ==> {
                    let p = (x[rs1 as int] as i32) as int * (x[rs2 as int] as i32) as int;
                    let h = (y[rd as int] as i32) as int;
                    h * 0x1_0000_0000 <= p < (h + 1) * 0x1_0000_0000
                },
                Instruction::MULHSU(rd, rs1, rs2) => rd != 0 ==> {
                    let p = (x[rs1 as int] as i32) as int * x[rs2 as int] as int;
                    let h = (y[rd as int] as i32) as int;
                    h * 0x1_0000_0000 <= p < (h + 1) * 0x1_0000_0000
                },
                _ => true,
            }
        }),
{
    let x = old.register.x();
    match inst {
        Instruction::MULH(rd, rs1, rs2) => {
            let a = (x[rs1 as int] as i32) as int;
            let b = (x[rs2 as int] as i32) as int;
            assert(i64::MIN <= a * b <= i64::MAX) by (nonlinear_arith)
                requires
                    -0x8000_0000 <= a <= 0x7FFF_FFFF,
                    -0x8000_0000 <= b <= 0x7FFF_FFFF,
            ;
            lemma_high_half_signed((a * b) as i64);
        },
        Instruction::MULHSU(rd, rs1, rs2) => {
            let a = (x[rs1 as int] as i32) as int;
            let b = x[rs2 as int] as int;
            assert(i64::MIN <= a * b <= i64::MAX) by (nonlinear_arith)
                requires
                    -0x8000_0000 <= a <= 0x7FFF_FFFF,
                    0 <= b <= 0xFFFF_FFFF,
            ;
            lemma_high_half_signed((a * b) as i64);
        },
        _ => {},
    }
}

/// No instruction changes ROM: whatever a program executes, and whether or
/// not a memory access fails, the contents of ROM stay as they were.
pub proof fn lemma_execution_keeps_rom<T: MmapPeripheral>(old: CPU<T>, new: CPU<T>, inst: Instruction, res: Result<(), MemoryError>)
    requires
        executed(old, new, inst, res),
    ensures
        new.memory.rom@ == old.memory.rom@,
{
    let a = inst.spec_decompress()->Some_0;
    let x = old.register.x();
    let m0 = old.memory;
    let m1 = new.memory;
    if is_memory_access(a) {
        match a {
            Instruction::SB(rs1, rs2, s) => {
                lemma_writes_keep_rom(m0, m1, spec_add_signed(x[rs1 as int], s) as usize, x[rs2 as int], res);
            },
            Instruction::SH(rs1, rs2, s) => {
                lemma_writes_keep_rom(m0, m1, spec_add_signed(x[rs1 as int], s) as usize, x[rs2 as int], res);
            },
            Instruction::SW(rs1, rs2, s) => {
                lemma_writes_keep_rom(m0, m1, spec_add_signed(x[rs1 as int], s) as usize, x[rs2 as int], res);
            },
            Instruction::LB(..) | Instruction::LBU(..) | Instruction::LH(..) | Instruction::LHU(..) | Instruction::LW(..) => {},
            Instruction::LRW(rd, rs1) => {
                let t = x[rs1 as int] as usize;
                let r = choose|r: Result<u32, MemoryError>| #[trigger] m0.reads_word(t, r) && match r {
                    Ok(v) => res is Ok && new.register.x() == wr(x, rd, v) && same_but_reservation(m1, m0)
                        && m1.reservation == Some((t, v)),
                    Err(e) => res == Err::<(), MemoryError>(e) && new.register.x() == x && mem_same(m1, m0),
                };
            },
            Instruction::SCW(rd, rs1, rs2) => {
                let t = x[rs1 as int] as usize;
                let r = choose|r: Result<u32, MemoryError>| #[trigger] m0.reads_word(t, r)
                    && scw_after_read(m0, m1, x, new.register.x(), rd, rs2, t, r, res);
                if let Ok(v) = r {
                    if m0.reservation == Some((t, v)) {
                        let (mid, w) = choose|mid: Memory<T>, w: Result<(), MemoryError>| #[trigger] m0.writes_word(mid, t, x[rs2 as int], w)
                            && match w {
                            Err(e) => res == Err::<(), MemoryError>(e) && new.register.x() == wr(x, rd, 1) && mem_same(m1, mid),
                            Ok(_) => res is Ok && new.register.x() == wr(x, rd, 0) && same_but_reservation(m1, mid)
                                && m1.reservation is None,
                        };
                        lemma_writes_keep_rom(m0, mid, t, x[rs2 as int], w);
                    }
                }
            },
            _ => {
                let t = x[amo_address(a) as int] as usize;
                let r = choose|r: Result<u32, MemoryError>| #[trigger] m0.reads_word(t, r)
                    && amo_after_read(m0, m1, x, new.register.x(), a, t, r, res);
                if let Ok(data) = r {
                    lemma_writes_keep_rom(m0, m1, t, amo_result(a, data, x[amo_source(a) as int]), res);
                }
            },
        }
    }
}

impl<T: MmapPeripheral> CPU<T> {
    /// `inst` can be executed in this state without panicking: it is a
    /// supported, well formed instruction at a 2-byte aligned address below
    /// the top of the address space on a host whose `usize` holds every
    /// 32-bit address, and a CSR instruction only touches
    /// registers it may.
    pub open spec fn can_exec(self, inst: Instruction) -> bool {
        &&& addresses_fit()
        &&& inst.wf()
        &&& even_offsets(inst)
        &&& inst.spec_decompress() is Some
        &&& self.register.pc % 2 == 0
        &&& self.register.pc + inst_size(inst) <= u32::MAX
        &&& csr_step_defined(self.register.x(), self.register.csr, inst.spec_decompress()->Some_0)
    }
}

fn is_memory_op(a: &Instruction) -> (r: bool)
    ensures
        r == is_memory_access(*a),
{
    matches!(a, Instruction::LB(..) | Instruction::LH(..) | Instruction::LW(..) | Instruction::LBU(..)
        | Instruction::LHU(..) | Instruction::SB(..) | Instruction::SH(..) | Instruction::SW(..)
        | Instruction::LRW(..) | Instruction::SCW(..) | Instruction::AMOSWAPW(..) | Instruction::AMOADDW(..)
        | Instruction::AMOXORW(..) | Instruction::AMOANDW(..) | Instruction::AMOORW(..)
        | Instruction::AMOMINW(..) | Instruction::AMOMAXW(..) | Instruction::AMOMINUW(..)
        | Instruction::AMOMAXUW(..))
}

fn is_control_op(a: &Instruction) -> (r: bool)
    ensures
        r == is_control(*a),
{
    matches!(a, Instruction::JAL(..) | Instruction::JALR(..) | Instruction::BEQ(..) | Instruction::BNE(..)
        | Instruction::BLT(..) | Instruction::BGE(..) | Instruction::BLTU(..) | Instruction::BGEU(..)
        | Instruction::FENCE(..) | Instruction::ECALL() | Instruction::EBREAK() | Instruction::MRET()
        | Instruction::WFI())
}

proof fn lemma_shift_amounts(i: i32, v: u32)
    ensures
        0 <= (i & 0b1_1111) < 32,
        v & 0b1_1111 < 32,
        v != 0 ==> v as i32 != 0,
{
    assert(0 <= (i & 0b1_1111) < 32 && v & 0b1_1111 < 32 && (v != 0 ==> v as i32 != 0)) by (bit_vector);
}

/// Computes the destination and value of a computational instruction at `addr`.
fn alu(reg: &Register, a: Instruction, addr: u32) -> (r: (usize, u32))
    requires
        reg.wf(),
        a.wf(),
        !is_control(a),
        !is_memory_access(a),
        !a.spec_is_zicsr(),
        !a.spec_is_compressed(),
    ensures
        r.0 == alu_dest(a),
        r.0 < 32,
        r.1 == alu_value(reg.x(), a, addr),
{
    match a {
        Instruction::LUI(rd, uimmediate) => (rd, uimmediate as u32),
        Instruction::AUIPC(rd, uimmediate) => (rd, addr.wrapping_add(uimmediate as u32)),
        Instruction::ADDI(rd, rs1index, iimmediate) => {
            let rs1: RS1value = reg.read(rs1index);
            (rd, add_signed(rs1, iimmediate))
        },
        Instruction::SLTI(rd, rs1index, iimmediate) => {
            let rs1: RS1value = reg.read(rs1index);
            if (rs1 as i32) < iimmediate {
                (rd, 1)
            } else {
                (rd, 0)
            }
        },
        Instruction::SLTIU(rd, rs1index, iimmediate) => {
            let rs1: RS1value = reg.read(rs1index);
            if rs1 < iimmediate as u32 {
                (rd, 1)
            } else {
                (rd, 0)
            }
        },
        Instruction::XORI(rd, rs1index, iimmediate) => (rd, reg.read(rs1index) ^ iimmediate as u32),
        Instruction::ORI(rd, rs1index, iimmediate) => (rd, reg.read(rs1index) | iimmediate as u32),
        Instruction::ANDI(rd, rs1index, iimmediate) => (rd, reg.read(rs1index) & iimmediate as u32),
        Instruction::SLLI(rd, rs1index, iimmediate) => {
            proof {
                lemma_shift_amounts(iimmediate, 0);
            }
            let shamt = (iimmediate & 0b1_1111) as u32;
            (rd, reg.read(rs1index) << shamt)
        },
        Instruction::SRLI(rd, rs1index, iimmediate) => {
            proof {
                lemma_shift_amounts(iimmediate, 0);
            }
            let shamt = (iimmediate & 0b1_1111) as u32;
            (rd, reg.read(rs1index) >> shamt)
        },
        Instruction::SRAI(rd, rs1index, iimmediate) => {
            proof {
                lemma_shift_amounts(iimmediate, 0);
            }
            let shamt = (iimmediate & 0b1_1111) as u32;
            let rs1: RS1value = reg.read(rs1index);
            (rd, sign_extend(rs1 >> shamt, 32 - shamt))
        },
        Instruction::ADD(rd, rs1index, rs2index) => (rd, reg.read(rs1index).wrapping_add(reg.read(rs2index))),
        Instruction::SUB(rd, rs1index, rs2index) => (rd, reg.read(rs1index).wrapping_sub(reg.read(rs2index))),
        Instruction::SLL(rd, rs1index, rs2index) => {
            let rs2: RS2value = reg.read(rs2index);
            proof {
                lemma_shift_amounts(0, rs2);
            }
            (rd, reg.read(rs1index) << (rs2 & 0b1_1111))
        },
        Instruction::SLT(rd, rs1index, rs2index) => {
            if (reg.read(rs1index) as i32) < (reg.read(rs2index) as i32) {
                (rd, 1)
            } else {
                (rd, 0)
            }
        },
        Instruction::SLTU(rd, rs1index, rs2index) => {
            if reg.read(rs1index) < reg.read(rs2index) {
                (rd, 1)
            } else {
                (rd, 0)
            }
        },
        Instruction::XOR(rd, rs1index, rs2index) => (rd, reg.read(rs1index) ^ reg.read(rs2index)),
        Instruction::SRL(rd, rs1index, rs2index) => {
            let rs2: RS2value = reg.read(rs2index);
            proof {
                lemma_shift_amounts(0, rs2);
            }
            (rd, reg.read(rs1index) >> (rs2 & 0b1_1111))
        },
        Instruction::SRA(rd, rs1index, rs2index) => {
            let rs1: RS1value = reg.read(rs1index);
            let rs2: RS2value = reg.read(rs2index);
            proof {
                lemma_shift_amounts(0, rs2);
            }
            let shamt = rs2 & 0b1_1111;
            (rd, sign_extend(rs1 >> shamt, 32 - shamt))
        },
        Instruction::OR(rd, rs1index, rs2index) => (rd, reg.read(rs1index) | reg.read(rs2index)),
        Instruction::AND(rd, rs1index, rs2index) => (rd, reg.read(rs1index) & reg.read(rs2index)),
        Instruction::MUL(rd, rs1index, rs2index) => {
            // The product is formed on 64 bits and its low 32 bits are kept.
            let rs1_64 = reg.read(rs1index) as u64;
            let rs2_64 = reg.read(rs2index) as u64;
            assert(rs1_64 * rs2_64 <= u64::MAX) by (nonlinear_arith)
                requires
                    rs1_64 <= u32::MAX,
                    rs2_64 <= u32::MAX,
            ;
            (rd, (rs1_64 * rs2_64) as u32)
        },
        Instruction::MULH(rd, rs1index, rs2index) => {
            let rs1 = (reg.read(rs1index) as i32) as i64;
            let rs2 = (reg.read(rs2index) as i32) as i64;
            assert(i64::MIN <= rs1 * rs2 <= i64::MAX) by (nonlinear_arith)
                requires
                    i32::MIN <= rs1 <= i32::MAX,
                    i32::MIN <= rs2 <= i32::MAX,
            ;
            let result: i64 = rs1 * rs2;
            let high_bytes: u32 = (result >> 32u32) as u32;
            (rd, high_bytes)
        },
        Instruction::MULHSU(rd, rs1index, rs2index) => {
            let rs1 = (reg.read(rs1index) as i32) as i64;
            let rs2 = reg.read(rs2index) as i64;
            assert(i64::MIN <= rs1 * rs2 <= i64::MAX) by (nonlinear_arith)
                requires
                    i32::MIN <= rs1 <= i32::MAX,
                    0 <= rs2 <= u32::MAX,
            ;
            let result: i64 = rs1 * rs2;
            let high_bytes: u32 = (result >> 32u32) as u32;
            (rd, high_bytes)
        },
        Instruction::MULHU(rd, rs1index, rs2index) => {
            let rs1 = reg.read(rs1index) as u64;
            let rs2 = reg.read(rs2index) as u64;
            assert(rs1 * rs2 <= u64::MAX) by (nonlinear_arith)
                requires
                    rs1 <= u32::MAX,
                    rs2 <= u32::MAX,
            ;
            let result: u64 = rs1 * rs2;
            let high_bytes: u32 = (result >> 32u32) as u32;
            (rd, high_bytes)
        },
        Instruction::DIV(rd, rs1index, rs2index) => {
            let rs1: RS1value = reg.read(rs1index);
            let rs2: RS2value = reg.read(rs2index);
            if rs2 == 0 {
                // Division by zero gives -1, all ones in 32-bit two's complement.
                (rd, u32::MAX)
            } else {
                proof {
                    lemma_shift_amounts(0, rs2);
                }
                (rd, overflowing_div(rs1 as i32, rs2 as i32) as u32)
            }
        },
        Instruction::DIVU(rd, rs1index, rs2index) => {
            let rs1: RS1value = reg.read(rs1index);
            let rs2: RS2value = reg.read(rs2index);
            if rs2 == 0 {
                (rd, u32::MAX)
            } else {
                (rd, rs1 / rs2)
            }
        },
        Instruction::REM(rd, rs1index, rs2index) => {
            let rs1: RS1value = reg.read(rs1index);
            let rs2: RS2value = reg.read(rs2index);
            if rs2 == 0 {
                (rd, rs1)
            } else {
                proof {
                    lemma_shift_amounts(0, rs2);
                }
                (rd, overflowing_rem(rs1 as i32, rs2 as i32) as u32)
            }
        },
        Instruction::REMU(rd, rs1index, rs2index) => {
            let rs1: RS1value = reg.read(rs1index);
            let rs2: RS2value = reg.read(rs2index);
            if rs2 == 0 {
                (rd, rs1)
            } else {
                (rd, rs1 % rs2)
            }
        },
        _ => (0, 0),
    }
}

impl<T: MmapPeripheral> CPU<T> {
    /// Executes a jump, branch or system instruction at `addr`; the program
    /// counter already points to its successor.
    fn exec_control(&mut self, a: Instruction, addr: u32)
        requires
            old(self).register.wf(),
            a.wf(),
            is_control(a),
        ensures
            final(self).register.wf(),
            (final(self).register.x(), final(self).register.pc, final(self).register.csr) == control_step(
                old(self).register.x(),
                old(self).register.csr,
                a,
                addr,
                old(self).register.pc,
            ),
            final(self).memory == old(self).memory,
            final(self).instruction_log == old(self).instruction_log,
            final(self).waits_for_interrupt == (old(self).waits_for_interrupt || a == Instruction::WFI()),
    {
        match a {
            Instruction::JAL(rdindex, jimmediate) => {
                let next = self.register.pc;
                self.register.write(rdindex, next);
                self.register.pc = add_signed(addr, jimmediate);
            },
            Instruction::JALR(rdindex, rs1index, iimmediate) => {
                let rs1: RS1value = self.register.read(rs1index);
                let target = add_signed(rs1, iimmediate) & !0b1u32;
                let next = self.register.pc;
                self.register.write(rdindex, next);
                self.register.pc = target;
            },
            Instruction::BEQ(rs1index, rs2index, bimmediate) => {
                if self.register.read(rs1index) == self.register.read(rs2index) {
                    self.register.pc = add_signed(addr, bimmediate);
                }
            },
            Instruction::BNE(rs1index, rs2index, bimmediate) => {
                if self.register.read(rs1index) != self.register.read(rs2index) {
                    self.register.pc = add_signed(addr, bimmediate);
                }
            },
            Instruction::BLT(rs1index, rs2index, bimmediate) => {
                if (self.register.read(rs1index) as i32) < (self.register.read(rs2index) as i32) {
                    self.register.pc = add_signed(addr, bimmediate);
                }
            },
            Instruction::BGE(rs1index, rs2index, bimmediate) => {
                if (self.register.read(rs1index) as i32) >= (self.register.read(rs2index) as i32) {
                    self.register.pc = add_signed(addr, bimmediate);
                }
            },
            Instruction::BLTU(rs1index, rs2index, bimmediate) => {
                if self.register.read(rs1index) < self.register.read(rs2index) {
                    self.register.pc = add_signed(addr, bimmediate);
                }
            },
            Instruction::BGEU(rs1index, rs2index, bimmediate) => {
                if self.register.read(rs1index) >= self.register.read(rs2index) {
                    self.register.pc = add_signed(addr, bimmediate);
                }
            },
            Instruction::ECALL() => {
                self.register.csr.mepc = addr;
                self.register.csr.mcause = 11;  // Environment call from M-Mode
                self.register.pc = self.register.csr.mtvec;
            },
            Instruction::MRET() => {
                self.register.pc = self.register.csr.mepc;
            },
            Instruction::WFI() => {
                self.waits_for_interrupt = true;
            },
            _ => {  /* FENCE and EBREAK: nop */
            },
        }
    }

    /// Executes a CSR instruction.
    fn exec_csr(&mut self, a: Instruction)
        requires
            old(self).register.wf(),
            a.wf(),
            a.spec_is_zicsr(),
            csr_step_defined(old(self).register.x(), old(self).register.csr, a),
        ensures
            final(self).register.wf(),
            (final(self).register.x(), final(self).register.csr) == csr_step(
                old(self).register.x(),
                old(self).register.csr,
                a,
            ),
            final(self).register.pc == old(self).register.pc,
            final(self).memory == old(self).memory,
            final(self).instruction_log == old(self).instruction_log,
            final(self).waits_for_interrupt == old(self).waits_for_interrupt,
    {
        match a {
            Instruction::CSRRW(rd_index, rs1, i_imm) => {
                let value = self.register.read(rs1);
                let csr_value = self.register.csr.read(i_imm);
                self.register.write(rd_index, csr_value);
                self.register.csr.write(i_imm, value);
            },
            Instruction::CSRRS(rd_index, rs1, i_imm) => {
                let source = self.register.read(rs1);
                let csr_value = self.register.csr.read(i_imm);
                self.register.write(rd_index, csr_value);
                if rs1 != 0 {
                    self.register.csr.write(i_imm, source | csr_value);
                }
            },
            Instruction::CSRRC(rd_index, rs1, i_imm) => {
                let source = self.register.read(rs1);
                let csr_value = self.register.csr.read(i_imm);
                self.register.write(rd_index, csr_value);
                if rs1 != 0 {
                    self.register.csr.write(i_imm, !source & csr_value);
                }
            },
            Instruction::CSRRWI(rd_index, rs1, i_imm) => {
                // rs1 is actual an immediate
                let uimm = rs1 as u32;
                if rd_index != 0 {
                    let csr_value = self.register.csr.read(i_imm);
                    self.register.write(rd_index, csr_value);
                }
                self.register.csr.write(i_imm, uimm);
            },
            Instruction::CSRRSI(rd_index, rs1, i_imm) => {
                // rs1 is actual an immediate
                let uimm = rs1 as u32;
                let csr_value = self.register.csr.read(i_imm);
                self.register.write(rd_index, csr_value);
                if uimm != 0 {
                    self.register.csr.write(i_imm, uimm | csr_value);
                }
            },
            Instruction::CSRRCI(rd_index, rs1, i_imm) => {
                // rs1 is actual an immediate
                let uimm = rs1 as u32;
                let csr_value = self.register.csr.read(i_imm);
                self.register.write(rd_index, csr_value);
                if uimm != 0 {
                    self.register.csr.write(i_imm, !uimm & csr_value);
                }
            },
            _ => {},
        }
    }
}

impl<T: MmapPeripheral> CPU<T> {
    /// Executes `sc.w`: stores when the reservation is for this address and
    /// the word there, writes 0 to `rd` on success and 1 otherwise, and drops
    /// the reservation.
    fn exec_store_conditional(&mut self, rdindex: usize, rs1index: usize, rs2index: usize) -> (res: Result<(), MemoryError>)
        requires
            old(self).register.wf(),
            old(self).memory.wf(),
            rdindex < 32,
            rs1index < 32,
            rs2index < 32,
            addresses_fit(),
        ensures
            final(self).register.wf(),
            final(self).memory.wf(),
            memory_step(
                old(self).memory,
                final(self).memory,
                old(self).register.x(),
                final(self).register.x(),
                Instruction::SCW(rdindex, rs1index, rs2index),
                res,
            ),
            final(self).register.pc == old(self).register.pc,
            final(self).register.csr == old(self).register.csr,
            final(self).instruction_log == old(self).instruction_log,
            final(self).waits_for_interrupt == old(self).waits_for_interrupt,
    {
        let ghost m0 = self.memory;
        let ghost x = self.register.x();
        let rs1: RS1value = self.register.read(rs1index);
        let rs2: RS1value = self.register.read(rs2index);
        let addr = rs1 as usize;
        let r = self.memory.read_word(addr);
        assert(m0.reads_word(addr, r));
        let value = match r {
            Ok(value) => value,
            Err(e) => {
                return Err(e);
            },
        };
        self.register.write(rdindex, 1);
        if let Some(reservation) = self.memory.get_reservation() {
            if reservation.0 == addr && reservation.1 == value {
                let w = self.memory.write_word(addr, rs2);
                let ghost mid = self.memory;
                assert(m0.writes_word(mid, addr, rs2, w));
                if let Err(e) = w {
                    return Err(e);
                }
                self.register.write(rdindex, 0);
                assert(self.register.x() =~= wr(x, rdindex, 0));
                self.memory.del_reservation();
                assert(same_but_reservation(self.memory, mid));
                return Ok(());
            }
        }
        self.memory.del_reservation();
        assert(m0.reservation != Some((addr, value)));
        Ok(())
    }

    /// Executes a load, store or atomic memory operation.
    fn exec_memory(&mut self, a: Instruction) -> (res: Result<(), MemoryError>)
        requires
            old(self).register.wf(),
            old(self).memory.wf(),
            a.wf(),
            is_memory_access(a),
            addresses_fit(),
        ensures
            final(self).register.wf(),
            final(self).memory.wf(),
            memory_step(old(self).memory, final(self).memory, old(self).register.x(), final(self).register.x(), a, res),
            final(self).register.pc == old(self).register.pc,
            final(self).register.csr == old(self).register.csr,
            final(self).instruction_log == old(self).instruction_log,
            final(self).waits_for_interrupt == old(self).waits_for_interrupt,
    {
        let ghost m0 = self.memory;
        let ghost x = self.register.x();
        match a {
            Instruction::LB(rdindex, rs1index, iimmediate) | Instruction::LBU(rdindex, rs1index, iimmediate) => {
                let rs1: RS1value = self.register.read(rs1index);
                let target = add_signed(rs1, iimmediate) as usize;
                let r = self.memory.read_byte(target);
                assert(reads_width(m0, target, 1, r));
                match r {
                    Ok(byte) => {
                        assert(target == spec_add_signed(x[rs1index as int], iimmediate) as usize);
                        let value = if matches!(a, Instruction::LB(..)) {
                            sign_extend(byte, 8)
                        } else {
                            byte
                        };
                        self.register.write(rdindex, value);
                        Ok(())
                    },
                    Err(e) => Err(e),
                }
            },
            Instruction::LH(rdindex, rs1index, iimmediate) | Instruction::LHU(rdindex, rs1index, iimmediate) => {
                let rs1: RS1value = self.register.read(rs1index);
                let target = add_signed(rs1, iimmediate) as usize;
                let r = self.memory.read_halfword(target);
                assert(reads_width(m0, target, 2, r));
                match r {
                    Ok(half) => {
                        let value = if matches!(a, Instruction::LH(..)) {
                            sign_extend(half, 16)
                        } else {
                            half
                        };
                        self.register.write(rdindex, value);
                        Ok(())
                    },
                    Err(e) => Err(e),
                }
            },
            Instruction::LW(rdindex, rs1index, iimmediate) => {
                let rs1: RS1value = self.register.read(rs1index);
                let target = add_signed(rs1, iimmediate) as usize;
                let r = self.memory.read_word(target);
                assert(reads_width(m0, target, 4, r));
                match r {
                    Ok(value) => {
                        self.register.write(rdindex, value);
                        Ok(())
                    },
                    Err(e) => Err(e),
                }
            },
            Instruction::SB(rs1index, rs2index, simmediate) => {
                let rs1: RS1value = self.register.read(rs1index);
                let rs2: RS2value = self.register.read(rs2index);
                let target = add_signed(rs1, simmediate) as usize;
                self.memory.write_byte(target, rs2)
            },
            Instruction::SH(rs1index, rs2index, simmediate) => {
                let rs1: RS1value = self.register.read(rs1index);
                let rs2: RS2value = self.register.read(rs2index);
                let target = add_signed(rs1, simmediate) as usize;
                self.memory.write_halfword(target, rs2)
            },
            Instruction::SW(rs1index, rs2index, simmediate) => {
                let rs1: RS1value = self.register.read(rs1index);
                let rs2: RS2value = self.register.read(rs2index);
                let target = add_signed(rs1, simmediate) as usize;
                self.memory.write_word(target, rs2)
            },
            Instruction::LRW(rdindex, rs1index) => {
                let rs1: RS1value = self.register.read(rs1index);
                let addr = rs1 as usize;
                let r = self.memory.read_word(addr);
                assert(m0.reads_word(addr, r));
                match r {
                    Ok(value) => {
                        self.register.write(rdindex, value);
                        self.memory.set_reservation(addr, value);
                        Ok(())
                    },
                    Err(e) => Err(e),
                }
            },
            Instruction::SCW(rdindex, rs1index, rs2index) => self.exec_store_conditional(rdindex, rs1index, rs2index),
            _ => {
                let rs1index = amo_register_address(&a);
                let rs2index = amo_register_source(&a);
                let rdindex = amo_register_dest(&a);
                let addr_rs1: RS1value = self.register.read(rs1index);
                let org: RS2value = self.register.read(rs2index);
                let r = self.memory.read_word(addr_rs1 as usize);
                assert(m0.reads_word(addr_rs1 as usize, r));
                let data = match r {
                    Ok(data) => data,
                    Err(e) => {
                        return Err(e);
                    },
                };
                self.register.write(rdindex, data);
                let result = amo_compute(&a, data, org);
                self.memory.write_word(addr_rs1 as usize, result)
            },
        }
    }
}

fn amo_register_dest(a: &Instruction) -> (r: usize)
    requires
        a.wf(),
    ensures
        r == alu_dest_amo(*a),
        r < 32,
{
    match *a {
        Instruction::AMOSWAPW(rd, _, _) | Instruction::AMOADDW(rd, _, _) | Instruction::AMOXORW(rd, _, _)
        | Instruction::AMOANDW(rd, _, _) | Instruction::AMOORW(rd, _, _) | Instruction::AMOMINW(rd, _, _)
        | Instruction::AMOMAXW(rd, _, _) | Instruction::AMOMINUW(rd, _, _) | Instruction::AMOMAXUW(rd, _, _) => rd,
        _ => 0,
    }
}

fn amo_register_address(a: &Instruction) -> (r: usize)
    requires
        a.wf(),
    ensures
        r == amo_address(*a),
        r < 32,
{
    match *a {
        Instruction::AMOSWAPW(_, rs1, _) | Instruction::AMOADDW(_, rs1, _) | Instruction::AMOXORW(_, rs1, _)
        | Instruction::AMOANDW(_, rs1, _) | Instruction::AMOORW(_, rs1, _) | Instruction::AMOMINW(_, rs1, _)
        | Instruction::AMOMAXW(_, rs1, _) | Instruction::AMOMINUW(_, rs1, _) | Instruction::AMOMAXUW(_, rs1, _) => rs1,
        _ => 0,
    }
}

fn amo_register_source(a: &Instruction) -> (r: usize)
    requires
        a.wf(),
    ensures
        r == amo_source(*a),
        r < 32,
{
    match *a {
        Instruction::AMOSWAPW(_, _, rs2) | Instruction::AMOADDW(_, _, rs2) | Instruction::AMOXORW(_, _, rs2)
        | Instruction::AMOANDW(_, _, rs2) | Instruction::AMOORW(_, _, rs2) | Instruction::AMOMINW(_, _, rs2)
        | Instruction::AMOMAXW(_, _, rs2) | Instruction::AMOMINUW(_, _, rs2) | Instruction::AMOMAXUW(_, _, rs2) => rs2,
        _ => 0,
    }
}

/// The word an atomic memory operation stores; see `amo_result`.
fn amo_compute(a: &Instruction, data: u32, org: u32) -> (r: u32)
    ensures
        r == amo_result(*a, data, org),
{
    match *a {
        Instruction::AMOSWAPW(..) => org,
        // two's complement addition of the signed words
        Instruction::AMOADDW(..) => data.wrapping_add(org),
        Instruction::AMOXORW(..) => data ^ org,
        Instruction::AMOANDW(..) => data & org,
        Instruction::AMOORW(..) => data | org,
        // min and max of the signed words; on a tie either word is the same value
        Instruction::AMOMINW(..) => (if (org as i32) < (data as i32) {
            org as i32
        } else {
            data as i32
        }) as u32,
        Instruction::AMOMAXW(..) => (if (org as i32) >= (data as i32) {
            org as i32
        } else {
            data as i32
        }) as u32,
        Instruction::AMOMINUW(..) => if org < data {
            org
        } else {
            data
        },
        Instruction::AMOMAXUW(..) => if org >= data {
            org
        } else {
            data
        },
        _ => 0,
    }
}


impl<T: MmapPeripheral> CPU<T> {
    /// Executes one instruction: advances the program counter past it (by
    /// two for a compressed instruction, else four) and carries out its
    /// 32-bit form. A failed memory access returns the memory's error.
    pub fn exec(&mut self, instruction: &Instruction, zicsr_enabled: bool, m_enabled: bool) -> (res: Result<(), MemoryError>)
        requires
            old(self).register.wf(),
            old(self).memory.wf(),
            old(self).can_exec(*instruction),
            instruction.spec_is_zicsr() ==> zicsr_enabled,
            instruction.spec_is_m() ==> m_enabled,
        ensures
            final(self).register.wf(),
            final(self).memory.wf(),
            executed(*old(self), *final(self), *instruction, res),
    {
        proof {
            lemma_decompress(*instruction);
        }
        let instruction_address = self.register.pc;
        let actual = if instruction.is_compressed() {
            self.register.pc = self.register.pc + 2;
            instruction.decompress().unwrap()
        } else {
            self.register.pc = self.register.pc + 4;
            *instruction
        };
        if is_memory_op(&actual) {
            self.exec_memory(actual)
        } else if is_control_op(&actual) {
            self.exec_control(actual, instruction_address);
            Ok(())
        } else if actual.is_zicsr() {
            self.exec_csr(actual);
            Ok(())
        } else {
            let (rd, value) = alu(&self.register, actual, instruction_address);
            self.register.write(rd, value);
            Ok(())
        }
    }
}

} // verus!
