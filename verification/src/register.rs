//! Everything related to registers: naming, the general purpose register
//! file and the machine-mode control and status registers.
use vstd::prelude::*;

use crate::instructions::{same_text, Rindex};
use crate::text::{decimal, hex_digits, pad_left, push_hex, push_padded, push_signed};

verus! {

/// The ABI name of general purpose register `x{register}`.
pub open spec fn register_abi_name(register: Rindex) -> &'static str
    recommends
        register < 32,
{
    match register {
        0 => "zero",
        1 => "ra",
        2 => "sp",
        3 => "gp",
        4 => "tp",
        5 => "t0",
        6 => "t1",
        7 => "t2",
        8 => "s0",
        9 => "s1",
        10 => "a0",
        11 => "a1",
        12 => "a2",
        13 => "a3",
        14 => "a4",
        15 => "a5",
        16 => "a6",
        17 => "a7",
        18 => "s2",
        19 => "s3",
        20 => "s4",
        21 => "s5",
        22 => "s6",
        23 => "s7",
        24 => "s8",
        25 => "s9",
        26 => "s10",
        27 => "s11",
        28 => "t3",
        29 => "t4",
        30 => "t5",
        31 => "t6",
        _ => "",
    }
}

/// Returns the ABI name of general purpose register `register` (`zero`, `ra`, `sp`, ...).
pub fn index_to_name(register: Rindex) -> (name: &'static str)
    requires
        register < 32,
    ensures
        name == register_abi_name(register),
{
    match register {
        0 => "zero",
        1 => "ra",
        2 => "sp",
        3 => "gp",
        4 => "tp",
        5 => "t0",
        6 => "t1",
        7 => "t2",
        8 => "s0",
        9 => "s1",
        10 => "a0",
        11 => "a1",
        12 => "a2",
        13 => "a3",
        14 => "a4",
        15 => "a5",
        16 => "a6",
        17 => "a7",
        18 => "s2",
        19 => "s3",
        20 => "s4",
        21 => "s5",
        22 => "s6",
        23 => "s7",
        24 => "s8",
        25 => "s9",
        26 => "s10",
        27 => "s11",
        28 => "t3",
        29 => "t4",
        30 => "t5",
        31 => "t6",
        _ => "t6",
    }
}


/// The machine-mode control and status registers.
pub struct CSR {
    /* Machine Information Registers */
    pub mvendorid: u32,
    pub marchid: u32,
    pub mimpid: u32,
    pub mhartid: u32,
    pub mconfigptr: u32,
    pub mstatus: u32,
    pub misa: u32,
    pub medeleg: u32,
    pub mideleg: u32,
    pub mie: u32,
    pub mtvec: u32,
    pub mcounteren: u32,
    pub mstatush: u32,
    pub mscratch: u32,
    pub mepc: u32,
    pub mcause: u32,
    pub mtval: u32,
    pub mip: u32,
    pub mtinst: u32,
    pub mtval2: u32,
}

/// The control and status registers that exist here.
pub open spec fn is_known_csr(index: u32) -> bool {
    index == 0xF11 || index == 0xF12 || index == 0xF13 || index == 0xF14 || index == 0xF15 || index == 0x300 || index == 0x301 || index == 0x302 || index == 0x303 || index == 0x304 || index == 0x305 || index == 0x306 || index == 0x310 || index == 0x340 || index == 0x341 || index == 0x342 || index == 0x343 || index == 0x344 || index == 0x34A || index == 0x34B
}

/// The read-only machine information registers.
pub open spec fn is_read_only_csr(index: u32) -> bool {
    0xF11 <= index <= 0xF15
}

/// A write that is carried out: to a register that exists and is writable,
/// and to `mtvec` only a 4-byte aligned address (direct mode).
pub open spec fn csr_write_allowed(index: u32, value: u32) -> bool {
    &&& is_known_csr(index)
    &&& !is_read_only_csr(index)
    &&& index == 0x305 ==> value % 4 == 0
}

/// Bit 3 of `mstatus`: machine interrupts enabled.
pub open spec fn mie_bit(mstatus: u32) -> bool {
    mstatus & 0x8 != 0
}

/// Bit 7 of `mstatus`: machine interrupts enabled before the last trap.
pub open spec fn mpie_bit(mstatus: u32) -> bool {
    mstatus & 0x80 != 0
}

impl CSR {
    /// The value of control and status register `index`.
    pub open spec fn value(self, index: u32) -> u32 {
        if index == 0xF11 {
            self.mvendorid
        } else if index == 0xF12 {
            self.marchid
        } else if index == 0xF13 {
            self.mimpid
        } else if index == 0xF14 {
            self.mhartid
        } else if index == 0xF15 {
            self.mconfigptr
        } else if index == 0x300 {
            self.mstatus
        } else if index == 0x301 {
            self.misa
        } else if index == 0x302 {
            self.medeleg
        } else if index == 0x303 {
            self.mideleg
        } else if index == 0x304 {
            self.mie
        } else if index == 0x305 {
            self.mtvec
        } else if index == 0x306 {
            self.mcounteren
        } else if index == 0x310 {
            self.mstatush
        } else if index == 0x340 {
            self.mscratch
        } else if index == 0x341 {
            self.mepc
        } else if index == 0x342 {
            self.mcause
        } else if index == 0x343 {
            self.mtval
        } else if index == 0x344 {
            self.mip
        } else if index == 0x34A {
            self.mtinst
        } else if index == 0x34B {
            self.mtval2
        } else {
            0
        }
    }

    /// The registers after writing `value` to register `index`. Of the
    /// writable registers, `misa`, `medeleg`, `mideleg`, `mcounteren`,
    /// `mstatush`, `mtval`, `mip`, `mtinst` and `mtval2` are not implemented:
    /// a write to one of them sets it to zero.
    pub open spec fn written(self, index: u32, value: u32) -> CSR {
        if index == 0x300 {
            CSR { mstatus: value, ..self }
        } else if index == 0x301 {
            CSR { misa: 0, ..self }
        } else if index == 0x302 {
            CSR { medeleg: 0, ..self }
        } else if index == 0x303 {
            CSR { mideleg: 0, ..self }
        } else if index == 0x304 {
            CSR { mie: value, ..self }
        } else if index == 0x305 {
            CSR { mtvec: value, ..self }
        } else if index == 0x306 {
            CSR { mcounteren: 0, ..self }
        } else if index == 0x310 {
            CSR { mstatush: 0, ..self }
        } else if index == 0x340 {
            CSR { mscratch: value, ..self }
        } else if index == 0x341 {
            CSR { mepc: value, ..self }
        } else if index == 0x342 {
            CSR { mcause: value, ..self }
        } else if index == 0x343 {
            CSR { mtval: 0, ..self }
        } else if index == 0x344 {
            CSR { mip: 0, ..self }
        } else if index == 0x34A {
            CSR { mtinst: 0, ..self }
        } else if index == 0x34B {
            CSR { mtval2: 0, ..self }
        } else {
            self
        }
    }

    /// Reads control and status register `index`.
    pub fn read(&self, index: u32) -> (r: u32)
        requires
            is_known_csr(index),
        ensures
            r == self.value(index),
    {
        match index {
            0xF11 => self.mvendorid,
            0xF12 => self.marchid,
            0xF13 => self.mimpid,
            0xF14 => self.mhartid,
            0xF15 => self.mconfigptr,
            0x300 => self.mstatus,
            0x301 => self.misa,
            0x302 => self.medeleg,
            0x303 => self.mideleg,
            0x304 => self.mie,
            0x305 => self.mtvec,
            0x306 => self.mcounteren,
            0x310 => self.mstatush,
            0x340 => self.mscratch,
            0x341 => self.mepc,
            0x342 => self.mcause,
            0x343 => self.mtval,
            0x344 => self.mip,
            0x34A => self.mtinst,
            _ => self.mtval2,
        }
    }

    /// Writes `value` to control and status register `index`; see `written`.
    pub fn write(&mut self, index: u32, value: u32)
        requires
            csr_write_allowed(index, value),
        ensures
            *final(self) == old(self).written(index, value),
    {
        match index {
            0x300 => {
                self.mstatus = value;
            },
            0x301 => {
                /* WARL / zero indicates misa is not implemented */
                self.misa = 0;
            },
            0x302 => {
                self.medeleg = 0;
            },
            0x303 => {
                self.mideleg = 0;
            },
            0x304 => {
                // bit  3 Machine Software Interrupt Enable
                // bit  7 Machine Timer Interrupt Enable
                // bit 11 Machine External Interrupt Enable
                self.mie = value;
            },
            0x305 => {
                self.mtvec = value;
            },
            0x306 => {
                self.mcounteren = 0;
            },
            0x310 => {
                self.mstatush = 0;
            },
            0x340 => {
                self.mscratch = value;
            },
            0x341 => {
                self.mepc = value;
            },
            0x342 => {
                self.mcause = value;
            },
            0x343 => {
                self.mtval = 0;
            },
            0x344 => {
                // bit  3 Machine Software Interrupt Pending
                // bit  7 Machine Timer Interrupt Pending
                // bit 11 Machine External Interrupt Pending
                self.mip = 0;
            },
            0x34A => {
                self.mtinst = 0;
            },
            _ => {
                self.mtval2 = 0;
            },
        }
    }

    /// Sets or clears the MIE bit (bit 3) of `mstatus`; no other bit changes.
    pub fn mstatus_set_mie(&mut self, value: bool)
        ensures
            *final(self) == (CSR { mstatus: final(self).mstatus, ..*old(self) }),
            final(self).mstatus == (if value { old(self).mstatus | 0x8 } else { old(self).mstatus & !0x8u32 }),
            mie_bit(final(self).mstatus) == value,
            mpie_bit(final(self).mstatus) == mpie_bit(old(self).mstatus),
    {
        let old_status = self.mstatus;
        if value {
            self.mstatus |= 0x8;
        } else {
            self.mstatus &= !0x8u32;
        }
        assert((old_status | 0x8) & 0x8 != 0 && (old_status & !0x8u32) & 0x8 == 0
            && ((old_status | 0x8) & 0x80 != 0) == (old_status & 0x80 != 0)
            && ((old_status & !0x8u32) & 0x80 != 0) == (old_status & 0x80 != 0)) by (bit_vector);
    }

    /// Sets or clears the MPIE bit (bit 7) of `mstatus`; no other bit changes.
    pub fn mstatus_set_mpie(&mut self, value: bool)
        ensures
            *final(self) == (CSR { mstatus: final(self).mstatus, ..*old(self) }),
            final(self).mstatus == (if value { old(self).mstatus | 0x80 } else { old(self).mstatus & !0x80u32 }),
            mpie_bit(final(self).mstatus) == value,
            mie_bit(final(self).mstatus) == mie_bit(old(self).mstatus),
    {
        let old_status = self.mstatus;
        if value {
            self.mstatus |= 0x80;
        } else {
            self.mstatus &= !0x80u32;
        }
        assert((old_status | 0x80) & 0x80 != 0 && (old_status & !0x80u32) & 0x80 == 0
            && ((old_status | 0x80) & 0x8 != 0) == (old_status & 0x8 != 0)
            && ((old_status & !0x80u32) & 0x8 != 0) == (old_status & 0x8 != 0)) by (bit_vector);
    }

    /// Whether the MIE bit (bit 3) of `mstatus` is set.
    pub fn mstatus_get_mie(&self) -> (r: bool)
        ensures
            r == mie_bit(self.mstatus),
    {
        self.mstatus & 0x8 > 0
    }

    /// Whether the MPIE bit (bit 7) of `mstatus` is set.
    pub fn _mstatus_get_mpie(&self) -> (r: bool)
        ensures
            r == mpie_bit(self.mstatus),
    {
        self.mstatus & 0x80 > 0
    }
}

impl Default for CSR {
    /// All registers zero.
    fn default() -> (r: Self)
        ensures
            r == CSR::zeroed(),
    {
        CSR {
            mvendorid: 0,
            marchid: 0,
            mimpid: 0,
            mhartid: 0,
            mconfigptr: 0,
            mstatus: 0,
            misa: 0,
            medeleg: 0,
            mideleg: 0,
            mie: 0,
            mtvec: 0,
            mcounteren: 0,
            mstatush: 0,
            mscratch: 0,
            mepc: 0,
            mcause: 0,
            mtval: 0,
            mip: 0,
            mtinst: 0,
            mtval2: 0,
        }
    }
}

impl CSR {
    /// All registers zero.
    pub open spec fn zeroed() -> CSR {
        CSR {
            mvendorid: 0,
            marchid: 0,
            mimpid: 0,
            mhartid: 0,
            mconfigptr: 0,
            mstatus: 0,
            misa: 0,
            medeleg: 0,
            mideleg: 0,
            mie: 0,
            mtvec: 0,
            mcounteren: 0,
            mstatush: 0,
            mscratch: 0,
            mepc: 0,
            mcause: 0,
            mtval: 0,
            mip: 0,
            mtinst: 0,
            mtval2: 0,
        }
    }
}

/// Machine Cause Register values. The Interrupt bit (the most significant,
/// bit 31) is set if the trap was caused by an interrupt.
#[derive(Clone, Copy, Debug, PartialEq, Eq, Structural)]
pub enum MCAUSE {
    _MachineSoftwareInterrupt,
    MachineTimerInterrupt,
    MachineExternalInterrupt,
    _CounterOverflowInterrupt,
    _InstructionAddressMisaligned,
    _InstructionAccessFault,
    _IllegalInstruction,
    _Breakpoint,
    _LoadAddressMisaligned,
    _LoadAccessFault,
    _StoreAddressMisaligned,
    _StoreAccessFault,
    _EcallFromUser,
    _EcallFromMachine,
    _InstructionPageFault,
    _LoadPageFault,
    _StorePageFault,
    _SoftwareCheck,
    _HardwareError,
}

impl MCAUSE {
    pub open spec fn spec_code(self) -> u32 {
        match self {
            MCAUSE::_MachineSoftwareInterrupt => 0x8000_0003,
            MCAUSE::MachineTimerInterrupt => 0x8000_0007,
            MCAUSE::MachineExternalInterrupt => 0x8000_000B,
            MCAUSE::_CounterOverflowInterrupt => 0x8000_000D,
            MCAUSE::_InstructionAddressMisaligned => 0,
            MCAUSE::_InstructionAccessFault => 1,
            MCAUSE::_IllegalInstruction => 2,
            MCAUSE::_Breakpoint => 3,
            MCAUSE::_LoadAddressMisaligned => 4,
            MCAUSE::_LoadAccessFault => 5,
            MCAUSE::_StoreAddressMisaligned => 6,
            MCAUSE::_StoreAccessFault => 7,
            MCAUSE::_EcallFromUser => 8,
            MCAUSE::_EcallFromMachine => 11,
            MCAUSE::_InstructionPageFault => 12,
            MCAUSE::_LoadPageFault => 13,
            MCAUSE::_StorePageFault => 15,
            MCAUSE::_SoftwareCheck => 18,
            MCAUSE::_HardwareError => 19,
        }
    }

    /// The value stored in `mcause` for this cause.
    pub fn code(self) -> (r: u32)
        ensures
            r == self.spec_code(),
    {
        match self {
            MCAUSE::_MachineSoftwareInterrupt => 0x8000_0000 + 3,
            MCAUSE::MachineTimerInterrupt => 0x8000_0000 + 7,
            MCAUSE::MachineExternalInterrupt => 0x8000_0000 + 11,
            MCAUSE::_CounterOverflowInterrupt => 0x8000_0000 + 13,
            MCAUSE::_InstructionAddressMisaligned => 0,
            MCAUSE::_InstructionAccessFault => 1,
            MCAUSE::_IllegalInstruction => 2,
            MCAUSE::_Breakpoint => 3,
            MCAUSE::_LoadAddressMisaligned => 4,
            MCAUSE::_LoadAccessFault => 5,
            MCAUSE::_StoreAddressMisaligned => 6,
            MCAUSE::_StoreAccessFault => 7,
            MCAUSE::_EcallFromUser => 8,
            MCAUSE::_EcallFromMachine => 11,
            MCAUSE::_InstructionPageFault => 12,
            MCAUSE::_LoadPageFault => 13,
            MCAUSE::_StorePageFault => 15,
            MCAUSE::_SoftwareCheck => 18,
            MCAUSE::_HardwareError => 19,
        }
    }
}

/// The register file: the 32 general purpose registers, the control and
/// status registers and the program counter.
pub struct Register {
    pub regs: Vec<u32>,
    pub csr: CSR,
    pub pc: u32,
}

impl Register {
    /// 32 registers, of which `x0` holds zero.
    pub open spec fn wf(self) -> bool {
        self.x().len() == 32 && self.x()[0] == 0
    }

    /// The general purpose registers.
    pub open spec fn x(self) -> Seq<u32> {
        self.regs@
    }

    /// The general purpose registers after writing `value` to `x[index]`;
    /// a write to `x0` is dropped.
    pub open spec fn x_written(self, index: Rindex, value: u32) -> Seq<u32> {
        if index > 0 {
            self.x().update(index as int, value)
        } else {
            self.x()
        }
    }

    /// Reads `x[index]`.
    pub fn read(&self, index: Rindex) -> (r: u32)
        requires
            self.wf(),
            index < 32,
        ensures
            r == self.x()[index as int],
    {
        self.regs[index]
    }

    /// Writes `value` to `x[index]`; a write to `x0` has no effect, so `x0` stays zero.
    pub fn write(&mut self, index: Rindex, value: u32)
        requires
            old(self).wf(),
            index < 32,
        ensures
            final(self).wf(),
            final(self).x() == old(self).x_written(index, value),
            final(self).csr == old(self).csr,
            final(self).pc == old(self).pc,
    {
        if index > 0 {
            self.regs.set(index, value);
        }
    }

    /// The line shown for `x[index]`: its ABI name right-aligned in four
    /// columns, its value as eight upper case hex digits and as a signed
    /// decimal right-aligned in eleven columns, e.g. `  sp: 0x00000010 /          16`.
    pub open spec fn line(self, index: Rindex) -> Seq<char> {
        pad_left(register_abi_name(index)@, 4) + seq![':', ' ', '0', 'x']
            + hex_digits(self.x()[index as int] as nat, 8) + seq![' ', '/', ' ']
            + pad_left(decimal((self.x()[index as int] as i32) as int), 11)
    }

    /// Returns the line shown for `x[index]`; see `line`.
    pub fn to_string(&self, index: Rindex) -> (s: String)
        requires
            self.wf(),
            index < 32,
        ensures
            s@ == self.line(index),
    {
        let value = self.regs[index];
        let mut s = String::new();
        push_padded(&mut s, index_to_name(index), 4);
        s.append(": 0x");
        push_hex(&mut s, value as u64, 8);
        s.append(" / ");
        let mut number = String::new();
        push_signed(&mut number, (value as i32) as i64);
        push_padded(&mut s, number.as_str(), 11);
        proof {
            reveal_strlit(": 0x");
            reveal_strlit(" / ");
        }
        assert(s@ =~= self.line(index));
        s
    }
}

impl Default for Register {
    /// All registers and the program counter zero.
    fn default() -> (r: Self)
        ensures
            r.wf(),
            r.x() == Seq::new(32, |i: int| 0u32),
            r.csr == CSR::zeroed(),
            r.pc == 0,
    {
        let r = Register { regs: vec![0u32; 32], csr: CSR::default(), pc: 0 };
        assert(r.regs@ =~= Seq::new(32, |i: int| 0u32));
        r
    }
}

/// Writing a control and status register that holds what it is given
/// (`mstatus`, `mie`, `mtvec`, `mscratch`, `mepc`, `mcause`) and reading it
/// back gives the value written; a write to one of the registers that are
/// not implemented (`misa`, `medeleg`, `mideleg`, `mcounteren`, `mstatush`,
/// `mtval`, `mip`, `mtinst`, `mtval2`) leaves it reading zero. Every other
/// register reads as before.
pub proof fn lemma_csr_read_after_write(c: CSR, index: u32, value: u32, other: u32)
    requires
        csr_write_allowed(index, value),
        is_known_csr(other),
        other != index,
    ensures
        (index == 0x300 || index == 0x304 || index == 0x305 || index == 0x340 || index == 0x341 || index == 0x342)
            ==> c.written(index, value).value(index) == value,
        (index == 0x301 || index == 0x302 || index == 0x303 || index == 0x306 || index == 0x310 || index == 0x343
            || index == 0x344 || index == 0x34A || index == 0x34B) ==> c.written(index, value).value(index) == 0,
        c.written(index, value).value(other) == c.value(other),
{
}

/// A write is the last word: writing twice to a register leaves what one
/// write of the second value leaves.
pub proof fn lemma_csr_write_twice(c: CSR, index: u32, v1: u32, v2: u32)
    requires
        csr_write_allowed(index, v1),
        csr_write_allowed(index, v2),
    ensures
        c.written(index, v1).written(index, v2) == c.written(index, v2),
{
}

/// Register `x0` always reads zero: a write to it is dropped; a write to
/// any other register is read back, and leaves the others as they were.
pub proof fn lemma_register_read_after_write(r: Register, index: Rindex, value: u32, other: int)
    requires
        r.wf(),
        index < 32,
        0 <= other < 32,
        other != index,
    ensures
        r.x_written(index, value)[index as int] == if index == 0 { 0 } else { value },
        r.x_written(index, value)[other] == r.x()[other],
        r.x_written(index, value).len() == 32,
{
}

/// The register whose ABI name is `n`, or 32 where none has it.
pub open spec fn abi_register(n: Seq<char>) -> nat {
    if same_text(n, "zero"@) {
        0
    } else if same_text(n, "ra"@) {
        1
    } else if same_text(n, "sp"@) {
        2
    } else if same_text(n, "gp"@) {
        3
    } else if same_text(n, "tp"@) {
        4
    } else if same_text(n, "t0"@) {
        5
    } else if same_text(n, "t1"@) {
        6
    } else if same_text(n, "t2"@) {
        7
    } else if same_text(n, "s0"@) {
        8
    } else if same_text(n, "s1"@) {
        9
    } else if same_text(n, "a0"@) {
        10
    } else if same_text(n, "a1"@) {
        11
    } else if same_text(n, "a2"@) {
        12
    } else if same_text(n, "a3"@) {
        13
    } else if same_text(n, "a4"@) {
        14
    } else if same_text(n, "a5"@) {
        15
    } else if same_text(n, "a6"@) {
        16
    } else if same_text(n, "a7"@) {
        17
    } else if same_text(n, "s2"@) {
        18
    } else if same_text(n, "s3"@) {
        19
    } else if same_text(n, "s4"@) {
        20
    } else if same_text(n, "s5"@) {
        21
    } else if same_text(n, "s6"@) {
        22
    } else if same_text(n, "s7"@) {
        23
    } else if same_text(n, "s8"@) {
        24
    } else if same_text(n, "s9"@) {
        25
    } else if same_text(n, "s10"@) {
        26
    } else if same_text(n, "s11"@) {
        27
    } else if same_text(n, "t3"@) {
        28
    } else if same_text(n, "t4"@) {
        29
    } else if same_text(n, "t5"@) {
        30
    } else if same_text(n, "t6"@) {
        31
    } else {
        32
    }
}

/// Each of the 32 registers has an ABI name of its own: the name gives
/// back the register, so no two registers print alike.
pub proof fn lemma_abi_names_distinct(index: Rindex)
    requires
        index < 32,
    ensures
        abi_register(register_abi_name(index)@) == index,
{
    reveal_strlit("zero");
    assert("zero"@[0] == 'z' && "zero"@[1] == 'e' && "zero"@[2] == 'r' && "zero"@[3] == 'o');
    reveal_strlit("ra");
    assert("ra"@[0] == 'r' && "ra"@[1] == 'a');
    reveal_strlit("sp");
    assert("sp"@[0] == 's' && "sp"@[1] == 'p');
    reveal_strlit("gp");
    assert("gp"@[0] == 'g' && "gp"@[1] == 'p');
    reveal_strlit("tp");
    assert("tp"@[0] == 't' && "tp"@[1] == 'p');
    reveal_strlit("t0");
    assert("t0"@[0] == 't' && "t0"@[1] == '0');
    reveal_strlit("t1");
    assert("t1"@[0] == 't' && "t1"@[1] == '1');
    reveal_strlit("t2");
    assert("t2"@[0] == 't' && "t2"@[1] == '2');
    reveal_strlit("s0");
    assert("s0"@[0] == 's' && "s0"@[1] == '0');
    reveal_strlit("s1");
    assert("s1"@[0] == 's' && "s1"@[1] == '1');
    reveal_strlit("a0");
    assert("a0"@[0] == 'a' && "a0"@[1] == '0');
    reveal_strlit("a1");
    assert("a1"@[0] == 'a' && "a1"@[1] == '1');
    reveal_strlit("a2");
    assert("a2"@[0] == 'a' && "a2"@[1] == '2');
    reveal_strlit("a3");
    assert("a3"@[0] == 'a' && "a3"@[1] == '3');
    reveal_strlit("a4");
    assert("a4"@[0] == 'a' && "a4"@[1] == '4');
    reveal_strlit("a5");
    assert("a5"@[0] == 'a' && "a5"@[1] == '5');
    reveal_strlit("a6");
    assert("a6"@[0] == 'a' && "a6"@[1] == '6');
    reveal_strlit("a7");
    assert("a7"@[0] == 'a' && "a7"@[1] == '7');
    reveal_strlit("s2");
    assert("s2"@[0] == 's' && "s2"@[1] == '2');
    reveal_strlit("s3");
    assert("s3"@[0] == 's' && "s3"@[1] == '3');
    reveal_strlit("s4");
    assert("s4"@[0] == 's' && "s4"@[1] == '4');
    reveal_strlit("s5");
    assert("s5"@[0] == 's' && "s5"@[1] == '5');
    reveal_strlit("s6");
    assert("s6"@[0] == 's' && "s6"@[1] == '6');
    reveal_strlit("s7");
    assert("s7"@[0] == 's' && "s7"@[1] == '7');
    reveal_strlit("s8");
    assert("s8"@[0] == 's' && "s8"@[1] == '8');
    reveal_strlit("s9");
    assert("s9"@[0] == 's' && "s9"@[1] == '9');
    reveal_strlit("s10");
    assert("s10"@[0] == 's' && "s10"@[1] == '1' && "s10"@[2] == '0');
    reveal_strlit("s11");
    assert("s11"@[0] == 's' && "s11"@[1] == '1' && "s11"@[2] == '1');
    reveal_strlit("t3");
    assert("t3"@[0] == 't' && "t3"@[1] == '3');
    reveal_strlit("t4");
    assert("t4"@[0] == 't' && "t4"@[1] == '4');
    reveal_strlit("t5");
    assert("t5"@[0] == 't' && "t5"@[1] == '5');
    reveal_strlit("t6");
    assert("t6"@[0] == 't' && "t6"@[1] == '6');
    if index == 0 {
        assert(abi_register("zero"@) == 0);
    }
    if index == 1 {
        assert(abi_register("ra"@) == 1);
    }
    if index == 2 {
        assert(abi_register("sp"@) == 2);
    }
    if index == 3 {
        assert(abi_register("gp"@) == 3);
    }
    if index == 4 {
        assert(abi_register("tp"@) == 4);
    }
    if index == 5 {
        assert(abi_register("t0"@) == 5);
    }
    if index == 6 {
        assert(abi_register("t1"@) == 6);
    }
    if index == 7 {
        assert(abi_register("t2"@) == 7);
    }
    if index == 8 {
        assert(abi_register("s0"@) == 8);
    }
    if index == 9 {
        assert(abi_register("s1"@) == 9);
    }
    if index == 10 {
        assert(abi_register("a0"@) == 10);
    }
    if index == 11 {
        assert(abi_register("a1"@) == 11);
    }
    if index == 12 {
        assert(abi_register("a2"@) == 12);
    }
    if index == 13 {
        assert(abi_register("a3"@) == 13);
    }
    if index == 14 {
        assert(abi_register("a4"@) == 14);
    }
    if index == 15 {
        assert(abi_register("a5"@) == 15);
    }
    if index == 16 {
        assert(abi_register("a6"@) == 16);
    }
    if index == 17 {
        assert(abi_register("a7"@) == 17);
    }
    if index == 18 {
        assert(abi_register("s2"@) == 18);
    }
    if index == 19 {
        assert(abi_register("s3"@) == 19);
    }
    if index == 20 {
        assert(abi_register("s4"@) == 20);
    }
    if index == 21 {
        assert(abi_register("s5"@) == 21);
    }
    if index == 22 {
        assert(abi_register("s6"@) == 22);
    }
    if index == 23 {
        assert(abi_register("s7"@) == 23);
    }
    if index == 24 {
        assert(abi_register("s8"@) == 24);
    }
    if index == 25 {
        assert(abi_register("s9"@) == 25);
    }
    if index == 26 {
        assert(abi_register("s10"@) == 26);
    }
    if index == 27 {
        assert(abi_register("s11"@) == 27);
    }
    if index == 28 {
        assert(abi_register("t3"@) == 28);
    }
    if index == 29 {
        assert(abi_register("t4"@) == 29);
    }
    if index == 30 {
        assert(abi_register("t5"@) == 30);
    }
    if index == 31 {
        assert(abi_register("t6"@) == 31);
    }
}

} // verus!
