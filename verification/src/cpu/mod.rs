//! The `CPU`: registers, memory and the log of executed instructions, and
//! fetching, stepping and trapping.
use vstd::prelude::*;

use crate::decoder::{decode, even_offsets, spec_decode};
use crate::events::IrqCause;
use crate::instructions::Instruction;
use crate::memory::{in_ram, in_rom, MmapPeripheral, Memory, MemoryError, RAM_BASE, RAM_LIMIT, ROM_BASE, ROM_LIMIT};
use crate::register::{mie_bit, mpie_bit, Register, CSR, MCAUSE};

pub mod executer;
pub mod loader;

use executer::{addresses_fit, executed};

verus! {

/// Number of executed instructions kept in the log.
pub const LOG_LENGTH: usize = 80;

/// A RISC-V hart with its memory.
pub struct CPU<T> {
    pub register: Register,
    pub memory: Memory<T>,
    pub waits_for_interrupt: bool,
    /// The last `LOG_LENGTH` executed instructions with their addresses,
    /// oldest first; `None` where fewer have been executed.
    pub instruction_log: Vec<Option<(usize, Instruction)>>,
}

/// A log entry holds a 32-bit address and a well formed instruction, if any.
pub open spec fn log_entry_ok(entry: Option<(usize, Instruction)>) -> bool {
    match entry {
        Some(e) => e.0 <= u32::MAX && e.1.wf() && even_offsets(e.1),
        None => true,
    }
}

/// Why no instruction could be had from an address.
#[derive(Debug, Clone, Copy)]
pub enum CpuError {
    /// Reading the word failed.
    Memory(MemoryError),
    /// The word is no supported instruction.
    Decode(&'static str),
}

impl CpuError {
    /// The text of the error: the memory's message, or why decoding failed.
    pub open spec fn text(self) -> Seq<char> {
        match self {
            CpuError::Memory(e) => e.text(),
            CpuError::Decode(msg) => msg@,
        }
    }

    /// Returns the text of the error; see `text`.
    pub fn message(&self) -> (s: String)
        ensures
            s@ == self.text(),
    {
        match self {
            CpuError::Memory(e) => e.message(),
            CpuError::Decode(msg) => (*msg).to_owned(),
        }
    }
}

/// The outcome of fetching from the word read `w`: the decoded instruction,
/// or why there is none.
pub open spec fn fetch_result(w: Result<u32, MemoryError>) -> Result<Instruction, CpuError> {
    match w {
        Err(e) => Err(CpuError::Memory(e)),
        Ok(word) => match spec_decode(word) {
            Ok(inst) => Ok(inst),
            Err(msg) => Err(CpuError::Decode(msg)),
        },
    }
}

/// `ebreak`, regular or compressed: the instruction that ends a program.
pub open spec fn is_ebreak(inst: Instruction) -> bool {
    inst == Instruction::EBREAK() || inst == Instruction::CEBREAK()
}

/// The distance from an entry of a listing to the next one.
pub open spec fn listing_step(e: Result<Instruction, u32>) -> nat {
    match e {
        Ok(inst) => spec_size(inst),
        Err(_) => 4,
    }
}

/// The distance from an instruction to its successor.
pub open spec fn spec_size(inst: Instruction) -> nat {
    if inst.spec_is_compressed() { 2 } else { 4 }
}

impl<T: MmapPeripheral> CPU<T> {
    /// Registers and memory well formed, the log full length and holding
    /// printable instructions, and a logged instruction whenever the hart
    /// waits for an interrupt (it waits after executing `wfi`).
    pub open spec fn wf(self) -> bool {
        &&& self.register.wf()
        &&& self.memory.wf()
        &&& self.instruction_log@.len() == LOG_LENGTH
        &&& forall|i: int| 0 <= i < LOG_LENGTH ==> log_entry_ok(#[trigger] self.instruction_log@[i])
        &&& self.waits_for_interrupt ==> self.instruction_log@.last() is Some
    }
}


impl<T: MmapPeripheral> CPU<T> {
    /// `r` is a possible outcome of fetching the instruction at `addr`: the
    /// word there is read and decoded.
    pub open spec fn fetches(self, addr: usize, r: Result<Instruction, CpuError>) -> bool {
        exists|w: Result<u32, MemoryError>| #[trigger] self.memory.reads_word(addr, w) && r == fetch_result(w)
    }

    /// The same, paired with the address.
    pub open spec fn fetches_at(self, addr: usize, r: Result<(usize, Instruction), CpuError>) -> bool {
        match r {
            Ok(p) => p.0 == addr && self.fetches(addr, Ok(p.1)),
            Err(e) => self.fetches(addr, Err(e)),
        }
    }

    /// The last logged instruction, if any.
    pub open spec fn spec_last_instruction(self) -> Option<(usize, Instruction)> {
        if self.instruction_log@.len() == 0 {
            None
        } else {
            self.instruction_log@.last()
        }
    }

    /// `r` is a possible current instruction: while waiting for an interrupt
    /// the last executed one (`wfi`), else the one at the program counter.
    pub open spec fn current_is(self, r: Result<(usize, Instruction), CpuError>) -> bool {
        if self.waits_for_interrupt {
            r == Ok::<(usize, Instruction), CpuError>(self.spec_last_instruction()->Some_0)
        } else {
            self.fetches_at(self.register.pc as usize, r)
        }
    }

    /// The state after trapping with cause `code`: `mstatus.MPIE` takes
    /// `mstatus.MIE`, which is cleared, `mepc` holds the program counter,
    /// `mcause` the cause, execution continues at `mtvec` and the hart no
    /// longer waits.
    pub open spec fn trapped(self, code: u32, next: CPU<T>) -> bool {
        let csr = self.register.csr;
        &&& next.register.x() == self.register.x()
        &&& next.register.pc == csr.mtvec
        &&& next.register.csr == (CSR { mstatus: next.register.csr.mstatus, mepc: self.register.pc, mcause: code, ..csr })
        &&& mie_bit(next.register.csr.mstatus) == false
        &&& mpie_bit(next.register.csr.mstatus) == mie_bit(csr.mstatus)
        &&& next.register.csr.mstatus == (if mie_bit(csr.mstatus) { csr.mstatus | 0x80 } else { csr.mstatus & !0x80u32 }) & !0x8u32
        &&& next.memory == self.memory
        &&& next.instruction_log == self.instruction_log
        &&& !next.waits_for_interrupt
    }

    /// The result of `exec` that a result `r` of `step` stands for.
    pub open spec fn exec_result(r: Result<bool, CpuError>) -> Result<(), MemoryError> {
        match r {
            Err(CpuError::Memory(e)) => Err(e),
            _ => Ok(()),
        }
    }

    /// `next` and `r` are a possible outcome of running the current
    /// instruction without checking for interrupts: a waiting hart stays as
    /// it is; else the instruction at the program counter is fetched and
    /// executed, and logged if it succeeds. The result is `Ok(false)` after
    /// `ebreak` or `c.ebreak`, `Ok(true)` after any other instruction, or why fetching or
    /// executing failed.
    pub open spec fn runs_to(self, next: CPU<T>, r: Result<bool, CpuError>) -> bool {
        if self.waits_for_interrupt {
            next == self && r == Ok::<bool, CpuError>(true)
        } else {
            exists|f: Result<(usize, Instruction), CpuError>| #[trigger] self.fetches_at(self.register.pc as usize, f) && match f {
                Err(e) => next == self && r == Err::<bool, CpuError>(e),
                Ok(p) => {
                    &&& (r is Ok || r matches Err(CpuError::Memory(_)))
                    &&& executed(self, CPU { instruction_log: self.instruction_log, ..next }, p.1, Self::exec_result(r))
                    &&& r is Ok ==> r == Ok::<bool, CpuError>(!is_ebreak(p.1))
                        && next.instruction_log@ == self.instruction_log@.drop_first().push(Some(p))
                    &&& r is Err ==> next.instruction_log@ == self.instruction_log@
                },
            }
        }
    }

    /// `next` and `r` are a possible outcome of `step`: when interrupts are
    /// enabled or the hart waits, the peripherals are asked for a pending
    /// interrupt, and where they report one it is taken first; then the
    /// current instruction runs.
    pub open spec fn steps_to(self, next: CPU<T>, r: Result<bool, CpuError>) -> bool {
        if self.waits_for_interrupt || mie_bit(self.register.csr.mstatus) {
            exists|p: Option<IrqCause>| #[trigger] self.memory.pends(p) && if p is Some {
                exists|mid: CPU<T>|
                    #[trigger] self.trapped(MCAUSE::MachineExternalInterrupt.spec_code(), mid) && mid.runs_to(next, r)
            } else {
                self.runs_to(next, r)
            }
        } else {
            self.runs_to(next, r)
        }
    }

    /// An entry of a listing at `addr`: the instruction fetched there, or,
    /// where none could be had, the word read there (0 if the read failed).
    pub open spec fn listing_entry_ok(self, addr: usize, e: Result<Instruction, u32>) -> bool {
        match e {
            Ok(inst) => self.fetches(addr, Ok(inst)),
            Err(w) => {
                &&& exists|f: Result<Instruction, CpuError>| #[trigger] self.fetches(addr, f) && f is Err
                &&& exists|r: Result<u32, MemoryError>| #[trigger] self.memory.reads_word(addr, r) && w == match r {
                    Ok(v) => v,
                    Err(_) => 0u32,
                }
            },
        }
    }

    /// Whatever instruction is fetched at the program counter can be executed.
    pub open spec fn can_run(self) -> bool {
        self.waits_for_interrupt || forall|inst: Instruction| #[trigger] self.fetches(self.register.pc as usize, Ok(inst))
            ==> self.can_exec(inst)
    }

    /// `step` does not panic: the current instruction can be executed, also
    /// after taking an interrupt.
    pub open spec fn step_safe(self) -> bool {
        &&& addresses_fit()
        &&& self.can_run()
        &&& (self.waits_for_interrupt || mie_bit(self.register.csr.mstatus)) ==> forall|mid: CPU<T>|
            #[trigger] self.trapped(MCAUSE::MachineExternalInterrupt.spec_code(), mid) ==> mid.can_run()
    }
}

impl<T: MmapPeripheral> CPU<T> {
    /// Reads and decodes the instruction at `addr`.
    pub fn instruction_at_addr(&self, addr: usize) -> (r: Result<Instruction, CpuError>)
        requires
            self.memory.wf(),
            addr < usize::MAX - 2,
        ensures
            self.fetches(addr, r),
            r matches Ok(inst) ==> inst.wf() && even_offsets(inst),
    {
        let w = self.memory.read_word(addr);
        assert(self.memory.reads_word(addr, w));
        match w {
            Err(e) => Err(CpuError::Memory(e)),
            Ok(word) => match decode(word) {
                Ok(inst) => Ok(inst),
                Err(msg) => Err(CpuError::Decode(msg)),
            },
        }
    }

    /// The instruction to execute next with its address: while waiting for
    /// an interrupt the `wfi` executed last, else the one at the program counter.
    pub fn current_instruction(&self) -> (r: Result<(usize, Instruction), CpuError>)
        requires
            self.wf(),
            addresses_fit(),
        ensures
            self.current_is(r),
            r matches Ok(p) ==> p.0 <= u32::MAX && p.1.wf() && even_offsets(p.1),
    {
        if self.waits_for_interrupt {
            let last = self.last_instruction();
            let entry = last.unwrap();
            assert(log_entry_ok(self.instruction_log@[LOG_LENGTH - 1]));
            Ok(entry)
        } else {
            let addr = self.register.pc as usize;
            let inst = self.instruction_at_addr(addr);
            match inst {
                Ok(i) => Ok((addr, i)),
                Err(e) => Err(e),
            }
        }
    }

    /// The instruction after the current one, with its address.
    pub fn next_instruction(&self) -> (r: Result<(usize, Instruction), CpuError>)
        requires
            self.wf(),
            addresses_fit(),
        ensures
            exists|c: Result<(usize, Instruction), CpuError>| #[trigger] self.current_is(c) && match c {
                Err(e) => r == Err::<(usize, Instruction), CpuError>(e),
                Ok(p) => self.fetches_at((p.0 + spec_size(p.1)) as usize, r),
            },
    {
        let cur = self.current_instruction();
        assert(self.current_is(cur));
        let (cur_addr, cur_inst) = match cur {
            Ok(p) => p,
            Err(e) => {
                return Err(e);
            },
        };
        let addr = if cur_inst.is_compressed() {
            cur_addr + 2
        } else {
            cur_addr + 4
        };
        let inst = self.instruction_at_addr(addr);
        match inst {
            Ok(i) => Ok((addr, i)),
            Err(e) => Err(e),
        }
    }

    /// The `n` instructions from the program counter on, each with its
    /// address, as they lie in memory; a word that is no instruction is
    /// listed as `Err` with its value and skipped as four bytes.
    pub fn next_n_instructions(&self, n: usize) -> (r: Vec<(usize, Result<Instruction, u32>)>)
        requires
            self.memory.wf(),
            self.register.pc + 4 * n + 3 < usize::MAX,
        ensures
            r@.len() == n,
            n > 0 ==> r@[0].0 == self.register.pc,
            forall|i: int| 0 <= i < n ==> self.listing_entry_ok(#[trigger] r@[i].0, r@[i].1),
            forall|i: int| #![trigger r@[i]] 0 < i < n ==> r@[i].0 == r@[i - 1].0 + listing_step(r@[i - 1].1),
            forall|i: int| 0 <= i < n ==> ((#[trigger] r@[i]).1 matches Ok(inst) ==> inst.wf()),
    {
        let mut instruction_list: Vec<(usize, Result<Instruction, u32>)> = Vec::new();
        let mut addr = self.register.pc as usize;
        let mut k: usize = 0;
        while k < n
            invariant
                self.memory.wf(),
                self.register.pc + 4 * n + 3 < usize::MAX,
                k <= n,
                instruction_list@.len() == k,
                addr <= self.register.pc + 4 * k,
                k > 0 ==> instruction_list@[0].0 == self.register.pc,
                k == 0 ==> addr == self.register.pc,
                k > 0 ==> addr == instruction_list@[k - 1].0 + listing_step(instruction_list@[k - 1].1),
                forall|i: int| 0 <= i < k ==> self.listing_entry_ok(#[trigger] instruction_list@[i].0, instruction_list@[i].1),
                forall|i: int| 0 <= i < k ==> ((#[trigger] instruction_list@[i]).1 matches Ok(inst) ==> inst.wf()),
                forall|i: int| #![trigger instruction_list@[i]] 0 < i < k
                    ==> instruction_list@[i].0 == instruction_list@[i - 1].0 + listing_step(instruction_list@[i - 1].1),
            decreases n - k,
        {
            let cur_inst = self.instruction_at_addr(addr);
            if let Ok(inst) = cur_inst {
                let compressed = inst.is_compressed();
                instruction_list.push((addr, Ok(inst)));
                if compressed {
                    addr = addr + 2;
                } else {
                    addr = addr + 4;
                }
            } else {
                let w = self.memory.read_word(addr);
                assert(self.memory.reads_word(addr, w));
                let word = match w {
                    Ok(v) => v,
                    Err(_) => 0,
                };
                instruction_list.push((addr, Err(word)));
                addr = addr + 4;
            }
            k = k + 1;
        }
        instruction_list
    }

    /// The last executed instruction with its address, if any.
    pub fn last_instruction(&self) -> (r: Option<(usize, Instruction)>)
        ensures
            r == self.spec_last_instruction(),
    {
        let n = self.instruction_log.len();
        if n == 0 {
            None
        } else {
            self.instruction_log[n - 1]
        }
    }

    /// The last `n` log entries, oldest first; the whole log when it is shorter.
    pub fn last_n_instructions(&self, n: usize) -> (r: Vec<Option<(usize, Instruction)>>)
        ensures
            r@ == if n > self.instruction_log@.len() {
                self.instruction_log@
            } else {
                self.instruction_log@.subrange(self.instruction_log@.len() - n, self.instruction_log@.len() as int)
            },
            self.wf() ==> forall|i: int| 0 <= i < r@.len() ==> log_entry_ok(#[trigger] r@[i]),
    {
        let len = self.instruction_log.len();
        let start = if n > len {
            0
        } else {
            len - n
        };
        let mut out: Vec<Option<(usize, Instruction)>> = Vec::new();
        let mut i = start;
        while i < len
            invariant
                start <= i <= len,
                len == self.instruction_log@.len(),
                out@ == self.instruction_log@.subrange(start as int, i as int),
            decreases len - i,
        {
            out.push(self.instruction_log[i]);
            i = i + 1;
        }
        out
    }

    /// Traps with cause `reason`; see `trapped`.
    fn exception(&mut self, reason: MCAUSE)
        ensures
            old(self).trapped(reason.spec_code(), *final(self)),
    {
        let mie = self.register.csr.mstatus_get_mie();
        self.register.csr.mstatus_set_mpie(mie);
        self.register.csr.mstatus_set_mie(false);
        self.register.csr.mepc = self.register.pc;
        self.register.csr.mcause = reason.code();
        self.register.pc = self.register.csr.mtvec;
        self.waits_for_interrupt = false;
    }

    /// Takes a pending interrupt of a peripheral as a machine external
    /// interrupt, when interrupts are enabled (`mstatus.MIE`) or the hart
    /// waits for one; returns whether it did.
    pub fn check_interrupts(&mut self) -> (taken: bool)
        ensures
            taken ==> old(self).waits_for_interrupt || mie_bit(old(self).register.csr.mstatus),
            old(self).waits_for_interrupt || mie_bit(old(self).register.csr.mstatus) ==> exists|p: Option<IrqCause>|
                #[trigger] old(self).memory.pends(p) && taken == p is Some,
            taken ==> old(self).trapped(MCAUSE::MachineExternalInterrupt.spec_code(), *final(self)),
            !taken ==> *final(self) == *old(self),
    {
        if self.waits_for_interrupt || self.register.csr.mstatus_get_mie() {
            let pending = self.memory.pending_interrupt();
            return self.take_interrupt(pending);
        }
        false
    }

    /// Traps with a machine external interrupt exactly when `pending` holds
    /// one; returns whether it did.
    pub fn take_interrupt(&mut self, pending: Option<IrqCause>) -> (taken: bool)
        ensures
            taken == pending is Some,
            taken ==> old(self).trapped(MCAUSE::MachineExternalInterrupt.spec_code(), *final(self)),
            !taken ==> *final(self) == *old(self),
    {
        if let Some(_reason) = pending {
            self.exception(MCAUSE::MachineExternalInterrupt);
            return true;
        }
        false
    }

    /// Takes a pending interrupt when it may, then executes the current
    /// instruction unless the hart waits for an interrupt, and logs it.
    /// Returns `false` after `ebreak` or `c.ebreak`, which end a program, else `true`.
    pub fn step(&mut self) -> (r: Result<bool, CpuError>)
        requires
            old(self).wf(),
            old(self).step_safe(),
        ensures
            final(self).wf(),
            old(self).steps_to(*final(self), r),
    {
        let ghost s0 = *self;
        self.check_interrupts();
        let ghost mid = *self;
        if self.waits_for_interrupt {
            return Ok(true);
        }
        let cur = self.current_instruction();
        assert(mid.current_is(cur));
        let (addr, inst) = match cur {
            Ok(p) => p,
            Err(e) => {
                return Err(e);
            },
        };
        assert(mid.fetches(mid.register.pc as usize, Ok(inst)));
        let res = self.exec(&inst, true, true);
        if let Err(e) = res {
            return Err(CpuError::Memory(e));
        }
        self.instruction_log.remove(0);
        self.instruction_log.push(Some((addr, inst)));
        assert(executed(mid, CPU { instruction_log: mid.instruction_log, ..*self }, inst, Ok(())));
        Ok(!matches!(inst, Instruction::EBREAK() | Instruction::CEBREAK()))
    }
}

/// An instruction log with no entries yet.
fn empty_log() -> (log: Vec<Option<(usize, Instruction)>>)
    ensures
        log@ == Seq::new(LOG_LENGTH as nat, |i: int| None::<(usize, Instruction)>),
{
    let mut log: Vec<Option<(usize, Instruction)>> = Vec::new();
    let mut k: usize = 0;
    while k < LOG_LENGTH
        invariant
            k <= LOG_LENGTH,
            log@ == Seq::new(k as nat, |i: int| None::<(usize, Instruction)>),
        decreases LOG_LENGTH - k,
    {
        log.push(None);
        k = k + 1;
        assert(log@ =~= Seq::new(k as nat, |i: int| None::<(usize, Instruction)>));
    }
    log
}

/// `data` written over `s` from `offset` on.
pub open spec fn splice(s: Seq<u8>, offset: int, data: Seq<u8>) -> Seq<u8> {
    s.take(offset) + data + s.skip(offset + data.len())
}

/// A program image placed at `base` fits into ROM or RAM.
pub open spec fn fits_at(base: usize, len: nat) -> bool {
    ||| in_rom(base) && base - ROM_BASE + len <= ROM_LIMIT - ROM_BASE
    ||| in_ram(base) && base - RAM_BASE + len <= RAM_LIMIT - RAM_BASE
}

impl<T: MmapPeripheral> CPU<T> {
    /// A freshly reset hart on `memory`: registers zero but the program
    /// counter, no instruction logged and not waiting for an interrupt.
    pub open spec fn reset_on(self, memory: Memory<T>, pc: u32, csr: CSR) -> bool {
        &&& self.register.x() == Seq::new(32, |i: int| 0u32)
        &&& self.register.csr == csr
        &&& self.register.pc == pc
        &&& self.memory.uart0 == memory.uart0
        &&& self.memory.uart1 == memory.uart1
        &&& self.memory.reservation == memory.reservation
        &&& self.instruction_log@ == Seq::new(LOG_LENGTH as nat, |i: int| None::<(usize, Instruction)>)
        &&& !self.waits_for_interrupt
    }
}

impl<T: MmapPeripheral> CPU<T> {
    /// A hart on `memory` with the raw binary `file` loaded at
    /// `base_address` in ROM or RAM, starting at `entry_address` (as a 32-bit address).
    pub fn from_bin(file: &[u8], memory: Memory<T>, entry_address: usize, base_address: usize) -> (cpu: Self)
        requires
            memory.wf(),
            fits_at(base_address, file@.len()),
        ensures
            cpu.wf(),
            cpu.reset_on(memory, entry_address as u32, CSR::zeroed()),
            in_rom(base_address) ==> cpu.memory.rom@ == splice(memory.rom@, base_address - ROM_BASE, file@)
                && cpu.memory.ram@ == memory.ram@,
            in_ram(base_address) ==> cpu.memory.ram@ == splice(memory.ram@, base_address - RAM_BASE, file@)
                && cpu.memory.rom@ == memory.rom@,
    {
        let mut cpu = CPU {
            register: Register::default(),
            memory,
            waits_for_interrupt: false,
            instruction_log: empty_log(),
        };
        cpu.memory.load_at(base_address, file);
        cpu.register.pc = entry_address as u32;
        cpu
    }
}

proof fn lemma_run_keeps_rom<T: MmapPeripheral>(c: CPU<T>, next: CPU<T>, r: Result<bool, CpuError>)
    requires
        c.runs_to(next, r),
    ensures
        next.memory.rom@ == c.memory.rom@,
{
    if !c.waits_for_interrupt {
        let f = choose|f: Result<(usize, Instruction), CpuError>| #[trigger] c.fetches_at(c.register.pc as usize, f) && match f {
            Err(e) => next == c && r == Err::<bool, CpuError>(e),
            Ok(p) => {
                &&& (r is Ok || r matches Err(CpuError::Memory(_)))
                &&& executed(c, CPU { instruction_log: c.instruction_log, ..next }, p.1, CPU::<T>::exec_result(r))
                &&& r is Ok ==> r == Ok::<bool, CpuError>(!is_ebreak(p.1))
                    && next.instruction_log@ == c.instruction_log@.drop_first().push(Some(p))
                &&& r is Err ==> next.instruction_log@ == c.instruction_log@
            },
        };
        if let Ok(p) = f {
            executer::lemma_execution_keeps_rom(c, CPU { instruction_log: c.instruction_log, ..next }, p.1, CPU::<T>::exec_result(r));
        }
    }
}

/// A step never changes ROM, whether it takes an interrupt, executes an
/// instruction or fails.
pub proof fn lemma_step_keeps_rom<T: MmapPeripheral>(c: CPU<T>, next: CPU<T>, r: Result<bool, CpuError>)
    requires
        c.steps_to(next, r),
    ensures
        next.memory.rom@ == c.memory.rom@,
{
    if c.runs_to(next, r) {
        lemma_run_keeps_rom(c, next, r);
    } else {
        let mid = choose|mid: CPU<T>| #[trigger] c.trapped(MCAUSE::MachineExternalInterrupt.spec_code(), mid) && mid.runs_to(next, r);
        lemma_run_keeps_rom(mid, next, r);
    }
}

/// A step that runs an instruction logs it as the newest entry, and reports
/// that the program has ended (`Ok(false)`) exactly when that instruction
/// is `ebreak` or `c.ebreak`.
pub proof fn lemma_run_reports_ebreak<T: MmapPeripheral>(c: CPU<T>, next: CPU<T>, r: Result<bool, CpuError>)
    requires
        !c.waits_for_interrupt,
        c.instruction_log@.len() > 0,
        c.runs_to(next, r),
        r is Ok,
    ensures
        next.instruction_log@.len() == c.instruction_log@.len(),
        (next.instruction_log@.last() matches Some(p) && (r == Ok::<bool, CpuError>(
            false,
        ) <==> (p.1 == Instruction::EBREAK() || p.1 == Instruction::CEBREAK()))),
{
}

/// Whatever a step does, when it reports that the program has ended, the
/// instruction it ran last, the newest in the log, is `ebreak` or
/// `c.ebreak`.
pub proof fn lemma_step_ends_only_at_ebreak<T: MmapPeripheral>(c: CPU<T>, next: CPU<T>)
    requires
        c.instruction_log@.len() > 0,
        c.steps_to(next, Ok::<bool, CpuError>(false)),
    ensures
        next.instruction_log@.last() matches Some(p) && (p.1 == Instruction::EBREAK() || p.1 == Instruction::CEBREAK()),
{
    if c.runs_to(next, Ok::<bool, CpuError>(false)) {
        lemma_run_reports_ebreak(c, next, Ok::<bool, CpuError>(false));
    } else {
        let mid = choose|mid: CPU<T>|
            #[trigger] c.trapped(MCAUSE::MachineExternalInterrupt.spec_code(), mid) && mid.runs_to(next, Ok::<bool, CpuError>(false));
        lemma_run_reports_ebreak(mid, next, Ok::<bool, CpuError>(false));
    }
}

/// A hart that waits for an interrupt (`wfi`) or has interrupts enabled
/// takes a pending interrupt before anything else: where its peripherals
/// can only report an interrupt, the step first traps with cause
/// `0x8000_000B` (machine external interrupt), saving the program counter
/// in `mepc`, leaving the wait and jumping to `mtvec`; then the instruction
/// at `mtvec` runs.
pub proof fn lemma_step_takes_pending_interrupt<T: MmapPeripheral>(c: CPU<T>, next: CPU<T>, r: Result<bool, CpuError>)
    requires
        c.waits_for_interrupt || c.register.csr.mstatus & 0x8 != 0,
        forall|p: Option<IrqCause>| c.memory.pends(p) ==> p is Some,
        c.steps_to(next, r),
    ensures
        exists|mid: CPU<T>|
            {
                &&& mid.register.csr.mepc == c.register.pc
                &&& mid.register.csr.mcause == 0x8000_000B
                &&& mid.register.pc == c.register.csr.mtvec
                &&& mid.register.x() == c.register.x()
                &&& mid.register.csr.mstatus & 0x8 == 0
                &&& (mid.register.csr.mstatus & 0x80 != 0) == (c.register.csr.mstatus & 0x8 != 0)
                &&& !mid.waits_for_interrupt
                &&& mid.memory == c.memory
                &&& #[trigger] mid.runs_to(next, r)
            },
{
    let p = choose|p: Option<IrqCause>| #[trigger] c.memory.pends(p) && if p is Some {
        exists|mid: CPU<T>|
            #[trigger] c.trapped(MCAUSE::MachineExternalInterrupt.spec_code(), mid) && mid.runs_to(next, r)
    } else {
        c.runs_to(next, r)
    };
    let mid = choose|mid: CPU<T>| #[trigger] c.trapped(MCAUSE::MachineExternalInterrupt.spec_code(), mid) && mid.runs_to(next, r);
    assert(mid.runs_to(next, r));
}

/// Without an interrupt to take, a step runs the current instruction: when
/// interrupts are disabled and the hart does not wait, or when the
/// peripherals can only report that none is pending.
pub proof fn lemma_step_without_interrupt<T: MmapPeripheral>(c: CPU<T>, next: CPU<T>, r: Result<bool, CpuError>)
    requires
        !(c.waits_for_interrupt || c.register.csr.mstatus & 0x8 != 0) || forall|p: Option<IrqCause>|
            c.memory.pends(p) ==> p is None,
        c.steps_to(next, r),
    ensures
        c.runs_to(next, r),
{
}

/// A hart waiting for an interrupt with none to take stays as it is, and
/// the step reports that the program goes on.
pub proof fn lemma_waiting_hart_stays<T: MmapPeripheral>(c: CPU<T>, next: CPU<T>, r: Result<bool, CpuError>)
    requires
        c.waits_for_interrupt,
        forall|p: Option<IrqCause>| c.memory.pends(p) ==> p is None,
        c.steps_to(next, r),
    ensures
        next == c,
        r == Ok::<bool, CpuError>(true),
{
}

/// `next` and `r` are a possible outcome of running up to `n` steps from
/// `c`: the run stops early after `ebreak` (`Ok(false)`) or a failure, and
/// gives `Ok(true)` when all `n` steps continued.
pub open spec fn runs<T: MmapPeripheral>(c: CPU<T>, next: CPU<T>, n: nat, r: Result<bool, CpuError>) -> bool
    decreases n,
{
    if n == 0 {
        next == c && r == Ok::<bool, CpuError>(true)
    } else {
        exists|mid: CPU<T>, r1: Result<bool, CpuError>| #[trigger] c.steps_to(mid, r1) && if r1 == Ok::<bool, CpuError>(true) {
            runs(mid, next, (n - 1) as nat, r)
        } else {
            next == mid && r == r1
        }
    }
}

/// Every state that a run of `n` steps from `c` passes through can be stepped.
pub open spec fn safe_for<T: MmapPeripheral>(c: CPU<T>, n: nat) -> bool
    decreases n,
{
    n == 0 || (c.wf() && c.step_safe() && forall|mid: CPU<T>| #[trigger] c.steps_to(mid, Ok::<bool, CpuError>(true)) ==> safe_for(
        mid,
        (n - 1) as nat,
    ))
}

impl<T: MmapPeripheral> CPU<T> {
    /// Executes up to `n` steps; see `runs`. Returns `Ok(false)` once
    /// `ebreak` or `c.ebreak` ends the program.
    pub fn run_steps(&mut self, n: usize) -> (r: Result<bool, CpuError>)
        requires
            old(self).wf(),
            safe_for(*old(self), n as nat),
        ensures
            final(self).wf(),
            runs(*old(self), *final(self), n as nat, r),
    {
        let ghost c0 = *self;
        let mut i: usize = 0;
        while i < n
            invariant
                i <= n,
                c0 == *old(self),
                self.wf(),
                safe_for(*self, (n - i) as nat),
                forall|last: CPU<T>, r: Result<bool, CpuError>| #![trigger runs(*self, last, (n - i) as nat, r)]
                    runs(*self, last, (n - i) as nat, r) ==> runs(c0, last, n as nat, r),
            decreases n - i,
        {
            let ghost cur = *self;
            assert(forall|last: CPU<T>, r: Result<bool, CpuError>| #![trigger runs(cur, last, (n - i) as nat, r)]
                runs(cur, last, (n - i) as nat, r) ==> runs(c0, last, n as nat, r));
            let r1 = self.step();
            let ghost mid = *self;
            assert(cur.steps_to(mid, r1));
            match r1 {
                Ok(true) => {
                    assert forall|last: CPU<T>, r: Result<bool, CpuError>| #![trigger runs(mid, last, (n - i - 1) as nat, r)]
                        runs(mid, last, (n - i - 1) as nat, r) implies runs(c0, last, n as nat, r) by {
                        assert(runs(cur, last, (n - i) as nat, r));
                    }
                },
                _ => {
                    assert(runs(cur, mid, (n - i) as nat, r1));
                    assert(runs(c0, mid, n as nat, r1));
                    return r1;
                },
            }
            i = i + 1;
        }
        assert(runs(*self, *self, 0, Ok::<bool, CpuError>(true)));
        Ok(true)
    }
}

} // verus!
