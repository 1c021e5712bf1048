//! What the parts of the emulator tell each other, and the line printed for
//! an observed jump.
use vstd::prelude::*;

use crate::bits::{add_signed, spec_add_signed};
use crate::cpu::CpuError;
use crate::instructions::Instruction;
use crate::register::Register;
use crate::text::{lower_hex, pad_left, push_char, push_lower_hex, push_padded, push_unsigned};

verus! {

/// Work handed to the thread that runs the CPU.
#[derive(Debug, Clone, Copy, PartialEq, Eq, Structural)]
pub enum CpuJob {
    Step(usize),
    AutoStep,
    Stop,
    CheckInterrupts,
}

/// The source of a pending interrupt.
#[derive(Debug, Clone, Copy, PartialEq, Eq, Structural)]
pub enum IrqCause {
    Uart,
    Timer,
}

/// How many instructions the CPU thread executes at a time in auto-step mode.
pub const AUTO_STEP_BATCH: usize = 307;

/// What the CPU thread does next.
#[derive(Debug, Clone, Copy, PartialEq, Eq, Structural)]
pub enum ExecutorAction {
    /// Wait for the next job.
    Wait,
    /// Take a pending interrupt, if interrupts allow it.
    CheckInterrupts,
    /// Execute this many instructions.
    Run(usize),
}

/// Whether the CPU thread only looks for a job without waiting for one: in
/// auto-step mode while the hart does not wait for an interrupt.
pub fn executor_polls(autostep: bool, waits_for_interrupt: bool) -> (r: bool)
    ensures
        r == (autostep && !waits_for_interrupt),
{
    autostep && !waits_for_interrupt
}

/// The auto-step mode and the action of the CPU thread after `job`, where
/// `None` stands for no job waiting while it polls: then it executes a
/// batch. `Step(0)` does nothing, `AutoStep` and `Stop` switch auto-step
/// mode on and off.
pub fn executor_next(autostep: bool, job: Option<CpuJob>) -> (r: (bool, ExecutorAction))
    ensures
        r == (match job {
            None => (autostep, ExecutorAction::Run(AUTO_STEP_BATCH)),
            Some(CpuJob::Step(n)) => (autostep, if n == 0 { ExecutorAction::Wait } else { ExecutorAction::Run(n) }),
            Some(CpuJob::AutoStep) => (true, ExecutorAction::Wait),
            Some(CpuJob::Stop) => (false, ExecutorAction::Wait),
            Some(CpuJob::CheckInterrupts) => (autostep, ExecutorAction::CheckInterrupts),
        }),
{
    match job {
        None => (autostep, ExecutorAction::Run(AUTO_STEP_BATCH)),
        Some(CpuJob::Step(num)) => {
            if num == 0 {
                (autostep, ExecutorAction::Wait)
            } else {
                (autostep, ExecutorAction::Run(num))
            }
        },
        Some(CpuJob::AutoStep) => (true, ExecutorAction::Wait),
        Some(CpuJob::Stop) => (false, ExecutorAction::Wait),
        Some(CpuJob::CheckInterrupts) => (autostep, ExecutorAction::CheckInterrupts),
    }
}

/// What the CPU thread reports after a run of instructions.
#[derive(Debug, PartialEq, Eq)]
pub enum RunReport {
    /// The run went through and the program goes on.
    Continue,
    /// `ebreak` ended the program; the thread stops.
    Finished,
    /// A step failed, with the text of the error; the thread stops.
    Failed(String),
}

/// The report on the outcome `r` of a run: the program goes on after
/// `Ok(true)`, has ended after `Ok(false)`, and failed with the error's text
/// after an error.
pub fn run_report(r: &Result<bool, CpuError>) -> (rep: RunReport)
    ensures
        match r {
            Ok(true) => rep is Continue,
            Ok(false) => rep is Finished,
            Err(e) => rep matches RunReport::Failed(s) && s@ == e.text(),
        },
{
    match r {
        Ok(true) => RunReport::Continue,
        Ok(false) => RunReport::Finished,
        Err(e) => RunReport::Failed(e.message()),
    }
}

/// The verdict of a riscv-tests program: it passed when it ended with
/// register `a7` holding 93, the number of the `exit` system call.
pub fn riscv_test_passed(regs: &Register) -> (r: bool)
    requires
        regs.wf(),
    ensures
        r == (regs.x()[17] == 93),
{
    regs.read(17) == 93
}

#[verifier::external_type_specification]
#[verifier::external_body]
pub struct ExLoader(addr2line::Loader);

/// Looks `probe` up with `addr2line::Loader::find_location` and gives the
/// file and line of the source location found; `None` where none is found
/// or the lookup fails. Nothing is stated of the result: it depends on the
/// debug information that the loader read from a file.
#[verifier::external_body]
fn find_location(loader: &addr2line::Loader, probe: u64) -> Option<(Option<String>, Option<u32>)> {
    match loader.find_location(probe) {
        Ok(Some(location)) => Some((location.file.map(str::to_owned), location.line)),
        _ => None,
    }
}

/// `addr` plus the signed `offset`, wrapping around at the size of `usize`.
pub open spec fn usize_offset(addr: usize, offset: i32) -> usize {
    let v = addr as int + offset as int;
    if v < 0 {
        (v + usize::MAX + 1) as usize
    } else if v > usize::MAX {
        (v - usize::MAX - 1) as usize
    } else {
        v as usize
    }
}

fn add_offset(addr: usize, offset: i32) -> (r: usize)
    ensures
        r == usize_offset(addr, offset),
{
    if offset < 0 {
        addr.wrapping_sub((-(offset as i64)) as usize)
    } else {
        addr.wrapping_add(offset as usize)
    }
}

/// The jump an observed instruction at `addr` makes with registers `x`:
/// its label, the address shown for it and its destination. A `jalr` shows
/// its base register in place of its address.
pub open spec fn observed_jump(addr: usize, inst: Instruction, x: Seq<u32>) -> Option<(Seq<char>, nat, nat)> {
    match inst {
        Instruction::JAL(_, imm) => Some(("C/JAL"@, addr as nat, usize_offset(addr, imm) as nat)),
        Instruction::CJAL(imm) => Some(("C/JAL"@, addr as nat, usize_offset(addr, imm) as nat)),
        Instruction::CJALR(rs) => Some(("CJALR"@, addr as nat, x[rs as int] as nat)),
        Instruction::JALR(_, rs, imm) => Some(("JALR"@, x[rs as int] as nat, spec_add_signed(x[rs as int], imm) as nat)),
        _ => None,
    }
}

/// The line printed for a jump: `0x` and the shown address in lower case
/// hex, the label right-aligned in five columns, and `-> 0x` and the
/// destination with `:file:line` of its source location (`???` and 0 where
/// they are not known), or ` -> 0x` and the destination where no location was found.
pub open spec fn observed_line(jump: (Seq<char>, nat, nat), location: Option<(Option<Seq<char>>, Option<u32>)>) -> Seq<char> {
    let head = seq!['0', 'x'] + lower_hex(jump.1) + seq![' '] + pad_left(jump.0, 5) + seq![' '];
    match location {
        Some(loc) => head + seq!['-', '>', ' ', '0', 'x'] + lower_hex(jump.2) + seq![':'] + (match loc.0 {
            Some(file) => file,
            None => "???"@,
        }) + seq![':'] + crate::text::decimal_digits(
            match loc.1 {
                Some(line) => line as nat,
                None => 0,
            },
        ),
        None => head + seq![' ', '-', '>', ' ', '0', 'x'] + lower_hex(jump.2),
    }
}

/// The label, shown address and destination of an observed jump.
fn jump_parts(addr: usize, inst: Instruction, regs: &Register) -> (r: Option<(&'static str, u64, u64)>)
    requires
        regs.wf(),
        inst.wf(),
    ensures
        match observed_jump(addr, inst, regs.x()) {
            Some(jump) => r matches Some(p) && p.0@ == jump.0 && p.1 == jump.1 && p.2 == jump.2,
            None => r is None,
        },
{
    match inst {
        Instruction::JAL(_, immediate) | Instruction::CJAL(immediate) => Some(
            ("C/JAL", addr as u64, add_offset(addr, immediate) as u64),
        ),
        Instruction::CJALR(rs) => Some(("CJALR", addr as u64, regs.read(rs) as u64)),
        Instruction::JALR(_, rs, immediate) => {
            let base = regs.read(rs);
            Some(("JALR", base as u64, add_signed(base, immediate) as u64))
        },
        _ => None,
    }
}

/// Builds `observed_line` for a jump.
fn format_observed(label: &str, shown: u64, destination: u64, location: Option<(Option<String>, Option<u32>)>) -> (s: String)
    ensures
        s@ == observed_line((label@, shown as nat, destination as nat), location.deep_view()),
{
    let mut s = String::new();
    push_char(&mut s, '0');
    push_char(&mut s, 'x');
    push_lower_hex(&mut s, shown);
    push_char(&mut s, ' ');
    push_padded(&mut s, label, 5);
    push_char(&mut s, ' ');
    match location {
        Some((file, line)) => {
            push_char(&mut s, '-');
            push_char(&mut s, '>');
            push_char(&mut s, ' ');
            push_char(&mut s, '0');
            push_char(&mut s, 'x');
            push_lower_hex(&mut s, destination);
            push_char(&mut s, ':');
            match file {
                Some(f) => s.append(f.as_str()),
                None => s.append("???"),
            }
            push_char(&mut s, ':');
            let n = match line {
                Some(l) => l,
                None => 0,
            };
            push_unsigned(&mut s, n as u64);
        },
        None => {
            push_char(&mut s, ' ');
            push_char(&mut s, '-');
            push_char(&mut s, '>');
            push_char(&mut s, ' ');
            push_char(&mut s, '0');
            push_char(&mut s, 'x');
            push_lower_hex(&mut s, destination);
        },
    }
    assert(s@ =~= observed_line((label@, shown as nat, destination as nat), location.deep_view()));
    s
}

/// The line for an observed jump, given the source location found for its
/// destination; "Not implemented" for other instructions.
pub fn observed_text(
    addr: usize,
    inst: Instruction,
    regs: &Register,
    location: Option<(Option<String>, Option<u32>)>,
) -> (s: String)
    requires
        regs.wf(),
        inst.wf(),
    ensures
        s@ == match observed_jump(addr, inst, regs.x()) {
            Some(jump) => observed_line(jump, location.deep_view()),
            None => "Not implemented"@,
        },
{
    match jump_parts(addr, inst, regs) {
        Some((label, shown, destination)) => format_observed(label, shown, destination, location),
        None => "Not implemented".to_owned(),
    }
}

/// The line printed for an observed jump (see `observed_text`), with the
/// source location of its destination looked up in `addr2line` where given.
pub fn cpu_observed_to_string(
    addr: usize,
    inst: Instruction,
    regs: &Register,
    addr2line: Option<&addr2line::Loader>,
) -> (s: String)
    requires
        regs.wf(),
        inst.wf(),
    ensures
        observed_jump(addr, inst, regs.x()) is None ==> s@ == "Not implemented"@,
        observed_jump(addr, inst, regs.x()) matches Some(jump) ==> exists|location: Option<(Option<Seq<char>>, Option<u32>)>|
            (addr2line is None ==> location is None) && s@ == #[trigger] observed_line(jump, location),
{
    match jump_parts(addr, inst, regs) {
        Some((label, shown, destination)) => {
            let location = match addr2line {
                Some(loader) => find_location(loader, destination),
                None => None,
            };
            format_observed(label, shown, destination, location)
        },
        None => "Not implemented".to_owned(),
    }
}

} // verus!
