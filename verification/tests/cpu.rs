use triops::cpu::{CpuError, CPU};
use triops::events::{run_report, IrqCause, RunReport};
use triops::instructions::Instruction;
use triops::memory::{Memory, MemoryError, MmapPeripheral};

struct Quiet;

impl MmapPeripheral for Quiet {
    fn read_byte(&self, _offset: usize) -> u8 {
        0
    }
    fn write_byte(&mut self, _offset: usize, _value: u8) {}
    fn pending_interrupt(&self) -> Option<IrqCause> {
        None
    }
}

struct Ringing;

impl MmapPeripheral for Ringing {
    fn read_byte(&self, _offset: usize) -> u8 {
        0
    }
    fn write_byte(&mut self, _offset: usize, _value: u8) {}
    fn pending_interrupt(&self) -> Option<IrqCause> {
        Some(IrqCause::Uart)
    }
}

fn program(words: &[u32]) -> Vec<u8> {
    words.iter().flat_map(|w| w.to_le_bytes()).collect()
}

fn cpu_with(code: &[u8]) -> CPU<Quiet> {
    CPU::from_bin(code, Memory::new(Quiet, Quiet), 0x8000_0000, 0x8000_0000)
}

fn run(cpu: &mut CPU<Quiet>, limit: usize) -> usize {
    for n in 0..limit {
        if !cpu.step().unwrap() {
            return n + 1;
        }
    }
    limit
}

#[test]
fn runs_a_small_program() {
    let mut code = program(&[
        0x8000_8137, // lui sp, 0x80008
        0xFF01_0113, // addi sp, sp, -16
        0x0050_0513, // addi a0, zero, 5
        0x0075_0593, // addi a1, a0, 7
        0x00B1_2023, // sw a1, 0(sp)
        0x0001_2603, // lw a2, 0(sp)
    ]);
    code.extend_from_slice(&0x56FDu16.to_le_bytes()); // c.li a3, -1
    code.extend_from_slice(&0x0010_0073u32.to_le_bytes()); // ebreak
    let mut cpu = cpu_with(&code);
    assert_eq!(run(&mut cpu, 100), 8);
    assert_eq!(cpu.register.read(2), 0x8000_7FF0);
    assert_eq!(cpu.register.read(10), 5);
    assert_eq!(cpu.register.read(11), 12);
    assert_eq!(cpu.register.read(12), 12);
    assert_eq!(cpu.register.read(13), 0xFFFF_FFFF);
    assert_eq!(cpu.register.pc, 0x8000_001E);
    assert_eq!(cpu.memory.read_word(0x8000_7FF0), Ok(12));
    assert_eq!(cpu.last_instruction(), Some((0x8000_001A, Instruction::EBREAK())));
}

#[test]
fn register_zero_stays_zero() {
    // addi zero, zero, 1 ; ebreak
    let mut cpu = cpu_with(&program(&[0x0010_0013, 0x0010_0073]));
    run(&mut cpu, 10);
    assert_eq!(cpu.register.read(0), 0);
}

#[test]
fn division_by_zero_gives_all_ones() {
    // addi a1, zero, 7 ; div a0, a1, a2 ; rem a3, a1, a2 ; ebreak
    let mut cpu = cpu_with(&program(&[0x0070_0593, 0x02C5_C533, 0x02C5_E6B3, 0x0010_0073]));
    run(&mut cpu, 10);
    assert_eq!(cpu.register.read(10), 0xFFFF_FFFF);
    assert_eq!(cpu.register.read(13), 7);
}

#[test]
fn ecall_traps_to_mtvec() {
    let mut cpu = cpu_with(&program(&[
        0x8000_02B7, // lui t0, 0x80000
        0x1002_8293, // addi t0, t0, 0x100
        0x3052_9073, // csrrw zero, mtvec, t0
        0x0000_0073, // ecall
    ]));
    for _ in 0..4 {
        assert_eq!(cpu.step().unwrap(), true);
    }
    assert_eq!(cpu.register.pc, 0x8000_0100);
    assert_eq!(cpu.register.csr.mepc, 0x8000_000C);
    assert_eq!(cpu.register.csr.mcause, 11);
    assert_eq!(cpu.register.csr.mtvec, 0x8000_0100);
}

#[test]
fn branch_taken_and_not_taken() {
    // addi a0, zero, 1 ; beq a0, zero, 8 ; bne a0, zero, 8 ; addi a1, zero, 9 ; ebreak
    let mut cpu = cpu_with(&program(&[0x0010_0513, 0x0005_0463, 0x0005_1463, 0x0090_0593, 0x0010_0073]));
    run(&mut cpu, 10);
    assert_eq!(cpu.register.read(11), 0);
    assert_eq!(cpu.register.pc, 0x8000_0014);
}

#[test]
fn exec_advances_past_the_instruction() {
    let mut cpu = cpu_with(&[]);
    assert_eq!(cpu.exec(&Instruction::ADDI(10, 0, 5), true, true), Ok(()));
    assert_eq!(cpu.register.pc, 0x8000_0004);
    assert_eq!(cpu.exec(&Instruction::CLI(11, 3), true, true), Ok(()));
    assert_eq!(cpu.register.pc, 0x8000_0006);
    assert_eq!(cpu.register.read(10), 5);
    assert_eq!(cpu.register.read(11), 3);
}

#[test]
fn failed_store_reports_the_address() {
    let mut cpu = cpu_with(&[]);
    // sw zero, 0(zero): address 0 is outside the writable map
    assert_eq!(cpu.exec(&Instruction::SW(0, 0, 0), true, true), Err(MemoryError::Write(0)));
    assert_eq!(cpu.register.pc, 0x8000_0004);
}

#[test]
fn load_reserved_and_store_conditional() {
    let mut cpu = cpu_with(&[]);
    cpu.memory.write_word(0x8000_0100, 77).unwrap();
    // a0 = address
    cpu.register.write(10, 0x8000_0100);
    cpu.register.write(11, 99);
    assert_eq!(cpu.exec(&Instruction::LRW(12, 10), true, true), Ok(()));
    assert_eq!(cpu.register.read(12), 77);
    assert_eq!(cpu.exec(&Instruction::SCW(13, 10, 11), true, true), Ok(()));
    assert_eq!(cpu.register.read(13), 0);
    assert_eq!(cpu.memory.read_word(0x8000_0100), Ok(99));
    // the reservation is gone: a second sc.w fails
    assert_eq!(cpu.exec(&Instruction::SCW(13, 10, 11), true, true), Ok(()));
    assert_eq!(cpu.register.read(13), 1);
}

#[test]
fn atomic_add_returns_the_old_word() {
    let mut cpu = cpu_with(&[]);
    cpu.memory.write_word(0x8000_0200, 40).unwrap();
    cpu.register.write(10, 0x8000_0200);
    cpu.register.write(11, 2);
    assert_eq!(cpu.exec(&Instruction::AMOADDW(12, 10, 11), true, true), Ok(()));
    assert_eq!(cpu.register.read(12), 40);
    assert_eq!(cpu.memory.read_word(0x8000_0200), Ok(42));
}

#[test]
fn wfi_waits_until_an_interrupt() {
    // wfi
    let code = program(&[0x1050_0073]);
    let mut cpu = CPU::from_bin(&code, Memory::new(Ringing, Ringing), 0x8000_0000, 0x8000_0000);
    cpu.register.csr.mtvec = 0x8000_0040;
    // interrupts disabled: wfi executes and the hart waits
    assert_eq!(cpu.step().unwrap(), true);
    assert!(cpu.waits_for_interrupt);
    assert_eq!(cpu.current_instruction().unwrap(), (0x8000_0000, Instruction::WFI()));
    // the pending interrupt is taken while waiting
    assert!(cpu.check_interrupts());
    assert!(!cpu.waits_for_interrupt);
    assert_eq!(cpu.register.pc, 0x8000_0040);
    assert_eq!(cpu.register.csr.mcause, 0x8000_000B);
    assert_eq!(cpu.register.csr.mepc, 0x8000_0004);
}

#[test]
fn no_interrupt_taken_when_disabled() {
    let mut cpu = CPU::from_bin(&[], Memory::new(Ringing, Ringing), 0x8000_0000, 0x8000_0000);
    assert!(!cpu.check_interrupts());
    assert_eq!(cpu.register.pc, 0x8000_0000);
}

#[test]
fn lists_the_next_instructions() {
    let mut code = program(&[0x0050_0513]);
    code.extend_from_slice(&0x56FDu16.to_le_bytes());
    code.extend_from_slice(&0x0010_0073u32.to_le_bytes());
    let cpu = cpu_with(&code);
    let list = cpu.next_n_instructions(4);
    assert_eq!(list.len(), 4);
    assert_eq!(list[0], (0x8000_0000, Ok(Instruction::ADDI(10, 0, 5))));
    assert_eq!(list[1], (0x8000_0004, Ok(Instruction::CLI(13, -1))));
    assert_eq!(list[2], (0x8000_0006, Ok(Instruction::EBREAK())));
    assert_eq!(list[3], (0x8000_000A, Err(0)));
    assert_eq!(cpu.next_instruction().unwrap(), (0x8000_0004, Instruction::CLI(13, -1)));
}

#[test]
fn log_keeps_the_last_instructions() {
    let mut cpu = cpu_with(&program(&[0x0050_0513, 0x0010_0073]));
    assert_eq!(cpu.last_instruction(), None);
    assert_eq!(cpu.last_n_instructions(3), vec![None, None, None]);
    run(&mut cpu, 10);
    let last = cpu.last_n_instructions(2);
    assert_eq!(last, vec![Some((0x8000_0000, Instruction::ADDI(10, 0, 5))), Some((0x8000_0004, Instruction::EBREAK()))]);
    assert_eq!(cpu.last_n_instructions(1000).len(), 80);
}

#[test]
fn from_bin_loads_into_rom() {
    let cpu = CPU::from_bin(&[1, 2, 3, 4], Memory::new(Quiet, Quiet), 0x2000_0000, 0x2000_0000);
    assert_eq!(cpu.memory.read_word(0x2000_0000), Ok(0x0403_0201));
    assert_eq!(cpu.register.pc, 0x2000_0000);
}

fn elf_file(entry: u32, paddr: u32, data: &[u8]) -> Vec<u8> {
    let mut f = vec![0x7F, b'E', b'L', b'F', 1, 1, 1, 0, 0, 0, 0, 0, 0, 0, 0, 0];
    f.extend_from_slice(&2u16.to_le_bytes()); // e_type
    f.extend_from_slice(&0xF3u16.to_le_bytes()); // e_machine: RISC-V
    f.extend_from_slice(&1u32.to_le_bytes()); // e_version
    f.extend_from_slice(&entry.to_le_bytes()); // e_entry
    f.extend_from_slice(&52u32.to_le_bytes()); // e_phoff
    f.extend_from_slice(&0u32.to_le_bytes()); // e_shoff
    f.extend_from_slice(&0u32.to_le_bytes()); // e_flags
    f.extend_from_slice(&52u16.to_le_bytes()); // e_ehsize
    f.extend_from_slice(&32u16.to_le_bytes()); // e_phentsize
    f.extend_from_slice(&1u16.to_le_bytes()); // e_phnum
    f.extend_from_slice(&40u16.to_le_bytes()); // e_shentsize
    f.extend_from_slice(&0u16.to_le_bytes()); // e_shnum
    f.extend_from_slice(&0u16.to_le_bytes()); // e_shstrndx
    f.extend_from_slice(&1u32.to_le_bytes()); // p_type: PT_LOAD
    f.extend_from_slice(&84u32.to_le_bytes()); // p_offset
    f.extend_from_slice(&paddr.to_le_bytes()); // p_vaddr
    f.extend_from_slice(&paddr.to_le_bytes()); // p_paddr
    f.extend_from_slice(&(data.len() as u32).to_le_bytes()); // p_filesz
    f.extend_from_slice(&(data.len() as u32).to_le_bytes()); // p_memsz
    f.extend_from_slice(&5u32.to_le_bytes()); // p_flags
    f.extend_from_slice(&4u32.to_le_bytes()); // p_align
    f.extend_from_slice(data);
    f
}

#[test]
fn loads_an_elf_executable() {
    let file = elf_file(0x8000_0000, 0x8000_0000, &program(&[0x0050_0513, 0x0010_0073]));
    let mut cpu = CPU::from_elf(&file, Memory::new(Quiet, Quiet));
    assert_eq!(cpu.register.pc, 0x8000_0000);
    assert_eq!(cpu.register.csr.mie, 1);
    assert_eq!(cpu.memory.read_word(0x8000_0000), Ok(0x0050_0513));
    assert_eq!(run(&mut cpu, 10), 2);
    assert_eq!(cpu.register.read(10), 5);
}

#[test]
fn segment_outside_rom_and_ram_is_skipped() {
    let file = elf_file(0x2000_0000, 0x1000_0000, &[1, 2, 3, 4]);
    let cpu = CPU::try_from_elf(&file, Memory::new(Quiet, Quiet)).unwrap();
    assert_eq!(cpu.register.pc, 0x2000_0000);
    assert_eq!(cpu.memory.read_word(0x2000_0000), Ok(0));
}

#[test]
fn rejects_files_that_cannot_be_loaded() {
    assert!(CPU::try_from_elf(b"not an elf file at all", Memory::new(Quiet, Quiet)).is_none());
    // the segment does not fit at the end of RAM
    let file = elf_file(0x8000_0000, 0x8000_7FFE, &[1, 2, 3, 4]);
    assert!(CPU::try_from_elf(&file, Memory::new(Quiet, Quiet)).is_none());
}

#[test]
fn signed_division_rounds_towards_zero() {
    let mut cpu = cpu_with(&[]);
    cpu.register.write(11, (-7i32) as u32);
    cpu.register.write(12, 2);
    cpu.exec(&Instruction::DIV(10, 11, 12), true, true).unwrap();
    cpu.exec(&Instruction::REM(13, 11, 12), true, true).unwrap();
    assert_eq!(cpu.register.read(10) as i32, -3);
    assert_eq!(cpu.register.read(13) as i32, -1);
    cpu.exec(&Instruction::DIVU(14, 11, 12), true, true).unwrap();
    assert_eq!(cpu.register.read(14), 0xFFFF_FFF9 / 2);
}

#[test]
fn signed_division_overflow() {
    let mut cpu = cpu_with(&[]);
    cpu.register.write(11, 0x8000_0000);
    cpu.register.write(12, 0xFFFF_FFFF);
    cpu.exec(&Instruction::DIV(10, 11, 12), true, true).unwrap();
    cpu.exec(&Instruction::REM(13, 11, 12), true, true).unwrap();
    assert_eq!(cpu.register.read(10), 0x8000_0000);
    assert_eq!(cpu.register.read(13), 0);
}

#[test]
fn multiplication_high_parts() {
    let mut cpu = cpu_with(&[]);
    cpu.register.write(11, 0xFFFF_FFFF);
    cpu.register.write(12, 2);
    cpu.exec(&Instruction::MUL(10, 11, 12), true, true).unwrap();
    assert_eq!(cpu.register.read(10), 0xFFFF_FFFE);
    // -1 * 2 = -2: the high word is all ones
    cpu.exec(&Instruction::MULH(10, 11, 12), true, true).unwrap();
    assert_eq!(cpu.register.read(10), 0xFFFF_FFFF);
    // 0xFFFFFFFF * 2 unsigned: the high word is 1
    cpu.exec(&Instruction::MULHU(10, 11, 12), true, true).unwrap();
    assert_eq!(cpu.register.read(10), 1);
    // -1 * 2 (signed times unsigned): high word all ones
    cpu.exec(&Instruction::MULHSU(10, 11, 12), true, true).unwrap();
    assert_eq!(cpu.register.read(10), 0xFFFF_FFFF);
}

#[test]
fn shifts_and_comparisons() {
    let mut cpu = cpu_with(&[]);
    cpu.register.write(11, 0x8000_0000);
    cpu.exec(&Instruction::SRAI(10, 11, 4), true, true).unwrap();
    assert_eq!(cpu.register.read(10), 0xF800_0000);
    cpu.exec(&Instruction::SRLI(10, 11, 4), true, true).unwrap();
    assert_eq!(cpu.register.read(10), 0x0800_0000);
    cpu.exec(&Instruction::SLTI(10, 11, 0), true, true).unwrap();
    assert_eq!(cpu.register.read(10), 1);
    cpu.exec(&Instruction::SLTIU(10, 11, 0), true, true).unwrap();
    assert_eq!(cpu.register.read(10), 0);
}

#[test]
fn loads_sign_extend() {
    let mut cpu = cpu_with(&[]);
    cpu.memory.write_word(0x8000_0300, 0x0000_80FF).unwrap();
    cpu.register.write(11, 0x8000_0300);
    cpu.exec(&Instruction::LB(10, 11, 0), true, true).unwrap();
    assert_eq!(cpu.register.read(10), 0xFFFF_FFFF);
    cpu.exec(&Instruction::LBU(10, 11, 0), true, true).unwrap();
    assert_eq!(cpu.register.read(10), 0xFF);
    cpu.exec(&Instruction::LH(10, 11, 0), true, true).unwrap();
    assert_eq!(cpu.register.read(10), 0xFFFF_80FF);
    cpu.exec(&Instruction::LHU(10, 11, 0), true, true).unwrap();
    assert_eq!(cpu.register.read(10), 0x80FF);
}

#[test]
fn jal_and_jalr_link() {
    let mut cpu = cpu_with(&[]);
    cpu.exec(&Instruction::JAL(1, 16), true, true).unwrap();
    assert_eq!(cpu.register.pc, 0x8000_0010);
    assert_eq!(cpu.register.read(1), 0x8000_0004);
    cpu.register.write(5, 0x8000_0101);
    cpu.exec(&Instruction::JALR(1, 5, 2), true, true).unwrap();
    assert_eq!(cpu.register.pc, 0x8000_0102);
    assert_eq!(cpu.register.read(1), 0x8000_0014);
    cpu.register.csr.mepc = 0x8000_0040;
    cpu.exec(&Instruction::MRET(), true, true).unwrap();
    assert_eq!(cpu.register.pc, 0x8000_0040);
}

#[test]
fn fetch_failures_are_reported() {
    // nothing is mapped at 0x40000000: the upper halfword's upper byte is read first
    let mut cpu = CPU::from_bin(&[], Memory::new(Quiet, Quiet), 0x4000_0000, 0x8000_0000);
    match cpu.step() {
        Err(CpuError::Memory(e)) => {
            assert_eq!(e, MemoryError::Read(0x4000_0003));
            assert_eq!(
                CpuError::Memory(e).message(),
                "Memory: attempted read outside memory map at address: 0x40000003"
            );
        }
        _ => panic!("the fetch fails"),
    }
    // zeroed RAM holds no instruction
    let mut cpu = cpu_with(&[]);
    match cpu.step() {
        Err(err @ CpuError::Decode(_)) => assert_eq!(err.message(), "Instruction is zero"),
        _ => panic!("decoding fails"),
    }
    assert_eq!(cpu.register.pc, 0x8000_0000);
}

#[test]
fn runs_until_ebreak() {
    // addi a0, zero, 5 ; ebreak ; addi a0, zero, 1
    let mut cpu = cpu_with(&program(&[0x0050_0513, 0x0010_0073, 0x0010_0513]));
    assert_eq!(cpu.run_steps(0).unwrap(), true);
    assert_eq!(cpu.register.pc, 0x8000_0000);
    assert_eq!(cpu.run_steps(1).unwrap(), true);
    assert_eq!(cpu.register.pc, 0x8000_0004);
    assert_eq!(cpu.run_steps(10).unwrap(), false);
    assert_eq!(cpu.register.pc, 0x8000_0008);
    assert_eq!(cpu.register.read(10), 5);
}

#[test]
fn interrupt_taken_only_when_one_is_pending() {
    let mut cpu = cpu_with(&[]);
    cpu.register.csr.mtvec = 0x8000_0080;
    assert!(!cpu.take_interrupt(None));
    assert_eq!(cpu.register.pc, 0x8000_0000);
    assert!(cpu.take_interrupt(Some(IrqCause::Uart)));
    assert_eq!(cpu.register.pc, 0x8000_0080);
    assert_eq!(cpu.register.csr.mepc, 0x8000_0000);
    assert_eq!(cpu.register.csr.mcause, 0x8000_000B);
}

#[test]
fn csrrw_swaps_register_and_csr() {
    let mut cpu = cpu_with(&[]);
    cpu.register.write(5, 0x1234);
    cpu.register.csr.mscratch = 0x5678;
    // csrrw t0, mscratch, t0
    cpu.exec(&Instruction::CSRRW(5, 5, 0x340), true, true).unwrap();
    assert_eq!(cpu.register.read(5), 0x5678);
    assert_eq!(cpu.register.csr.mscratch, 0x1234);
    // csrrs t0, mscratch, t0 reads the old value and sets the bits of the old t0
    cpu.exec(&Instruction::CSRRS(5, 5, 0x340), true, true).unwrap();
    assert_eq!(cpu.register.read(5), 0x1234);
    assert_eq!(cpu.register.csr.mscratch, 0x1234 | 0x5678);
}

#[test]
fn compressed_ebreak_ends_the_program() {
    // addi a0, zero, 5 ; c.ebreak ; addi a0, zero, 1
    let mut code = program(&[0x0050_0513]);
    code.extend_from_slice(&0x9002u16.to_le_bytes());
    code.extend_from_slice(&0x0010_0513u32.to_le_bytes());
    let mut cpu = cpu_with(&code);
    assert_eq!(run(&mut cpu, 10), 2);
    assert_eq!(cpu.register.read(10), 5);
    assert_eq!(cpu.register.pc, 0x8000_0006);
}

#[test]
fn run_outcomes_are_reported() {
    assert_eq!(run_report(&Ok(true)), RunReport::Continue);
    assert_eq!(run_report(&Ok(false)), RunReport::Finished);
    assert_eq!(
        run_report(&Err(CpuError::Decode("Instruction is zero"))),
        RunReport::Failed("Instruction is zero".to_owned())
    );
    assert_eq!(
        run_report(&Err(CpuError::Memory(MemoryError::Read(0x10)))),
        RunReport::Failed(CpuError::Memory(MemoryError::Read(0x10)).message())
    );
}
