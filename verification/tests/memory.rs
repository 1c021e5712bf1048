use triops::events::IrqCause;
use triops::memory::{first_pending, Memory, MemoryError, MmapPeripheral};

struct Quiet;

impl MmapPeripheral for Quiet {
    fn read_byte(&self, _offset: usize) -> u8 {
        0x5A
    }
    fn write_byte(&mut self, _offset: usize, _value: u8) {}
    fn pending_interrupt(&self) -> Option<IrqCause> {
        None
    }
}

fn memory() -> Memory<Quiet> {
    Memory::new(Quiet, Quiet)
}

#[test]
fn word_written_to_ram_reads_back() {
    let mut m = memory();
    assert_eq!(m.write_word(0x8000_0010, 0xDEAD_BEEF), Ok(()));
    assert_eq!(m.read_word(0x8000_0010), Ok(0xDEAD_BEEF));
    assert_eq!(m.read_halfword(0x8000_0010), Ok(0xBEEF));
    assert_eq!(m.read_halfword(0x8000_0012), Ok(0xDEAD));
    assert_eq!(m.read_byte(0x8000_0010), Ok(0xEF));
    assert_eq!(m.read_byte(0x8000_0013), Ok(0xDE));
}

#[test]
fn byte_write_changes_one_byte() {
    let mut m = memory();
    m.write_word(0x8000_0000, 0x1122_3344).unwrap();
    m.write_byte(0x8000_0001, 0xAB).unwrap();
    assert_eq!(m.read_word(0x8000_0000), Ok(0x1122_AB44));
}

#[test]
fn rom_is_not_writable() {
    let mut m = memory();
    assert_eq!(m.write_word(0x2000_0000, 1), Err(MemoryError::Write(0x2000_0000)));
    assert_eq!(m.read_word(0x2000_0000), Ok(0));
}

#[test]
fn loading_fills_rom_and_ram() {
    let mut m = memory();
    m.load_at(0x2000_0004, &[1, 2, 3, 4]);
    assert_eq!(m.read_word(0x2000_0004), Ok(0x0403_0201));
    m.load_at(0x8000_7FFC, &[0xAA, 0xBB, 0xCC, 0xDD]);
    assert_eq!(m.read_word(0x8000_7FFC), Ok(0xDDCC_BBAA));
}

#[test]
fn reads_outside_the_map_fail() {
    let m = memory();
    assert_eq!(m.read_byte(0x4000_0000), Err(MemoryError::Read(0x4000_0000)));
    assert_eq!(m.read_byte(0x0200_0010), Err(MemoryError::ClicRead(0x0200_0010)));
}

#[test]
fn error_messages_name_the_address() {
    assert_eq!(
        MemoryError::Read(0x4000_0000).message(),
        "Memory: attempted read outside memory map at address: 0x40000000"
    );
    assert_eq!(
        MemoryError::Write(0x10).message(),
        "Memory: attempted write outside writable memory map at address: 0x00000010"
    );
}

#[test]
fn peripheral_registers() {
    let mut m = memory();
    assert_eq!(m.read_byte(0x1001_3000), Ok(0x5A));
    assert_eq!(m.read_byte(0x1001_2000), Ok(0xFF));
    assert_eq!(m.read_byte(0x0200_BFF8), Ok(0));
    assert_eq!(m.write_byte(0x0200_4000, 7), Ok(()));
}

#[test]
fn reservation_is_kept_until_dropped() {
    let mut m = memory();
    assert_eq!(m.get_reservation(), None);
    m.set_reservation(0x8000_0000, 42);
    assert_eq!(m.get_reservation(), Some((0x8000_0000, 42)));
    m.del_reservation();
    assert_eq!(m.get_reservation(), None);
}

#[test]
fn address_ranges() {
    let m = memory();
    assert!(m.is_ram(0x8000_0000));
    assert!(!m.is_ram(0x8000_8000));
    assert!(m.is_rom(0x3FFF_FFFF));
    assert!(m.is_uart0(0x1001_301B));
    assert!(m.is_uart1(0x1002_3000));
    assert!(m.is_clic(0x0200_0000));
}

#[test]
fn first_pending_interrupt_wins() {
    assert_eq!(first_pending(Some(IrqCause::Timer), Some(IrqCause::Uart)), Some(IrqCause::Timer));
    assert_eq!(first_pending(None, Some(IrqCause::Uart)), Some(IrqCause::Uart));
    assert_eq!(first_pending(None, None), None);
    assert_eq!(memory().pending_interrupt(), None);
}
