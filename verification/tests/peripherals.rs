use triops::events::IrqCause;
use triops::memory::{Memory, MmapPeripheral};

/// A peripheral whose registers read as `tag` plus their offset, and which
/// records every write it gets.
struct Recorder {
    tag: u8,
    writes: Vec<(usize, u8)>,
    pending: Option<IrqCause>,
}

impl MmapPeripheral for Recorder {
    fn read_byte(&self, offset: usize) -> u8 {
        self.tag + offset as u8
    }
    fn write_byte(&mut self, offset: usize, value: u8) {
        self.writes.push((offset, value));
    }
    fn pending_interrupt(&self) -> Option<IrqCause> {
        self.pending
    }
}

fn recorder(tag: u8, pending: Option<IrqCause>) -> Recorder {
    Recorder { tag, writes: Vec::new(), pending }
}

#[test]
fn uart_reads_go_to_their_own_peripheral_and_offset() {
    let m = Memory::new(recorder(0x10, None), recorder(0x40, None));
    assert_eq!(m.read_byte(0x1001_3000), Ok(0x10));
    assert_eq!(m.read_byte(0x1001_3004), Ok(0x14));
    assert_eq!(m.read_byte(0x1002_3000), Ok(0x40));
    assert_eq!(m.read_byte(0x1002_301B), Ok(0x5B));
}

#[test]
fn uart_writes_send_the_low_byte_to_the_offset() {
    let mut m = Memory::new(recorder(0, None), recorder(0, None));
    assert_eq!(m.write_byte(0x1001_3003, 0x1234_56AB), Ok(()));
    assert_eq!(m.uart0.writes, vec![(3, 0xAB)]);
    assert!(m.uart1.writes.is_empty());
    assert_eq!(m.write_byte(0x1002_3000, 0x41), Ok(()));
    assert_eq!(m.uart1.writes, vec![(0, 0x41)]);
    assert_eq!(m.uart0.writes, vec![(3, 0xAB)]);
}

#[test]
fn uart_word_write_goes_byte_by_byte() {
    let mut m = Memory::new(recorder(0, None), recorder(0, None));
    assert_eq!(m.write_word(0x1001_3000, 0x1122_3344), Ok(()));
    assert_eq!(m.uart0.writes, vec![(0, 0x44), (1, 0x33), (2, 0x22), (3, 0x11)]);
}

#[test]
fn claim_register_names_the_interrupting_uart() {
    let none = Memory::new(recorder(0, None), recorder(0, None));
    assert_eq!(none.read_byte(0x0C20_0004), Ok(0));
    assert_eq!(none.pending_interrupt(), None);
    let second = Memory::new(recorder(0, None), recorder(0, Some(IrqCause::Uart)));
    assert_eq!(second.read_byte(0x0C20_0004), Ok(4));
    assert_eq!(second.pending_interrupt(), Some(IrqCause::Uart));
    let both = Memory::new(recorder(0, Some(IrqCause::Timer)), recorder(0, Some(IrqCause::Uart)));
    assert_eq!(both.read_byte(0x0C20_0004), Ok(3));
    assert_eq!(both.pending_interrupt(), Some(IrqCause::Timer));
}

#[test]
fn peripheral_halfword_and_word_writes() {
    let mut p = recorder(0, None);
    p.write_halfword(4, 0xBEEF);
    assert_eq!(p.writes, vec![(4, 0xEF), (5, 0xBE)]);
    let mut q = recorder(0, None);
    q.write_word(8, 0x1234);
    assert_eq!(q.writes, vec![(8, 0x34), (9, 0x12), (10, 0), (11, 0)]);
}
