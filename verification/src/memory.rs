//! The memory map of the SiFive HiFive1 Rev B board: RAM, ROM (flash), the
//! two UARTs and the registers of the other peripherals, as far as they are
//! emulated.
use vstd::prelude::*;

use crate::events::IrqCause;
use crate::text::{hex_min, push_hex_min};

verus! {

/// A memory mapped peripheral. Its register block is addressed by the offset
/// from its base address.
///
/// An implementation may say, by its own spec functions, which bytes a read
/// can give, which states a write can lead to and which interrupt can be
/// reported. These are relations, not functions: a peripheral that answers
/// from a queue filled by another thread may give different answers in what
/// looks like the same state.
pub trait MmapPeripheral: Sized {
    /// `v` is a byte that a read of the register at `offset` can give; any
    /// byte, unless the implementation says more.
    open spec fn can_read(&self, offset: usize, v: u8) -> bool {
        true
    }

    /// `new` is a state the peripheral can be in after `value` is written to
    /// the register at `offset`; any state, unless the implementation says more.
    open spec fn can_write(&self, offset: usize, value: u8, new: Self) -> bool {
        true
    }

    /// `p` is what the peripheral can report as its pending interrupt; any
    /// report, unless the implementation says more.
    open spec fn can_pend(&self, p: Option<IrqCause>) -> bool {
        true
    }

    /// Reads the byte at `offset`.
    fn read_byte(&self, offset: usize) -> (v: u8)
        ensures
            self.can_read(offset, v),
    ;

    /// Writes `value` to the byte at `offset`.
    fn write_byte(&mut self, offset: usize, value: u8)
        ensures
            old(self).can_write(offset, value, *final(self)),
    ;

    /// Writes the low byte of `value` at `index`, then its high byte at
    /// `index + 1`; `value` must fit in these two bytes.
    fn write_halfword(&mut self, index: usize, value: u32)
        requires
            index < usize::MAX,
            value < 0x1_0000,
        ensures
            exists|mid: Self|
                old(self).can_write(index, value as u8, mid) && #[trigger] mid.can_write(
                    (index + 1) as usize,
                    (value >> 8) as u8,
                    *final(self),
                ),
    {
        assert(value >> 8 < 0x100) by (bit_vector)
            requires
                value < 0x1_0000,
        ;
        self.write_byte(index, value as u8);
        let ghost mid = *self;
        self.write_byte(index + 1, (value >> 8) as u8);
        assert(old(self).can_write(index, value as u8, mid));
    }

    /// Writes `value` as a halfword at `index` and its upper half as a
    /// halfword at `index + 2`. As the first halfword takes all of `value`,
    /// `value` must fit in a halfword, and zeros go to the upper two bytes.
    fn write_word(&mut self, index: usize, value: u32)
        requires
            index < usize::MAX - 2,
            value < 0x1_0000,
        ensures
            exists|m1: Self, m2: Self, m3: Self|
                old(self).can_write(index, value as u8, m1) && #[trigger] m1.can_write(
                    (index + 1) as usize,
                    (value >> 8) as u8,
                    m2,
                ) && #[trigger] m2.can_write((index + 2) as usize, 0, m3) && #[trigger] m3.can_write(
                    (index + 3) as usize,
                    0,
                    *final(self),
                ),
    {
        assert(value >> 16 == 0 && 0u32 as u8 == 0u8 && (0u32 >> 8) as u8 == 0u8) by (bit_vector)
            requires
                value < 0x1_0000,
        ;
        self.write_halfword(index, value);
        let ghost h = *self;
        self.write_halfword(index + 2, value >> 16);
        let ghost m1 = choose|m1: Self|
            old(self).can_write(index, value as u8, m1) && #[trigger] m1.can_write(
                (index + 1) as usize,
                (value >> 8) as u8,
                h,
            );
        let ghost m3 = choose|m3: Self|
            h.can_write((index + 2) as usize, 0u32 as u8, m3) && #[trigger] m3.can_write(
                (index + 3) as usize,
                (0u32 >> 8) as u8,
                *self,
            );
        assert(m1.can_write((index + 1) as usize, (value >> 8) as u8, h) && h.can_write((index + 2) as usize, 0, m3)
            && m3.can_write((index + 3) as usize, 0, *self));
    }

    /// The interrupt that the peripheral raises, if any.
    fn pending_interrupt(&self) -> (p: Option<IrqCause>)
        ensures
            self.can_pend(p),
    ;
}

pub const CLIC_BASE: usize = 0x200_0000;
pub const CLIC_LIMIT: usize = 0x200_C000;
pub const UART0_BASE: usize = 0x1001_3000;
pub const UART0_LIMIT: usize = 0x1001_301C;
pub const UART1_BASE: usize = 0x1002_3000;
pub const UART1_LIMIT: usize = 0x1002_301C;
pub const ROM_BASE: usize = 0x2000_0000;
pub const ROM_LIMIT: usize = 0x4000_0000;
pub const RAM_BASE: usize = 0x8000_0000;
pub const RAM_LIMIT: usize = 0x8000_8000;

/// An access outside the memory map.
#[derive(Debug, Clone, Copy, PartialEq, Eq, Structural)]
pub enum MemoryError {
    /// A read inside the CLIC block but not of one of its emulated registers.
    ClicRead(usize),
    /// A read outside the readable memory map.
    Read(usize),
    /// A write outside the writable memory map.
    Write(usize),
}

impl MemoryError {
    /// The text of the error, naming the address in at least eight upper case hex digits.
    pub open spec fn text(self) -> Seq<char> {
        match self {
            MemoryError::ClicRead(addr) => "Clic: attempted read outside memory map at address: 0x"@
                + hex_min(addr as nat, 8),
            MemoryError::Read(addr) => "Memory: attempted read outside memory map at address: 0x"@
                + hex_min(addr as nat, 8),
            MemoryError::Write(addr) => "Memory: attempted write outside writable memory map at address: 0x"@
                + hex_min(addr as nat, 8),
        }
    }

    /// Returns the text of the error; see `text`.
    pub fn message(&self) -> (s: String)
        ensures
            s@ == self.text(),
    {
        let mut s = String::new();
        let addr = match *self {
            MemoryError::ClicRead(addr) => {
                s.append("Clic: attempted read outside memory map at address: 0x");
                addr
            },
            MemoryError::Read(addr) => {
                s.append("Memory: attempted read outside memory map at address: 0x");
                addr
            },
            MemoryError::Write(addr) => {
                s.append("Memory: attempted write outside writable memory map at address: 0x");
                addr
            },
        };
        push_hex_min(&mut s, addr as u64, 8);
        s
    }
}

pub open spec fn in_ram(addr: usize) -> bool {
    RAM_BASE <= addr < RAM_LIMIT
}

pub open spec fn in_rom(addr: usize) -> bool {
    ROM_BASE <= addr < ROM_LIMIT
}

pub open spec fn in_uart0(addr: usize) -> bool {
    UART0_BASE <= addr < UART0_LIMIT
}

pub open spec fn in_uart1(addr: usize) -> bool {
    UART1_BASE <= addr < UART1_LIMIT
}

pub open spec fn in_clic(addr: usize) -> bool {
    CLIC_BASE <= addr < CLIC_LIMIT
}

/// The claim register of the PLIC, which tells which UART interrupts.
pub open spec fn is_plic_claim(addr: usize) -> bool {
    addr == 0x0C20_0004
}

/// Peripheral registers that read as a constant: the rest of the PLIC, the
/// RTC and the real time timer (0), the PRCI clock registers and the GPIO block (`0xFF`).
pub open spec fn constant_register(addr: usize) -> Option<u32> {
    if 0x0C00_0000 <= addr <= 0x0FFF_FFFF {
        Some(0)
    } else if 0x1000_0040 <= addr <= 0x1000_0080 {
        Some(0)
    } else if 0x1000_8000 <= addr <= 0x1000_800F {
        Some(0xFF)
    } else if 0x1001_2000 <= addr <= 0x1001_2FFF {
        Some(0xFF)
    } else {
        None
    }
}

/// Peripheral registers whose writes are accepted and dropped: the PLIC, the
/// RTC, the PRCI, the GPIO block and the `mtime` and `mtimecmp` registers.
pub open spec fn write_ignored(addr: usize) -> bool {
    ||| 0x0C00_0000 <= addr <= 0x0FFF_FFFF
    ||| 0x1000_0040 <= addr <= 0x1000_0080
    ||| 0x1000_8000 <= addr <= 0x1000_800F
    ||| 0x1001_2000 <= addr <= 0x1001_2FFF
    ||| 0x0200_BFF8 <= addr <= 0x0200_BFFF
    ||| 0x0200_4000 <= addr <= 0x0200_4007
}

/// Where a byte read is answered from.
pub enum ByteSource {
    /// A value fixed by the memory's contents or the memory map.
    Value(u32),
    /// The register of UART0 at this offset.
    Uart0(usize),
    /// The register of UART1 at this offset.
    Uart1(usize),
    /// The PLIC claim register: 3 while UART0 has an interrupt pending, else
    /// 4 while UART1 has one, else 0.
    Claim,
    Fault(MemoryError),
}

/// A result of reading up to four bytes, put together from its parts:
/// the more significant part is read first, and an error stops the read.
pub open spec fn combine(hi: Result<u32, MemoryError>, lo: Result<u32, MemoryError>, shift: nat) -> Result<u32, MemoryError> {
    match hi {
        Err(e) => Err(e),
        Ok(h) => match lo {
            Err(e) => Err(e),
            Ok(l) => Ok((h as int * vstd::arithmetic::power2::pow2(shift) as int + l as int) as u32),
        },
    }
}

/// The interrupt reported by the first of two peripherals that has one
/// pending: `first` where it is one, else `second`.
pub fn first_pending(first: Option<IrqCause>, second: Option<IrqCause>) -> (r: Option<IrqCause>)
    ensures
        r == (if first is Some { first } else { second }),
{
    if first.is_some() {
        return first;
    }
    if second.is_some() {
        return second;
    }
    None
}

/// The memory: RAM, ROM, the two UARTs and the reservation of `lr.w`.
pub struct Memory<T> {
    pub uart0: T,
    pub uart1: T,
    pub ram: Vec<u8>,
    pub rom: Vec<u8>,
    pub reservation: Option<(usize, u32)>,
}

/// The parts of two memories that the emulator tells apart are the same.
pub open spec fn mem_same<T: MmapPeripheral>(a: Memory<T>, b: Memory<T>) -> bool {
    &&& a.ram@ == b.ram@
    &&& a.rom@ == b.rom@
    &&& a.uart0 == b.uart0
    &&& a.uart1 == b.uart1
    &&& a.reservation == b.reservation
}

impl<T: MmapPeripheral> Memory<T> {
    /// RAM and ROM have the sizes of their address ranges.
    pub open spec fn wf(self) -> bool {
        &&& self.ram@.len() == RAM_LIMIT - RAM_BASE
        &&& self.rom@.len() == ROM_LIMIT - ROM_BASE
    }

    /// Where the byte at `addr` is read from.
    pub open spec fn byte_source(self, addr: usize) -> ByteSource {
        if in_ram(addr) {
            ByteSource::Value(self.ram@[addr - RAM_BASE] as u32)
        } else if in_rom(addr) {
            ByteSource::Value(self.rom@[addr - ROM_BASE] as u32)
        } else if in_uart0(addr) {
            ByteSource::Uart0((addr - UART0_BASE) as usize)
        } else if in_uart1(addr) {
            ByteSource::Uart1((addr - UART1_BASE) as usize)
        } else if in_clic(addr) {
            if addr == 0x200_0000 || addr == 0x200_4000 || addr == 0x200_BFF8 {
                ByteSource::Value(0)
            } else {
                ByteSource::Fault(MemoryError::ClicRead(addr))
            }
        } else if is_plic_claim(addr) {
            ByteSource::Claim
        } else if constant_register(addr) is Some {
            ByteSource::Value(constant_register(addr)->Some_0)
        } else {
            ByteSource::Fault(MemoryError::Read(addr))
        }
    }

    /// `r` is a possible result of reading the byte at `addr`.
    pub open spec fn reads_byte(self, addr: usize, r: Result<u32, MemoryError>) -> bool {
        match self.byte_source(addr) {
            ByteSource::Value(v) => r == Ok::<u32, MemoryError>(v),
            ByteSource::Fault(e) => r == Err::<u32, MemoryError>(e),
            ByteSource::Uart0(offset) => r is Ok && r->Ok_0 < 256 && self.uart0.can_read(offset, r->Ok_0 as u8),
            ByteSource::Uart1(offset) => r is Ok && r->Ok_0 < 256 && self.uart1.can_read(offset, r->Ok_0 as u8),
            ByteSource::Claim => self.claims(r),
        }
    }

    /// `r` is a possible answer of the PLIC claim register: 3 where UART0
    /// reports an interrupt, else 4 where UART1 reports one, else 0.
    pub open spec fn claims(self, r: Result<u32, MemoryError>) -> bool {
        ||| r == Ok::<u32, MemoryError>(3) && exists|c: IrqCause| #[trigger] self.uart0.can_pend(Some(c))
        ||| r == Ok::<u32, MemoryError>(4) && self.uart0.can_pend(None) && exists|c: IrqCause| #[trigger] self.uart1.can_pend(Some(c))
        ||| r == Ok::<u32, MemoryError>(0) && self.uart0.can_pend(None) && self.uart1.can_pend(None)
    }

    /// `r` is a possible answer of `pending_interrupt`: what UART0 reports
    /// where it reports an interrupt, else what UART1 reports.
    pub open spec fn pends(self, r: Option<IrqCause>) -> bool {
        ||| r is Some && self.uart0.can_pend(r)
        ||| self.uart0.can_pend(None) && self.uart1.can_pend(r)
    }

    /// `r` is a possible result of reading the byte at `hi_addr`, then, if that
    /// succeeded, the byte at `lo_addr`, and putting them together.
    pub open spec fn reads_byte_pair(self, hi_addr: usize, lo_addr: usize, r: Result<u32, MemoryError>) -> bool {
        exists|hi: Result<u32, MemoryError>|
            #[trigger] self.reads_byte(hi_addr, hi) && match hi {
                Err(e) => r == Err::<u32, MemoryError>(e),
                Ok(_) => exists|lo: Result<u32, MemoryError>|
                    #[trigger] self.reads_byte(lo_addr, lo) && r == combine(hi, lo, 8),
            }
    }

    /// `r` is a possible result of reading the little endian halfword at `index`.
    pub open spec fn reads_halfword(self, index: usize, r: Result<u32, MemoryError>) -> bool {
        self.reads_byte_pair((index + 1) as usize, index, r)
    }

    /// `r` is a possible result of reading the halfword at `hi_addr`, then, if
    /// that succeeded, the halfword at `lo_addr`, and putting them together.
    pub open spec fn reads_halfword_pair(self, hi_addr: usize, lo_addr: usize, r: Result<u32, MemoryError>) -> bool {
        exists|hi: Result<u32, MemoryError>|
            #[trigger] self.reads_halfword(hi_addr, hi) && match hi {
                Err(e) => r == Err::<u32, MemoryError>(e),
                Ok(_) => exists|lo: Result<u32, MemoryError>|
                    #[trigger] self.reads_halfword(lo_addr, lo) && r == combine(hi, lo, 16),
            }
    }

    /// `r` is a possible result of reading the little endian word at `index`.
    pub open spec fn reads_word(self, index: usize, r: Result<u32, MemoryError>) -> bool {
        self.reads_halfword_pair((index + 2) as usize, index, r)
    }

    /// `new` is a possible state after writing the low byte of `value` to
    /// `addr` with result `r`. ROM is never written.
    pub open spec fn writes_byte(self, new: Memory<T>, addr: usize, value: u32, r: Result<(), MemoryError>) -> bool {
        &&& new.rom@ == self.rom@
        &&& new.reservation == self.reservation
        &&& if in_ram(addr) {
            &&& r is Ok
            &&& new.ram@ == self.ram@.update(addr - RAM_BASE, (value & 0xFF) as u8)
            &&& new.uart0 == self.uart0
            &&& new.uart1 == self.uart1
        } else if in_uart0(addr) {
            &&& r is Ok
            &&& new.ram@ == self.ram@
            &&& self.uart0.can_write((addr - UART0_BASE) as usize, (value & 0xFF) as u8, new.uart0)
            &&& new.uart1 == self.uart1
        } else if in_uart1(addr) {
            &&& r is Ok
            &&& new.ram@ == self.ram@
            &&& new.uart0 == self.uart0
            &&& self.uart1.can_write((addr - UART1_BASE) as usize, (value & 0xFF) as u8, new.uart1)
        } else {
            &&& r == (if write_ignored(addr) {
                Ok::<(), MemoryError>(())
            } else {
                Err::<(), MemoryError>(MemoryError::Write(addr))
            })
            &&& mem_same(new, self)
        }
    }

    /// `new` is a possible state after writing the low byte of `value` to
    /// `first`, then, if that succeeded, the low byte of `value >> 8` to
    /// `second`, with result `r`.
    pub open spec fn writes_byte_pair(self, new: Memory<T>, first: usize, second: usize, value: u32, r: Result<(), MemoryError>) -> bool {
        exists|mid: Memory<T>, r1: Result<(), MemoryError>|
            #![trigger self.writes_byte(mid, first, value, r1)]
            self.writes_byte(mid, first, value, r1) && match r1 {
                Err(e) => r == r1 && mem_same(new, mid),
                Ok(_) => mid.writes_byte(new, second, value >> 8, r),
            }
    }

    /// `new` is a possible state after writing the low halfword of `value` to
    /// `index`, low byte first, with result `r`; an error stops the write.
    pub open spec fn writes_halfword(self, new: Memory<T>, index: usize, value: u32, r: Result<(), MemoryError>) -> bool {
        self.writes_byte_pair(new, index, (index + 1) as usize, value, r)
    }

    /// `new` is a possible state after writing the low halfword of `value` to
    /// `first`, then, if that succeeded, the low halfword of `value >> 16` to
    /// `second`, with result `r`.
    pub open spec fn writes_halfword_pair(self, new: Memory<T>, first: usize, second: usize, value: u32, r: Result<(), MemoryError>) -> bool {
        exists|mid: Memory<T>, r1: Result<(), MemoryError>|
            #![trigger self.writes_halfword(mid, first, value, r1)]
            self.writes_halfword(mid, first, value, r1) && match r1 {
                Err(e) => r == r1 && mem_same(new, mid),
                Ok(_) => mid.writes_halfword(new, second, value >> 16, r),
            }
    }

    /// `new` is a possible state after writing `value` as a little endian word
    /// to `index`, low halfword first, with result `r`; an error stops the write.
    pub open spec fn writes_word(self, new: Memory<T>, index: usize, value: u32, r: Result<(), MemoryError>) -> bool {
        self.writes_halfword_pair(new, index, (index + 2) as usize, value, r)
    }
}

impl<T: MmapPeripheral> Memory<T> {
    /// The memory map of the board with the two given UARTs, 32 KiB of RAM
    /// and 512 MiB of ROM, both zeroed, and no reservation.
    pub fn new(uart0: T, uart1: T) -> (m: Self)
        ensures
            m.wf(),
            m.uart0 == uart0,
            m.uart1 == uart1,
            m.ram@ == Seq::new((RAM_LIMIT - RAM_BASE) as nat, |i: int| 0u8),
            m.rom@ == Seq::new((ROM_LIMIT - ROM_BASE) as nat, |i: int| 0u8),
            m.reservation is None,
    {
        let m = Self {
            uart0,
            uart1,
            rom: vec![0u8; 0x2000_0000],
            ram: vec![0u8; 0x8000],
            reservation: None,
        };
        assert(m.ram@ =~= Seq::new((RAM_LIMIT - RAM_BASE) as nat, |i: int| 0u8));
        assert(m.rom@ =~= Seq::new((ROM_LIMIT - ROM_BASE) as nat, |i: int| 0u8));
        m
    }

    pub fn is_uart0(&self, addr: usize) -> (r: bool)
        ensures
            r == in_uart0(addr),
    {
        UART0_BASE <= addr && addr < UART0_LIMIT
    }

    pub fn is_uart1(&self, addr: usize) -> (r: bool)
        ensures
            r == in_uart1(addr),
    {
        UART1_BASE <= addr && addr < UART1_LIMIT
    }

    pub fn is_clic(&self, addr: usize) -> (r: bool)
        ensures
            r == in_clic(addr),
    {
        CLIC_BASE <= addr && addr < CLIC_LIMIT
    }

    pub fn is_ram(&self, addr: usize) -> (r: bool)
        ensures
            r == in_ram(addr),
    {
        RAM_BASE <= addr && addr < RAM_LIMIT
    }

    pub fn is_rom(&self, addr: usize) -> (r: bool)
        ensures
            r == in_rom(addr),
    {
        ROM_BASE <= addr && addr < ROM_LIMIT
    }

    /// Records the reservation of `lr.w`: the address and the word read there.
    pub fn set_reservation(&mut self, addr: usize, value: u32)
        ensures
            final(self).reservation == Some((addr, value)),
            final(self).ram == old(self).ram,
            final(self).rom == old(self).rom,
            final(self).uart0 == old(self).uart0,
            final(self).uart1 == old(self).uart1,
    {
        self.reservation = Some((addr, value));
    }

    pub fn get_reservation(&self) -> (r: Option<(usize, u32)>)
        ensures
            r == self.reservation,
    {
        self.reservation
    }

    /// Drops the reservation.
    pub fn del_reservation(&mut self)
        ensures
            final(self).reservation is None,
            final(self).ram == old(self).ram,
            final(self).rom == old(self).rom,
            final(self).uart0 == old(self).uart0,
            final(self).uart1 == old(self).uart1,
    {
        self.reservation = None;
    }

    /// The interrupt pending at UART0, else the one pending at UART1, else `None`.
    /// UART1 is asked only where UART0 reports none; see `first_pending`.
    pub fn pending_interrupt(&self) -> (r: Option<IrqCause>)
        ensures
            self.pends(r),
    {
        let i0 = self.uart0.pending_interrupt();
        let i1 = if i0.is_some() {
            None
        } else {
            self.uart1.pending_interrupt()
        };
        first_pending(i0, i1)
    }

    /// Copies `data` into RAM from `offset` on.
    pub fn load_ram_at(&mut self, offset: usize, data: &[u8])
        requires
            old(self).wf(),
            offset + data@.len() <= old(self).ram@.len(),
        ensures
            final(self).wf(),
            final(self).ram@ == old(self).ram@.take(offset as int) + data@ + old(self).ram@.skip(offset + data@.len()),
            final(self).rom == old(self).rom,
            final(self).uart0 == old(self).uart0,
            final(self).uart1 == old(self).uart1,
            final(self).reservation == old(self).reservation,
    {
        let mut x: usize = 0;
        while x < data.len()
            invariant
                self.wf(),
                x <= data@.len(),
                offset + data@.len() <= self.ram@.len(),
                offset + data@.len() <= old(self).ram@.len(),
                self.ram@ == old(self).ram@.take(offset as int) + data@.take(x as int) + old(self).ram@.skip(offset + x),
                self.rom == old(self).rom,
                self.uart0 == old(self).uart0,
                self.uart1 == old(self).uart1,
                self.reservation == old(self).reservation,
            decreases data@.len() - x,
        {
            let ghost prev = self.ram@;
            self.ram.set(offset + x, data[x]);
            assert(self.ram@ == prev.update((offset + x) as int, data@[x as int]));
            proof {
                lemma_splice_step(old(self).ram@, data@, offset as int, x as int);
            }
            x = x + 1;
        }
        assert(data@.take(x as int) =~= data@);
    }

    /// Copies `data` into ROM from `offset` on.
    pub fn load_rom_at(&mut self, offset: usize, data: &[u8])
        requires
            old(self).wf(),
            offset + data@.len() <= old(self).rom@.len(),
        ensures
            final(self).wf(),
            final(self).rom@ == old(self).rom@.take(offset as int) + data@ + old(self).rom@.skip(offset + data@.len()),
            final(self).ram == old(self).ram,
            final(self).uart0 == old(self).uart0,
            final(self).uart1 == old(self).uart1,
            final(self).reservation == old(self).reservation,
    {
        let mut x: usize = 0;
        while x < data.len()
            invariant
                self.wf(),
                x <= data@.len(),
                offset + data@.len() <= self.rom@.len(),
                offset + data@.len() <= old(self).rom@.len(),
                self.rom@ == old(self).rom@.take(offset as int) + data@.take(x as int) + old(self).rom@.skip(offset + x),
                self.ram == old(self).ram,
                self.uart0 == old(self).uart0,
                self.uart1 == old(self).uart1,
                self.reservation == old(self).reservation,
            decreases data@.len() - x,
        {
            let ghost prev = self.rom@;
            self.rom.set(offset + x, data[x]);
            assert(self.rom@ == prev.update((offset + x) as int, data@[x as int]));
            proof {
                lemma_splice_step(old(self).rom@, data@, offset as int, x as int);
            }
            x = x + 1;
        }
        assert(data@.take(x as int) =~= data@);
    }

    /// Copies `data` to the address `addr` in RAM or ROM; all of it must fit there.
    pub fn load_at(&mut self, addr: usize, data: &[u8])
        requires
            old(self).wf(),
            (in_ram(addr) && addr - RAM_BASE + data@.len() <= RAM_LIMIT - RAM_BASE)
                || (in_rom(addr) && addr - ROM_BASE + data@.len() <= ROM_LIMIT - ROM_BASE),
        ensures
            final(self).wf(),
            in_ram(addr) ==> final(self).ram@ == old(self).ram@.take(addr - RAM_BASE) + data@
                + old(self).ram@.skip(addr - RAM_BASE + data@.len()) && final(self).rom == old(self).rom,
            in_rom(addr) ==> final(self).rom@ == old(self).rom@.take(addr - ROM_BASE) + data@
                + old(self).rom@.skip(addr - ROM_BASE + data@.len()) && final(self).ram == old(self).ram,
            final(self).uart0 == old(self).uart0,
            final(self).uart1 == old(self).uart1,
            final(self).reservation == old(self).reservation,
    {
        if self.is_ram(addr) {
            let offset = addr - RAM_BASE;
            self.load_ram_at(offset, data);
        } else {
            let offset = addr - ROM_BASE;
            self.load_rom_at(offset, data);
        }
    }

    /// Reads the byte at `addr`; see `byte_source`.
    pub fn read_byte(&self, addr: usize) -> (r: Result<u32, MemoryError>)
        requires
            self.wf(),
        ensures
            self.reads_byte(addr, r),
    {
        if self.is_ram(addr) {
            let index = addr - RAM_BASE;
            return Ok(self.ram[index] as u32);
        }
        if self.is_rom(addr) {
            let index = addr - ROM_BASE;
            return Ok(self.rom[index] as u32);
        }
        if self.is_uart0(addr) {
            return Ok(self.uart0.read_byte(addr - UART0_BASE) as u32);
        }
        if self.is_uart1(addr) {
            return Ok(self.uart1.read_byte(addr - UART1_BASE) as u32);
        }
        if self.is_clic(addr) {
            return if addr == 0x200_0000 {
                Ok(0)  // msip for hart 0 MSIP Registers (1 bit wide)
            } else if addr == 0x200_4000 {
                Ok(0)  // mtimecmp for hart 0 MTIMECMP Registers
            } else if addr == 0x200_BFF8 {
                Ok(0)  // mtime Timer register
            } else {
                Err(MemoryError::ClicRead(addr))
            };
        }
        if addr == 0x0C20_0004 {
            // PLIC claim
            let p0 = self.uart0.pending_interrupt();
            if let Some(c) = p0 {
                assert(self.uart0.can_pend(Some(c)));
                return Ok(0x03);
            }
            let p1 = self.uart1.pending_interrupt();
            if let Some(c) = p1 {
                assert(self.uart1.can_pend(Some(c)));
                return Ok(0x04);
            }
            return Ok(0x00);
        }
        if 0x0C00_0000 <= addr && addr <= 0x0FFF_FFFF {
            // PLIC
            Ok(0x00)
        } else if 0x1000_0040 <= addr && addr <= 0x1000_0080 {
            // RTT
            Ok(0x00)
        } else if 0x1000_8000 <= addr && addr <= 0x1000_800F {
            // PRCI: RIOT uses hfrosccfg, hfxosccfg, pllcfg, plloutdiv, procmoncfg
            Ok(0xFF)
        } else if 0x1001_2000 <= addr && addr <= 0x1001_2FFF {
            // GPIO
            Ok(0xFF)
        } else {
            Err(MemoryError::Read(addr))
        }
    }

    /// Reads the little endian halfword at `index`, upper byte first.
    pub fn read_halfword(&self, index: usize) -> (r: Result<u32, MemoryError>)
        requires
            self.wf(),
            index < usize::MAX,
        ensures
            self.reads_halfword(index, r),
    {
        let hi = self.read_byte(index + 1);
        match hi {
            Err(e) => {
                proof {
                    lemma_reads_halfword_intro(*self, index, hi, hi, Err(e));
                }
                Err(e)
            },
            Ok(h) => {
                let lo = self.read_byte(index);
                match lo {
                    Err(e) => {
                        proof {
                            lemma_reads_halfword_intro(*self, index, hi, lo, Err(e));
                        }
                        Err(e)
                    },
                    Ok(l) => {
                        proof {
                            vstd::arithmetic::power2::lemma2_to64();
                            lemma_byte_bound(*self, (index + 1) as usize, hi);
                            lemma_byte_bound(*self, index, lo);
                        }
                        assert(h << 8 == h * 256) by (bit_vector)
                            requires
                                h < 256,
                        ;
                        let v = (h << 8) + l;
                        proof {
                            lemma_reads_halfword_intro(*self, index, hi, lo, Ok(v));
                        }
                        Ok(v)
                    },
                }
            },
        }
    }

    /// Reads the little endian word at `index`, upper halfword first.
    pub fn read_word(&self, index: usize) -> (r: Result<u32, MemoryError>)
        requires
            self.wf(),
            index < usize::MAX - 2,
        ensures
            self.reads_word(index, r),
    {
        let hi = self.read_halfword(index + 2);
        match hi {
            Err(e) => {
                proof {
                    lemma_reads_word_intro(*self, index, hi, hi, Err(e));
                }
                Err(e)
            },
            Ok(h) => {
                let lo = self.read_halfword(index);
                match lo {
                    Err(e) => {
                        proof {
                            lemma_reads_word_intro(*self, index, hi, lo, Err(e));
                        }
                        Err(e)
                    },
                    Ok(l) => {
                        proof {
                            vstd::arithmetic::power2::lemma2_to64();
                            lemma_halfword_bound(*self, (index + 2) as usize, hi);
                            lemma_halfword_bound(*self, index, lo);
                        }
                        assert(h << 16 == h * 65536) by (bit_vector)
                            requires
                                h < 65536,
                        ;
                        let v = (h << 16) + l;
                        proof {
                            lemma_reads_word_intro(*self, index, hi, lo, Ok(v));
                        }
                        Ok(v)
                    },
                }
            },
        }
    }

    /// Writes the low byte of `value` to `addr`; see `writes_byte`.
    pub fn write_byte(&mut self, addr: usize, value: u32) -> (r: Result<(), MemoryError>)
        requires
            old(self).wf(),
        ensures
            final(self).wf(),
            old(self).writes_byte(*final(self), addr, value, r),
    {
        if self.is_ram(addr) {
            let index = addr - RAM_BASE;
            self.ram.set(index, (value & 0xFF) as u8);
            return Ok(());
        }
        if self.is_uart0(addr) {
            self.uart0.write_byte(addr - UART0_BASE, (value & 0xFF) as u8);
            return Ok(());
        }
        if self.is_uart1(addr) {
            self.uart1.write_byte(addr - UART1_BASE, (value & 0xFF) as u8);
            return Ok(());
        }
        if 0x0C00_0000 <= addr && addr <= 0x0FFF_FFFF {
            // PLIC
            Ok(())
        } else if 0x1000_0040 <= addr && addr <= 0x1000_0080 {
            // RTT
            Ok(())
        } else if 0x1000_8000 <= addr && addr <= 0x1000_800F {
            // PRCI: RIOT uses hfrosccfg, hfxosccfg, pllcfg, plloutdiv, procmoncfg
            Ok(())
        } else if 0x1001_2000 <= addr && addr <= 0x1001_2FFF {
            // GPIO
            Ok(())
        } else if 0x0200_BFF8 <= addr && addr <= 0x0200_BFFF {
            // mtime
            Ok(())
        } else if 0x0200_4000 <= addr && addr <= 0x0200_4007 {
            // mtimecmp
            Ok(())
        } else {
            Err(MemoryError::Write(addr))
        }
    }

    /// Writes the low halfword of `value` to `index`, low byte first.
    pub fn write_halfword(&mut self, index: usize, value: u32) -> (r: Result<(), MemoryError>)
        requires
            old(self).wf(),
            index < usize::MAX,
        ensures
            final(self).wf(),
            old(self).writes_halfword(*final(self), index, value, r),
    {
        let r1 = self.write_byte(index, value);
        let ghost mid = *self;
        match r1 {
            Err(e) => {
                assert(old(self).writes_byte(mid, index, value, r1));
                Err(e)
            },
            Ok(_) => {
                let r = self.write_byte(index + 1, value >> 8);
                assert(old(self).writes_byte(mid, index, value, r1));
                r
            },
        }
    }

    /// Writes `value` as a little endian word to `index`, low halfword first.
    pub fn write_word(&mut self, index: usize, value: u32) -> (r: Result<(), MemoryError>)
        requires
            old(self).wf(),
            index < usize::MAX - 2,
        ensures
            final(self).wf(),
            old(self).writes_word(*final(self), index, value, r),
    {
        let r1 = self.write_halfword(index, value);
        let ghost mid = *self;
        match r1 {
            Err(e) => {
                assert(old(self).writes_halfword(mid, index, value, r1));
                Err(e)
            },
            Ok(_) => {
                let r = self.write_halfword(index + 2, value >> 16);
                assert(old(self).writes_halfword(mid, index, value, r1));
                r
            },
        }
    }
}

proof fn lemma_splice_step(a: Seq<u8>, d: Seq<u8>, offset: int, x: int)
    requires
        0 <= offset,
        0 <= x < d.len(),
        offset + d.len() <= a.len(),
    ensures
        (a.take(offset) + d.take(x) + a.skip(offset + x)).update(offset + x, d[x])
            == a.take(offset) + d.take(x + 1) + a.skip(offset + x + 1),
{
    let lhs = (a.take(offset) + d.take(x) + a.skip(offset + x)).update(offset + x, d[x]);
    let rhs = a.take(offset) + d.take(x + 1) + a.skip(offset + x + 1);
    assert(lhs.len() == rhs.len());
    assert forall|i: int| 0 <= i < lhs.len() implies lhs[i] == rhs[i] by {
        if i < offset {
        } else if i < offset + x {
        } else if i == offset + x {
        } else {
        }
    }
    assert(lhs =~= rhs);
}

proof fn lemma_byte_bound<T: MmapPeripheral>(m: Memory<T>, addr: usize, r: Result<u32, MemoryError>)
    requires
        m.reads_byte(addr, r),
        r is Ok,
    ensures
        r->Ok_0 < 256,
{
}

proof fn lemma_reads_halfword_intro<T: MmapPeripheral>(
    m: Memory<T>,
    index: usize,
    hi: Result<u32, MemoryError>,
    lo: Result<u32, MemoryError>,
    r: Result<u32, MemoryError>,
)
    requires
        index < usize::MAX,
        m.reads_byte((index + 1) as usize, hi),
        hi is Ok ==> m.reads_byte(index, lo),
        r == combine(hi, lo, 8),
    ensures
        m.reads_halfword(index, r),
{
    assert(m.reads_byte((index + 1) as usize, hi));
    assert(hi is Ok ==> m.reads_byte(index, lo));
    assert(m.reads_halfword(index, r));
}

proof fn lemma_reads_word_intro<T: MmapPeripheral>(
    m: Memory<T>,
    index: usize,
    hi: Result<u32, MemoryError>,
    lo: Result<u32, MemoryError>,
    r: Result<u32, MemoryError>,
)
    requires
        index < usize::MAX - 2,
        m.reads_halfword((index + 2) as usize, hi),
        hi is Ok ==> m.reads_halfword(index, lo),
        r == combine(hi, lo, 16),
    ensures
        m.reads_word(index, r),
{
    assert(m.reads_halfword((index + 2) as usize, hi));
    assert(hi is Ok ==> m.reads_halfword(index, lo));
    assert(m.reads_word(index, r));
}

proof fn lemma_halfword_bound<T: MmapPeripheral>(m: Memory<T>, index: usize, r: Result<u32, MemoryError>)
    requires
        m.reads_halfword(index, r),
        r is Ok,
    ensures
        r->Ok_0 < 65536,
{
    let (hi, lo) = choose|hi: Result<u32, MemoryError>, lo: Result<u32, MemoryError>|
        #![trigger m.reads_byte((index + 1) as usize, hi), m.reads_byte(index, lo)]
        m.reads_byte((index + 1) as usize, hi) && (hi is Ok ==> m.reads_byte(index, lo))
            && r == combine(hi, lo, 8);
    vstd::arithmetic::power2::lemma2_to64();
    assert(hi is Ok && lo is Ok);
    assert(hi->Ok_0 < 256 && lo->Ok_0 < 256);
}

/// The byte of RAM at `addr`.
pub open spec fn ram_byte<T: MmapPeripheral>(m: Memory<T>, addr: usize) -> u32 {
    m.ram@[addr - RAM_BASE] as u32
}

proof fn lemma_ram_halfword_reads<T: MmapPeripheral>(m: Memory<T>, i: usize)
    requires
        m.wf(),
        in_ram(i),
        in_ram((i + 1) as usize),
    ensures
        forall|x: Result<u32, MemoryError>| #[trigger] m.reads_halfword(i, x)
            <==> x == Ok::<u32, MemoryError>((ram_byte(m, (i + 1) as usize) * 256 + ram_byte(m, i)) as u32),
{
    vstd::arithmetic::power2::lemma2_to64();
    let hi = Ok::<u32, MemoryError>(ram_byte(m, (i + 1) as usize));
    let lo = Ok::<u32, MemoryError>(ram_byte(m, i));
    assert(m.reads_byte((i + 1) as usize, hi) && m.reads_byte(i, lo));
    assert(combine(hi, lo, 8) == Ok::<u32, MemoryError>((ram_byte(m, (i + 1) as usize) * 256 + ram_byte(m, i)) as u32));
}

proof fn lemma_ram_word_reads<T: MmapPeripheral>(m: Memory<T>, i: usize)
    requires
        m.wf(),
        in_ram(i),
        in_ram((i + 3) as usize),
    ensures
        forall|x: Result<u32, MemoryError>| #[trigger] m.reads_word(i, x) <==> x == Ok::<u32, MemoryError>(
            ((ram_byte(m, (i + 3) as usize) * 256 + ram_byte(m, (i + 2) as usize)) * 65536 + ram_byte(m, (i + 1) as usize)
                * 256 + ram_byte(m, i)) as u32,
        ),
{
    vstd::arithmetic::power2::lemma2_to64();
    lemma_ram_halfword_reads(m, (i + 2) as usize);
    lemma_ram_halfword_reads(m, i);
    let hi = Ok::<u32, MemoryError>((ram_byte(m, (i + 3) as usize) * 256 + ram_byte(m, (i + 2) as usize)) as u32);
    let lo = Ok::<u32, MemoryError>((ram_byte(m, (i + 1) as usize) * 256 + ram_byte(m, i)) as u32);
    assert(m.reads_halfword((i + 2) as usize, hi) && m.reads_halfword(i, lo));
}

proof fn lemma_ram_halfword_write<T: MmapPeripheral>(m: Memory<T>, m1: Memory<T>, i: usize, value: u32, r: Result<(), MemoryError>)
    requires
        m.wf(),
        in_ram(i),
        in_ram((i + 1) as usize),
        m.writes_halfword(m1, i, value, r),
    ensures
        r is Ok,
        m1.ram@ == m.ram@.update(i - RAM_BASE, (value & 0xFF) as u8).update(i + 1 - RAM_BASE, ((value >> 8) & 0xFF) as u8),
        m1.rom@ == m.rom@,
        m1.reservation == m.reservation,
        m1.uart0 == m.uart0,
        m1.uart1 == m.uart1,
{
    let (mid, r1) = choose|mid: Memory<T>, r1: Result<(), MemoryError>|
        #![trigger m.writes_byte(mid, i, value, r1)]
        m.writes_byte(mid, i, value, r1) && match r1 {
            Err(e) => r == r1 && mem_same(m1, mid),
            Ok(_) => mid.writes_byte(m1, (i + 1) as usize, value >> 8, r),
        };
}

/// A byte written to RAM reads back: the write succeeds, changes that byte
/// only, and reading it gives the low byte of the value written.
pub proof fn lemma_ram_byte_read_after_write<T: MmapPeripheral>(m: Memory<T>, m1: Memory<T>, addr: usize, value: u32, r: Result<(), MemoryError>)
    requires
        m.wf(),
        in_ram(addr),
        m.writes_byte(m1, addr, value, r),
    ensures
        r is Ok,
        m1.wf(),
        m1.ram@ == m.ram@.update(addr - RAM_BASE, (value & 0xFF) as u8),
        m1.rom@ == m.rom@,
        forall|x: Result<u32, MemoryError>| #[trigger] m1.reads_byte(addr, x) <==> x == Ok::<u32, MemoryError>(value & 0xFF),
{
    assert(value & 0xFF < 256) by (bit_vector);
}

/// A word written to RAM reads back: the write succeeds, changes exactly the
/// four bytes of the word (least significant first) and nothing outside
/// RAM, and reading the word at that address gives the value written.
pub proof fn lemma_ram_word_read_after_write<T: MmapPeripheral>(m: Memory<T>, m1: Memory<T>, addr: usize, value: u32, r: Result<(), MemoryError>)
    requires
        m.wf(),
        in_ram(addr),
        in_ram((addr + 3) as usize),
        m.writes_word(m1, addr, value, r),
    ensures
        r is Ok,
        m1.wf(),
        m1.ram@ == m.ram@.update(addr - RAM_BASE, (value & 0xFF) as u8).update(addr + 1 - RAM_BASE, ((value >> 8) & 0xFF) as u8)
            .update(addr + 2 - RAM_BASE, ((value >> 16) & 0xFF) as u8).update(addr + 3 - RAM_BASE, ((value >> 24) & 0xFF) as u8),
        m1.rom@ == m.rom@,
        m1.reservation == m.reservation,
        m1.uart0 == m.uart0,
        m1.uart1 == m.uart1,
        forall|x: Result<u32, MemoryError>| #[trigger] m1.reads_word(addr, x) <==> x == Ok::<u32, MemoryError>(value),
{
    let (mid, r1) = choose|mid: Memory<T>, r1: Result<(), MemoryError>|
        #![trigger m.writes_halfword(mid, addr, value, r1)]
        m.writes_halfword(mid, addr, value, r1) && match r1 {
            Err(e) => r == r1 && mem_same(m1, mid),
            Ok(_) => mid.writes_halfword(m1, (addr + 2) as usize, value >> 16, r),
        };
    lemma_ram_halfword_write(m, mid, addr, value, r1);
    lemma_ram_halfword_write(mid, m1, (addr + 2) as usize, value >> 16, r);
    assert((((value >> 16) >> 8) & 0xFF) == ((value >> 24) & 0xFF) && value & 0xFF < 256 && (value >> 8) & 0xFF < 256
        && (value >> 16) & 0xFF < 256 && (value >> 24) & 0xFF < 256) by (bit_vector);
    lemma_ram_word_reads(m1, addr);
    let b0 = value & 0xFF;
    let b1 = (value >> 8) & 0xFF;
    let b2 = (value >> 16) & 0xFF;
    let b3 = (value >> 24) & 0xFF;
    assert(ram_byte(m1, addr) == b0);
    assert(ram_byte(m1, (addr + 1) as usize) == b1);
    assert(ram_byte(m1, (addr + 2) as usize) == b2);
    assert(ram_byte(m1, (addr + 3) as usize) == b3);
    assert(((b3 * 256 + b2) * 65536 + b1 * 256 + b0) as u32 == value) by (bit_vector)
        requires
            b0 == value & 0xFF,
            b1 == (value >> 8) & 0xFF,
            b2 == (value >> 16) & 0xFF,
            b3 == (value >> 24) & 0xFF,
    ;
}

/// Writing a byte, halfword or word never changes ROM, whatever the address
/// and whether or not the write succeeds.
pub proof fn lemma_writes_keep_rom<T: MmapPeripheral>(m: Memory<T>, m1: Memory<T>, addr: usize, value: u32, r: Result<(), MemoryError>)
    ensures
        m.writes_byte(m1, addr, value, r) ==> m1.rom@ == m.rom@,
        m.writes_halfword(m1, addr, value, r) ==> m1.rom@ == m.rom@,
        m.writes_word(m1, addr, value, r) ==> m1.rom@ == m.rom@,
{
    if m.writes_halfword(m1, addr, value, r) {
        let (mid, r1) = choose|mid: Memory<T>, r1: Result<(), MemoryError>|
            #![trigger m.writes_byte(mid, addr, value, r1)]
            m.writes_byte(mid, addr, value, r1) && match r1 {
                Err(e) => r == r1 && mem_same(m1, mid),
                Ok(_) => mid.writes_byte(m1, (addr + 1) as usize, value >> 8, r),
            };
    }
    if m.writes_word(m1, addr, value, r) {
        let (mid, r1) = choose|mid: Memory<T>, r1: Result<(), MemoryError>|
            #![trigger m.writes_halfword(mid, addr, value, r1)]
            m.writes_halfword(mid, addr, value, r1) && match r1 {
                Err(e) => r == r1 && mem_same(m1, mid),
                Ok(_) => mid.writes_halfword(m1, (addr + 2) as usize, value >> 16, r),
            };
        lemma_writes_keep_rom_halfword(m, mid, addr, value, r1);
        if r1 is Ok {
            lemma_writes_keep_rom_halfword(mid, m1, (addr + 2) as usize, value >> 16, r);
        }
    }
}

proof fn lemma_writes_keep_rom_halfword<T: MmapPeripheral>(m: Memory<T>, m1: Memory<T>, addr: usize, value: u32, r: Result<(), MemoryError>)
    requires
        m.writes_halfword(m1, addr, value, r),
    ensures
        m1.rom@ == m.rom@,
{
    let (mid, r1) = choose|mid: Memory<T>, r1: Result<(), MemoryError>|
        #![trigger m.writes_byte(mid, addr, value, r1)]
        m.writes_byte(mid, addr, value, r1) && match r1 {
            Err(e) => r == r1 && mem_same(m1, mid),
            Ok(_) => mid.writes_byte(m1, (addr + 1) as usize, value >> 8, r),
        };
}

} // verus!
