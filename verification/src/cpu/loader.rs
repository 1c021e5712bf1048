//! Loading an ELF executable into the memory of a hart.
use vstd::prelude::*;

use elf::endian::AnyEndian;
use elf::ElfBytes;

use super::{empty_log, splice, CPU};
use crate::memory::{in_ram, in_rom, Memory, MmapPeripheral, RAM_BASE, RAM_LIMIT, ROM_BASE, ROM_LIMIT};
use crate::register::{Register, CSR};

verus! {

/// The program header type of a loadable segment.
pub const PT_LOAD: u32 = 1;

/// The parts of an ELF file that loading reads: the entry point and, for each
/// program header, its type, its physical address and its data in the file
/// (`None` where that range lies outside the file); `None` where the file does
/// not parse or has no program header table.
pub uninterp spec fn elf_image(file: Seq<u8>) -> Option<(u64, Seq<(u32, u64, Option<Seq<u8>>)>)>;

/// Parses `file` with `elf::ElfBytes::<AnyEndian>::minimal_parse` and reads
/// `ehdr.e_entry` and, for each program header that `segments()` yields,
/// `p_type`, `p_paddr` and `segment_data`. The contract only names the result:
/// it is a function of the file's bytes alone, and no clause says how the
/// bytes are parsed.
#[verifier::external_body]
fn parse_elf(file: &[u8]) -> (r: Option<(u64, Vec<(u32, u64, Option<Vec<u8>>)>)>)
    ensures
        r.deep_view() == elf_image(file@),
{
    let elf = match ElfBytes::<AnyEndian>::minimal_parse(file) {
        Ok(elf) => elf,
        Err(_) => return None,
    };
    let segments = elf.segments()?;
    let mut out = Vec::new();
    for phdr in segments {
        let data = match elf.segment_data(&phdr) {
            Ok(d) => Some(d.to_vec()),
            Err(_) => None,
        };
        out.push((phdr.p_type, phdr.p_paddr, data));
    }
    Some((elf.ehdr.e_entry, out))
}

/// A loadable segment has a host address and, when that lies in ROM or
/// RAM, data that fits there from that address on.
pub open spec fn segment_loadable(seg: (u32, u64, Option<Seq<u8>>)) -> bool {
    seg.0 == PT_LOAD ==> {
        &&& seg.1 <= usize::MAX
        &&& (in_rom(seg.1 as usize) || in_ram(seg.1 as usize)) ==> seg.2 is Some && super::fits_at(
            seg.1 as usize,
            seg.2->Some_0.len(),
        )
    }
}

/// The file parsed, its entry point is a 32-bit address and each loadable
/// segment can be loaded.
pub open spec fn elf_loadable(image: Option<(u64, Seq<(u32, u64, Option<Seq<u8>>)>)>) -> bool {
    match image {
        None => false,
        Some(p) => p.0 <= u32::MAX && forall|i: int| 0 <= i < p.1.len() ==> segment_loadable(#[trigger] p.1[i]),
    }
}

/// ROM after loading the first `k` segments: each loadable segment whose
/// address lies in ROM is copied there.
pub open spec fn loaded_rom(rom: Seq<u8>, segs: Seq<(u32, u64, Option<Seq<u8>>)>, k: nat) -> Seq<u8>
    decreases k,
{
    if k == 0 {
        rom
    } else {
        let prev = loaded_rom(rom, segs, (k - 1) as nat);
        let seg = segs[k - 1];
        if seg.0 == PT_LOAD && in_rom(seg.1 as usize) {
            splice(prev, seg.1 - ROM_BASE, seg.2->Some_0)
        } else {
            prev
        }
    }
}

/// RAM after loading the first `k` segments, in the same way.
pub open spec fn loaded_ram(ram: Seq<u8>, segs: Seq<(u32, u64, Option<Seq<u8>>)>, k: nat) -> Seq<u8>
    decreases k,
{
    if k == 0 {
        ram
    } else {
        let prev = loaded_ram(ram, segs, (k - 1) as nat);
        let seg = segs[k - 1];
        if seg.0 == PT_LOAD && in_ram(seg.1 as usize) {
            splice(prev, seg.1 - RAM_BASE, seg.2->Some_0)
        } else {
            prev
        }
    }
}

proof fn lemma_not_loadable(entry: u64, segs: Seq<(u32, u64, Option<Seq<u8>>)>, i: int)
    requires
        0 <= i < segs.len(),
        !segment_loadable(segs[i]),
    ensures
        !elf_loadable(Some((entry, segs))),
{
    let img = Some((entry, segs));
    assert(img->Some_0.1 == segs);
    assert(elf_loadable(img) ==> segment_loadable(img->Some_0.1[i]));
}

proof fn lemma_loadable(entry: u64, segs: Seq<(u32, u64, Option<Seq<u8>>)>)
    requires
        elf_loadable(Some((entry, segs))),
    ensures
        entry <= u32::MAX,
        forall|j: int| 0 <= j < segs.len() ==> segment_loadable(#[trigger] segs[j]),
{
    let img = Some((entry, segs));
    assert(img->Some_0.1 == segs);
    assert forall|j: int| 0 <= j < segs.len() implies segment_loadable(#[trigger] segs[j]) by {
        assert(segment_loadable(img->Some_0.1[j]));
    }
}

/// Whether the parsed file can be loaded; see `elf_loadable`.
fn is_loadable(image: &Option<(u64, Vec<(u32, u64, Option<Vec<u8>>)>)>) -> (r: bool)
    ensures
        r == elf_loadable(image.deep_view()),
{
    match image {
        None => false,
        Some(p) => {
            if p.0 > u32::MAX as u64 {
                return false;
            }
            let segs = &p.1;
            let ghost dv = segs.deep_view();
            assert(image.deep_view() == Some((p.0, dv)));
            let mut i: usize = 0;
            while i < segs.len()
                invariant
                    i <= segs@.len(),
                    dv == segs.deep_view(),
                    dv.len() == segs@.len(),
                    image.deep_view() == Some((p.0, dv)),
                    p.0 <= u32::MAX,
                    forall|j: int| 0 <= j < i ==> segment_loadable(#[trigger] dv[j]),
                decreases segs@.len() - i,
            {
                let seg = &segs[i];
                if seg.0 == PT_LOAD {
                    if seg.1 > usize::MAX as u64 {
                        assert(!segment_loadable(dv[i as int]));
                        proof {
                            lemma_not_loadable(p.0, dv, i as int);
                        }
                        return false;
                    }
                    let addr = seg.1 as usize;
                    if in_rom_exec(addr) || in_ram_exec(addr) {
                        match &seg.2 {
                            None => {
                                assert(!segment_loadable(dv[i as int]));
                        proof {
                            lemma_not_loadable(p.0, dv, i as int);
                        }
                                return false;
                            },
                            Some(d) => {
                                let fits = if in_rom_exec(addr) {
                                    d.len() <= ROM_LIMIT - addr
                                } else {
                                    d.len() <= RAM_LIMIT - addr
                                };
                                assert(d.deep_view().len() == d@.len());
                                if !fits {
                                    assert(!segment_loadable(dv[i as int]));
                        proof {
                            lemma_not_loadable(p.0, dv, i as int);
                        }
                                    return false;
                                }
                            },
                        }
                    }
                }
                i = i + 1;
            }
            true
        },
    }
}

fn in_rom_exec(addr: usize) -> (r: bool)
    ensures
        r == in_rom(addr),
{
    ROM_BASE <= addr && addr < ROM_LIMIT
}

fn in_ram_exec(addr: usize) -> (r: bool)
    ensures
        r == in_ram(addr),
{
    RAM_BASE <= addr && addr < RAM_LIMIT
}

impl<T: MmapPeripheral> CPU<T> {
    /// The hart fresh from loading `file` onto `memory`: every loadable
    /// segment whose address lies in ROM or RAM is copied there, in the order
    /// of the program headers; execution starts at the entry point; `mie`
    /// is 1 and the other registers 0.
    pub open spec fn elf_loaded(self, memory: Memory<T>, file: Seq<u8>) -> bool {
        let image = elf_image(file)->Some_0;
        &&& self.wf()
        &&& self.reset_on(memory, image.0 as u32, CSR { mie: 1, ..CSR::zeroed() })
        &&& self.memory.rom@ == loaded_rom(memory.rom@, image.1, image.1.len())
        &&& self.memory.ram@ == loaded_ram(memory.ram@, image.1, image.1.len())
    }
}

impl<T: MmapPeripheral> CPU<T> {
    /// A hart on `memory` running the ELF executable `file`; see `elf_loaded`.
    pub fn from_elf(file: &[u8], memory: Memory<T>) -> (cpu: Self)
        requires
            memory.wf(),
            elf_loadable(elf_image(file@)),
        ensures
            cpu.elf_loaded(memory, file@),
    {
        let image = parse_elf(file);
        let mut cpu = CPU {
            register: Register::default(),
            memory,
            waits_for_interrupt: false,
            instruction_log: empty_log(),
        };
        cpu.register.csr.mie = 1;
        let (entry, segs) = image.unwrap();
        let ghost dv = segs.deep_view();
        assert(elf_image(file@) == Some((entry, dv)));
        assert(dv.len() == segs@.len());
        proof {
            lemma_loadable(entry, dv);
        }
        let ghost start = cpu;
        let mut i: usize = 0;
        while i < segs.len()
            invariant
                i <= segs@.len(),
                dv == segs.deep_view(),
                dv.len() == segs@.len(),
                forall|j: int| 0 <= j < dv.len() ==> segment_loadable(#[trigger] dv[j]),
                cpu.memory.wf(),
                cpu.memory.rom@ == loaded_rom(memory.rom@, dv, i as nat),
                cpu.memory.ram@ == loaded_ram(memory.ram@, dv, i as nat),
                cpu.memory.uart0 == memory.uart0,
                cpu.memory.uart1 == memory.uart1,
                cpu.memory.reservation == memory.reservation,
                cpu.register == start.register,
                cpu.instruction_log == start.instruction_log,
                cpu.waits_for_interrupt == start.waits_for_interrupt,
            decreases segs@.len() - i,
        {
            let seg = &segs[i];
            assert(segment_loadable(dv[i as int]));
            if seg.0 == PT_LOAD {
                let addr = seg.1 as usize;
                if cpu.memory.is_rom(addr) || cpu.memory.is_ram(addr) {
                    match &seg.2 {
                        Some(d) => {
                            assert(d.deep_view() =~= d@);
                            cpu.memory.load_at(addr, d.as_slice());
                        },
                        None => {},
                    }
                }
            }
            i = i + 1;
        }
        cpu.register.pc = entry as u32;
        cpu
    }

    /// The same, or `None` where `file` cannot be loaded: it does not parse
    /// as ELF, has no program headers, its entry point is no 32-bit address,
    /// or a loadable segment has no host address or lies in ROM or RAM
    /// without data that fits there.
    pub fn try_from_elf(file: &[u8], memory: Memory<T>) -> (r: Option<Self>)
        requires
            memory.wf(),
        ensures
            r is Some <==> elf_loadable(elf_image(file@)),
            r matches Some(cpu) ==> cpu.elf_loaded(memory, file@),
    {
        let image = parse_elf(file);
        if is_loadable(&image) {
            Some(Self::from_elf(file, memory))
        } else {
            None
        }
    }
}

} // verus!
