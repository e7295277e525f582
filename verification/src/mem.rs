//! The memory bus: owns every addressable storage region of the 16-bit
//! address space, resolves an address into a (region, offset) pair, and
//! reports accesses to unmapped regions as faults instead of guessing.
//!
//! The address space is a strict partition:
//!
//! * `0x0000..=0x3FFF` fixed ROM bank (first 16KB of the cartridge)
//! * `0x4000..=0x7FFF` switchable ROM bank (present, bank switching out of scope)
//! * `0x8000..=0x9FFF` video RAM (present but inert)
//! * `0xA000..=0xBFFF` switchable RAM (present but inert)
//! * `0xC000..=0xDFFF` internal work RAM
//! * `0xE000..=0xFEFF` echo / OAM / unusable: unmapped, access faults
//! * `0xFF00..=0xFF4B` I/O ports (inert storage)
//! * `0xFF4C..=0xFF7F` unusable gap: unmapped, access faults
//! * `0xFF80..=0xFFFF` high RAM
//!
//! The view of a bus is the full 64KB address space as a byte sequence, with
//! unmapped addresses reading as zero in the model; the exec API never lets a
//! read or write reach an unmapped address.

use vstd::prelude::*;

verus! {

/// An access to an address with no backing store: the offending address and
/// whether the attempt was a write.
#[derive(Clone, Copy, Debug, PartialEq, Eq, Structural)]
pub struct MemFault {
    pub addr: u16,
    pub write: bool,
}

/// The named storage regions of the address space.
#[derive(Clone, Copy, Debug, PartialEq, Eq, Structural)]
pub enum Region {
    FixedRomBank,
    SwitchableRomBank,
    Vram,
    SwitchableRam,
    InternalRam,
    IoPorts,
    HighRam,
}

/// True when `addr` falls in a region with backing store.
pub open spec fn backed(addr: u16) -> bool {
    addr < 0xE000 || (0xFF00 <= addr && addr < 0xFF4C) || 0xFF80 <= addr
}

/// Resolves an address to its region and the offset within that region;
/// `None` for unmapped addresses. This is the single lookup every access
/// goes through.
pub open spec fn memory_map_spec(addr: u16) -> Option<(Region, usize)> {
    if addr < 0x4000 {
        Some((Region::FixedRomBank, addr as usize))
    } else if addr < 0x8000 {
        Some((Region::SwitchableRomBank, (addr - 0x4000) as usize))
    } else if addr < 0xA000 {
        Some((Region::Vram, (addr - 0x8000) as usize))
    } else if addr < 0xC000 {
        Some((Region::SwitchableRam, (addr - 0xA000) as usize))
    } else if addr < 0xE000 {
        Some((Region::InternalRam, (addr - 0xC000) as usize))
    } else if addr < 0xFF00 {
        None
    } else if addr < 0xFF4C {
        Some((Region::IoPorts, (addr - 0xFF00) as usize))
    } else if addr < 0xFF80 {
        None
    } else {
        Some((Region::HighRam, (addr - 0xFF80) as usize))
    }
}

/// What reading the little-endian 16-bit word at `addr` yields: the bytes at
/// `addr` (low) and `addr + 1` (high), each resolved independently through
/// the region table. A word whose second byte would lie past the end of the
/// address space is a fault at `addr`, never a silent wrap to 0x0000.
pub open spec fn read_u16_spec(mem: Seq<u8>, addr: u16) -> Result<u16, MemFault> {
    if !backed(addr) || addr == 0xFFFF {
        Err(MemFault { addr, write: false })
    } else if !backed((addr + 1) as u16) {
        Err(MemFault { addr: (addr + 1) as u16, write: false })
    } else {
        Ok((mem[addr as int] + 0x100 * mem[addr as int + 1]) as u16)
    }
}

/// What writing the little-endian 16-bit word at `addr` yields: the low byte
/// goes to `addr`, the high byte to `addr + 1`, with the same fault policy as
/// the 16-bit read. A faulting word write changes nothing.
pub open spec fn write_u16_spec(mem: Seq<u8>, addr: u16, value: u16) -> Result<Seq<u8>, MemFault> {
    if !backed(addr) || addr == 0xFFFF {
        Err(MemFault { addr, write: true })
    } else if !backed((addr + 1) as u16) {
        Err(MemFault { addr: (addr + 1) as u16, write: true })
    } else {
        Ok(
            mem.update(addr as int, (value % 0x100) as u8).update(
                addr as int + 1,
                (value / 0x100) as u8,
            ),
        )
    }
}

/// The memory bus. Regions are allocated once at construction with fixed
/// sizes and zero-initialized; the fixed ROM bank is overwritten once, before
/// execution starts, with the first 16KB of the cartridge image.
pub struct Mem {
    fixed_rom_bank: Vec<u8>,
    switchable_rom_bank: Vec<u8>,
    vram: Vec<u8>,
    switchable_ram: Vec<u8>,
    internal_ram_8kb: Vec<u8>,
    io_ports: Vec<u8>,
    high_ram: Vec<u8>,
}

impl Mem {
    /// The storage vector backing `region`.
    pub closed spec fn region_seq(&self, region: Region) -> Seq<u8> {
        match region {
            Region::FixedRomBank => self.fixed_rom_bank@,
            Region::SwitchableRomBank => self.switchable_rom_bank@,
            Region::Vram => self.vram@,
            Region::SwitchableRam => self.switchable_ram@,
            Region::InternalRam => self.internal_ram_8kb@,
            Region::IoPorts => self.io_ports@,
            Region::HighRam => self.high_ram@,
        }
    }

    /// Every region has exactly its fixed size.
    pub closed spec fn wf(&self) -> bool {
        &&& self.fixed_rom_bank@.len() == 0x4000
        &&& self.switchable_rom_bank@.len() == 0x4000
        &&& self.vram@.len() == 0x2000
        &&& self.switchable_ram@.len() == 0x2000
        &&& self.internal_ram_8kb@.len() == 0x2000
        &&& self.io_ports@.len() == 0x4C
        &&& self.high_ram@.len() == 0x80
    }
}

impl View for Mem {
    type V = Seq<u8>;

    /// The whole address space as one byte sequence of length 0x10000;
    /// unmapped addresses are zero in the model.
    closed spec fn view(&self) -> Seq<u8> {
        Seq::new(
            0x10000,
            |i: int|
                match memory_map_spec(i as u16) {
                    Some((region, off)) => self.region_seq(region)[off as int],
                    None => 0u8,
                },
        )
    }
}

impl Default for Mem {
    /// A bus with every backed region zero-filled.
    fn default() -> (m: Mem)
        ensures
            m.wf(),
            m@.len() == 0x10000,
            forall|i: int| 0 <= i < 0x10000 ==> m@[i] == 0u8,
    {
        let m = Mem {
            fixed_rom_bank: vec![0u8; 0x4000],
            switchable_rom_bank: vec![0u8; 0x4000],
            vram: vec![0u8; 0x2000],
            switchable_ram: vec![0u8; 0x2000],
            internal_ram_8kb: vec![0u8; 0x2000],
            io_ports: vec![0u8; 0x4C],
            high_ram: vec![0u8; 0x80],
        };
        m
    }
}

impl Mem {
    /// A bus with every backed region zero-filled.
    pub fn new() -> (m: Mem)
        ensures
            m.wf(),
            m@.len() == 0x10000,
            forall|i: int| 0 <= i < 0x10000 ==> m@[i] == 0u8,
    {
        Mem::default()
    }

    /// Copies the first 16KB of the cartridge into the fixed ROM bank.
    /// The rest of the address space is untouched.
    pub fn load_fixed_rom_bank(&mut self, contents: &[u8])
        requires
            old(self).wf(),
            contents@.len() == 0x4000,
        ensures
            final(self).wf(),
            final(self)@.len() == 0x10000,
            forall|i: int| 0 <= i < 0x4000 ==> final(self)@[i] == contents@[i],
            forall|i: int| 0x4000 <= i < 0x10000 ==> final(self)@[i] == old(self)@[i],
    {
        let mut bank: Vec<u8> = Vec::new();
        let mut idx: usize = 0;
        while idx < 0x4000
            invariant
                contents@.len() == 0x4000,
                idx <= 0x4000,
                bank@.len() == idx,
                forall|i: int| 0 <= i < idx ==> bank@[i] == contents@[i],
            decreases 0x4000 - idx,
        {
            bank.push(contents[idx]);
            idx += 1;
        }
        self.fixed_rom_bank = bank;
    }

    /// Resolves `addr` through the region table; `None` means the address is
    /// unmapped and any access to it is a fault.
    pub fn memory_map(&self, addr: u16) -> (r: Option<(Region, usize)>)
        ensures
            r == memory_map_spec(addr),
            r is Some <==> backed(addr),
    {
        if addr < 0x4000 {
            Some((Region::FixedRomBank, addr as usize))
        } else if addr < 0x8000 {
            Some((Region::SwitchableRomBank, (addr - 0x4000) as usize))
        } else if addr < 0xA000 {
            Some((Region::Vram, (addr - 0x8000) as usize))
        } else if addr < 0xC000 {
            Some((Region::SwitchableRam, (addr - 0xA000) as usize))
        } else if addr < 0xE000 {
            Some((Region::InternalRam, (addr - 0xC000) as usize))
        } else if addr < 0xFF00 {
            None
        } else if addr < 0xFF4C {
            Some((Region::IoPorts, (addr - 0xFF00) as usize))
        } else if addr < 0xFF80 {
            None
        } else {
            Some((Region::HighRam, (addr - 0xFF80) as usize))
        }
    }

    /// Reads the byte at `addr`; a fault if `addr` is unmapped.
    pub fn read_u8(&self, addr: u16) -> (r: Result<u8, MemFault>)
        requires
            self.wf(),
        ensures
            backed(addr) ==> r == Ok::<u8, MemFault>(self@[addr as int]),
            !backed(addr) ==> r == Err::<u8, MemFault>(MemFault { addr, write: false }),
    {
        match self.memory_map(addr) {
            None => Err(MemFault { addr, write: false }),
            Some((region, off)) => {
                let v = match region {
                    Region::FixedRomBank => self.fixed_rom_bank[off],
                    Region::SwitchableRomBank => self.switchable_rom_bank[off],
                    Region::Vram => self.vram[off],
                    Region::SwitchableRam => self.switchable_ram[off],
                    Region::InternalRam => self.internal_ram_8kb[off],
                    Region::IoPorts => self.io_ports[off],
                    Region::HighRam => self.high_ram[off],
                };
                Ok(v)
            },
        }
    }

    /// Writes the byte at `addr`; a fault (and no change) if `addr` is
    /// unmapped.
    pub fn write_u8(&mut self, addr: u16, value: u8) -> (r: Result<(), MemFault>)
        requires
            old(self).wf(),
        ensures
            final(self).wf(),
            backed(addr) ==> r == Ok::<(), MemFault>(()) && final(self)@ == old(self)@.update(
                addr as int,
                value,
            ),
            !backed(addr) ==> r == Err::<(), MemFault>(MemFault { addr, write: true })
                && final(self)@ == old(self)@,
    {
        match self.memory_map(addr) {
            None => Err(MemFault { addr, write: true }),
            Some((region, off)) => {
                match region {
                    Region::FixedRomBank => self.fixed_rom_bank.set(off, value),
                    Region::SwitchableRomBank => self.switchable_rom_bank.set(off, value),
                    Region::Vram => self.vram.set(off, value),
                    Region::SwitchableRam => self.switchable_ram.set(off, value),
                    Region::InternalRam => self.internal_ram_8kb.set(off, value),
                    Region::IoPorts => self.io_ports.set(off, value),
                    Region::HighRam => self.high_ram.set(off, value),
                }
                proof {
                    assert(self@ =~= old(self)@.update(addr as int, value));
                }
                Ok(())
            },
        }
    }

    /// Reads the little-endian 16-bit word at `addr`: low byte at `addr`,
    /// high byte at `addr + 1`, both resolved independently.
    pub fn read_u16(&self, addr: u16) -> (r: Result<u16, MemFault>)
        requires
            self.wf(),
        ensures
            r == read_u16_spec(self@, addr),
    {
        if addr == 0xFFFF {
            return Err(MemFault { addr, write: false });
        }
        let lo = self.read_u8(addr)?;
        let hi = self.read_u8(addr + 1)?;
        Ok(crate::util::u16_from_2u8s((lo, hi)))
    }

    /// Writes the little-endian 16-bit word at `addr`: low byte to `addr`,
    /// high byte to `addr + 1`. A fault (and no change at all) if either byte
    /// would land in an unmapped region.
    pub fn write_u16(&mut self, addr: u16, value: u16) -> (r: Result<(), MemFault>)
        requires
            old(self).wf(),
        ensures
            final(self).wf(),
            match r {
                Ok(()) => write_u16_spec(old(self)@, addr, value) == Ok::<Seq<u8>, MemFault>(
                    final(self)@,
                ),
                Err(f) => write_u16_spec(old(self)@, addr, value) == Err::<Seq<u8>, MemFault>(f)
                    && final(self)@ == old(self)@,
            },
    {
        if addr == 0xFFFF {
            return Err(MemFault { addr, write: true });
        }
        match self.memory_map(addr) {
            None => {
                return Err(MemFault { addr, write: true });
            },
            Some(_) => {},
        }
        match self.memory_map(addr + 1) {
            None => {
                return Err(MemFault { addr: addr + 1, write: true });
            },
            Some(_) => {},
        }
        let bytes = crate::util::u16_to_2u8s(value);
        self.write_u8(addr, bytes.1)?;
        self.write_u8(addr + 1, bytes.0)?;
        Ok(())
    }

    /// Serializes the whole address space in address order, for offline
    /// inspection after a fault; unmapped gaps appear as zero bytes.
    pub fn dump(&self) -> (r: Vec<u8>)
        requires
            self.wf(),
        ensures
            r@ == self@,
    {
        let mut out: Vec<u8> = Vec::new();
        let mut addr: usize = 0;
        while addr < 0x10000
            invariant
                self.wf(),
                addr <= 0x10000,
                out@.len() == addr,
                forall|i: int| 0 <= i < addr ==> out@[i] == self@[i],
            decreases 0x10000 - addr,
        {
            let b = match self.read_u8(addr as u16) {
                Ok(v) => v,
                Err(_) => 0,
            };
            out.push(b);
            addr += 1;
        }
        proof {
            assert(out@ =~= self@);
        }
        out
    }
}

/// Round-trip law of the bus: writing a 16-bit word and reading it back at
/// the same address yields the word, whenever both of its bytes fall in
/// backed regions.
pub proof fn lemma_u16_roundtrip(mem: Seq<u8>, addr: u16, v: u16)
    requires
        mem.len() == 0x10000,
        backed(addr),
        addr != 0xFFFF,
        backed((addr + 1) as u16),
    ensures
        write_u16_spec(mem, addr, v) matches Ok(m2) && read_u16_spec(m2, addr) == Ok::<
            u16,
            MemFault,
        >(v),
{
    let m2 = write_u16_spec(mem, addr, v)->Ok_0;
    assert(m2[addr as int] == v % 0x100);
    assert(m2[addr as int + 1] == v / 0x100);
    assert(v % 0x100 + 0x100 * (v / 0x100) == v);
}

} // verus!
