//! The memory bus: a decoder that routes each 16-bit address to internal
//! memory, a register of the picture processing unit, or program memory.

use vstd::prelude::*;
use crate::cpu::little_endian_to_big_endian;
use crate::model::word;
use crate::ppu::Ppu;
use crate::ppu::PpuRegister;
use crate::ppu::PpuView;

verus! {

/// A 16-bit address on the bus.
#[derive(Clone, Copy, Debug)]
pub struct MemLocation(pub u16);

impl MemLocation {
    /// The address of byte `location` of page zero.
    pub fn page_0(location: u8) -> (addr: Self)
        ensures
            addr.0 == location,
    {
        Self(location as u16)
    }

    /// The address of byte `location` of the stack page, page one.
    pub fn stack(location: u8) -> (addr: Self)
        ensures
            addr.0 == 0x0100 + location,
    {
        Self(location as u16 + 0x0100)
    }

    /// The address whose low byte is `a` and whose high byte is `b`.
    pub fn from_little_endian(a: u8, b: u8) -> (addr: Self)
        ensures
            addr.0 == word(a, b),
    {
        Self(little_endian_to_big_endian(a, b))
    }
}

/// What an address on the bus leads to. Every address leads to exactly one
/// of these.
pub ghost enum Region {
    /// A byte of the 2 KiB of internal memory.
    Ram { index: int },
    /// A register of the picture processing unit.
    Ppu { register: PpuRegister },
    /// Sound and input registers. They read as zero and ignore writes.
    Io,
    /// Cartridge expansion and cartridge memory. They read as zero and
    /// ignore writes.
    Cartridge,
    /// A byte of the 32 KiB of program memory. It ignores writes.
    ProgramRom { index: int },
}

/// The register of the picture processing unit with the given number. The
/// eight registers repeat every eight addresses.
pub open spec fn register_number(n: int) -> PpuRegister {
    if n == 0 {
        PpuRegister::PpuCtrl
    } else if n == 1 {
        PpuRegister::PpuMask
    } else if n == 2 {
        PpuRegister::PpuStatus
    } else if n == 3 {
        PpuRegister::OamAddr
    } else if n == 4 {
        PpuRegister::OamData
    } else if n == 5 {
        PpuRegister::PpuScroll
    } else if n == 6 {
        PpuRegister::PpuAddr
    } else {
        PpuRegister::PpuData
    }
}

/// The region that `addr` leads to.
pub open spec fn region(addr: u16) -> Region {
    if addr < 0x2000 {
        Region::Ram { index: (addr % 0x0800) as int }
    } else if addr < 0x4000 {
        Region::Ppu { register: register_number((addr % 8) as int) }
    } else if addr < 0x4020 {
        Region::Io
    } else if addr < 0x8000 {
        Region::Cartridge
    } else {
        Region::ProgramRom { index: addr - 0x8000 }
    }
}

/// What the bus holds and leads to.
pub ghost struct BusView {
    /// The 2 KiB of internal memory.
    pub ram: Seq<u8>,
    /// The 32 KiB of program memory.
    pub program_rom: Seq<u8>,
    /// The picture processing unit.
    pub ppu: PpuView,
}

impl BusView {
    /// The memories and the picture processing unit have their fixed sizes.
    pub open spec fn wf(self) -> bool {
        self.ram.len() == 0x0800 && self.program_rom.len() == 0x8000 && self.ppu.wf()
    }

    /// The bus at power-up: zeroed internal memory, the given program
    /// memory and the given picture processing unit.
    pub open spec fn power_up(program_rom: Seq<u8>, ppu: PpuView) -> BusView {
        BusView { ram: Seq::new(0x0800, |i: int| 0u8), program_rom, ppu }
    }

    /// The byte that a read of `addr` returns.
    #[verifier::opaque]
    pub open spec fn read_value(self, addr: u16) -> u8 {
        match region(addr) {
            Region::Ram { index } => self.ram[index],
            Region::Ppu { register } => self.ppu.register_value(register),
            Region::Io => 0,
            Region::Cartridge => 0,
            Region::ProgramRom { index } => self.program_rom[index],
        }
    }

    /// The bus after a read of `addr`. Only a read of a register of the
    /// picture processing unit can change anything.
    #[verifier::opaque]
    pub open spec fn after_read(self, addr: u16) -> BusView {
        match region(addr) {
            Region::Ppu { register } => BusView { ppu: self.ppu.after_read(register), ..self },
            _ => self,
        }
    }

    /// The bus after `value` is written to `addr`.
    #[verifier::opaque]
    pub open spec fn write(self, addr: u16, value: u8) -> BusView {
        match region(addr) {
            Region::Ram { index } => BusView { ram: self.ram.update(index, value), ..self },
            Region::Ppu { register } => BusView {
                ppu: self.ppu.write_register(register, value),
                ..self
            },
            _ => self,
        }
    }
}

/// The memory bus. It owns the internal memory, the program memory and the
/// picture processing unit.
pub struct Bus {
    ram: [u8; 0x0800],
    program_rom: [u8; 0x8000],
    ppu: Ppu,
}

impl View for Bus {
    type V = BusView;

    closed spec fn view(&self) -> BusView {
        BusView { ram: self.ram@, program_rom: self.program_rom@, ppu: self.ppu@ }
    }
}

impl Bus {
    /// The view of every bus has the fixed sizes.
    pub proof fn lemma_wf(&self)
        ensures
            self@.wf(),
    {
        self.ppu.lemma_wf();
    }

    /// A bus with zeroed internal memory, the given program memory and the
    /// given picture processing unit.
    pub fn new(program_rom: [u8; 0x8000], ppu: Ppu) -> (bus: Self)
        ensures
            bus@ == BusView::power_up(program_rom@, ppu@),
    {
        let bus = Self { ram: [0;0x0800], program_rom, ppu };
        assert(bus@.ram =~= Seq::new(0x0800, |i: int| 0u8));
        bus
    }

    /// Read the byte at `addr`.
    pub fn read(&mut self, addr: MemLocation) -> (value: u8)
        ensures
            value == old(self)@.read_value(addr.0),
            final(self)@ == old(self)@.after_read(addr.0),
    {
        proof {
            reveal(BusView::read_value);
            reveal(BusView::after_read);
        }
        let a = addr.0;
        if a < 0x2000 {
            self.ram[(a % 0x0800) as usize]
        } else if a < 0x4000 {
            self.handle_ppu_read(0x2000 + a % 8)
        } else if a < 0x8000 {
            0
        } else {
            self.program_rom[(a - 0x8000) as usize]
        }
    }

    /// Read the register of the picture processing unit at `addr`, one of
    /// the eight addresses from `0x2000`.
    fn handle_ppu_read(&mut self, addr: u16) -> (value: u8)
        requires
            0x2000 <= addr <= 0x2007,
        ensures
            value == old(self)@.ppu.register_value(register_number(addr - 0x2000)),
            final(self)@ == (BusView {
                ppu: old(self)@.ppu.after_read(register_number(addr - 0x2000)),
                ..old(self)@
            }),
    {
        if addr == 0x2002 {
            self.ppu.read_register(PpuRegister::PpuStatus)
        } else if addr == 0x2004 {
            self.ppu.read_register(PpuRegister::OamData)
        } else if addr == 0x2007 {
            self.ppu.read_register(PpuRegister::PpuData)
        } else {
            // control, mask, sprite address, scroll and address registers
            // cannot be read
            0
        }
    }

    /// Write `value` to `addr`.
    pub fn write(&mut self, addr: MemLocation, value: u8)
        ensures
            final(self)@ == old(self)@.write(addr.0, value),
    {
        proof {
            reveal(BusView::write);
        }
        let a = addr.0;
        if a < 0x2000 {
            self.ram[(a % 0x0800) as usize] = value;
        } else if a < 0x4000 {
            self.handle_ppu_write(0x2000 + a % 8, value);
        }
    }

    /// Write `value` to the register of the picture processing unit at
    /// `addr`, one of the eight addresses from `0x2000`.
    fn handle_ppu_write(&mut self, addr: u16, value: u8)
        requires
            0x2000 <= addr <= 0x2007,
        ensures
            final(self)@ == (BusView {
                ppu: old(self)@.ppu.write_register(register_number(addr - 0x2000), value),
                ..old(self)@
            }),
    {
        if addr == 0x2000 {
            self.ppu.write_register(PpuRegister::PpuCtrl, value);
        } else if addr == 0x2001 {
            self.ppu.write_register(PpuRegister::PpuMask, value);
        } else if addr == 0x2002 {
            // the status register cannot be written
        } else if addr == 0x2003 {
            self.ppu.write_register(PpuRegister::OamAddr, value);
        } else if addr == 0x2004 {
            self.ppu.write_register(PpuRegister::OamData, value);
        } else if addr == 0x2005 {
            self.ppu.write_register(PpuRegister::PpuScroll, value);
        } else if addr == 0x2006 {
            self.ppu.write_register(PpuRegister::PpuAddr, value);
        } else {
            self.ppu.write_register(PpuRegister::PpuData, value);
        }
    }

    /// The picture processing unit behind the bus.
    pub fn ppu(&self) -> (ppu: &Ppu)
        ensures
            ppu@ == self@.ppu,
    {
        &self.ppu
    }
}

/// Every address from `0x2000` up to `0x4000` leads to the register at
/// `0x2000` plus the address modulo 8: reads and writes of the two
/// addresses cannot be told apart.
pub proof fn lemma_ppu_register_mirror(bus: BusView, addr: u16, value: u8)
    requires
        0x2000 <= addr < 0x4000,
    ensures
        ({
            let base = (0x2000 + addr % 8) as u16;
            &&& region(addr) == region(base)
            &&& region(addr) == Region::Ppu { register: register_number((addr % 8) as int) }
            &&& bus.read_value(addr) == bus.read_value(base)
            &&& bus.after_read(addr) == bus.after_read(base)
            &&& bus.write(addr, value) == bus.write(base, value)
        }),
{
    reveal(BusView::read_value);
    reveal(BusView::after_read);
    reveal(BusView::write);
}

/// Internal memory appears four times in the first 8 KiB of the address
/// space. Two addresses there that are `0x0800`, `0x1000` or `0x1800` apart
/// lead to the same byte: they read the same, a write to one is a write to
/// the other, and a read changes nothing.
pub proof fn lemma_ram_mirror(bus: BusView, a: u16, b: u16, value: u8)
    requires
        bus.wf(),
        a < 0x2000,
        b < 0x2000,
        a % 0x0800 == b % 0x0800,
    ensures
        bus.read_value(a) == bus.read_value(b),
        bus.after_read(a) == bus,
        bus.write(a, value) == bus.write(b, value),
        bus.write(a, value).read_value(b) == value,
{
    reveal(BusView::read_value);
    reveal(BusView::after_read);
    reveal(BusView::write);
}

/// Program memory cannot be written, and reading it changes nothing: an
/// address from `0x8000` up reads the same byte before and after any write
/// to such an address.
pub proof fn lemma_program_rom_is_read_only(bus: BusView, addr: u16, target: u16, value: u8)
    requires
        addr >= 0x8000,
        target >= 0x8000,
    ensures
        bus.write(target, value) == bus,
        bus.after_read(addr) == bus,
        bus.read_value(addr) == bus.program_rom[addr - 0x8000],
{
    reveal(BusView::read_value);
    reveal(BusView::after_read);
    reveal(BusView::write);
}

/// The sound and input registers and the cartridge space below program
/// memory are not wired up: they read as zero, and neither a read nor a
/// write there changes anything.
pub proof fn lemma_unmapped_regions(bus: BusView, addr: u16, value: u8)
    requires
        0x4000 <= addr < 0x8000,
    ensures
        bus.read_value(addr) == 0,
        bus.after_read(addr) == bus,
        bus.write(addr, value) == bus,
{
    reveal(BusView::read_value);
    reveal(BusView::after_read);
    reveal(BusView::write);
}

/// Only an access to a register of the picture processing unit reaches
/// it: a read or a write anywhere else leaves the unit as it is. And no
/// access anywhere changes program memory.
pub proof fn lemma_ppu_is_reached_through_its_registers(bus: BusView, addr: u16, value: u8)
    ensures
        !(0x2000 <= addr < 0x4000) ==> bus.after_read(addr).ppu == bus.ppu && bus.write(
            addr,
            value,
        ).ppu == bus.ppu,
        bus.after_read(addr).program_rom == bus.program_rom,
        bus.write(addr, value).program_rom == bus.program_rom,
        bus.after_read(addr).ram == bus.ram,
{
    reveal(BusView::after_read);
    reveal(BusView::write);
}

/// Two writes to `0x2006` followed by a read of `0x2002` leave the latch
/// clear, and the write to `0x2006` that follows is taken as the high byte
/// of a new address.
pub proof fn lemma_address_latch(bus: BusView, first: u8, second: u8, next: u8)
    ensures
        ({
            let read = bus.write(0x2006, first).write(0x2006, second).after_read(0x2002);
            &&& !read.ppu.w
            &&& read.write(0x2006, next).ppu.vram_addr == next * 0x100
            &&& read.write(0x2006, next).ppu.w
        }),
{
    reveal(BusView::read_value);
    reveal(BusView::after_read);
    reveal(BusView::write);
}

} // verus!
