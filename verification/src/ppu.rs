//! The picture processing unit as the processor sees it: eight registers,
//! an address latch, sprite attribute memory, and a small memory of its own.

use vstd::prelude::*;

verus! {

/// The registers of the picture processing unit.
#[derive(Clone, Copy, Debug, PartialEq, Eq, Structural)]
pub enum PpuRegister {
    PpuCtrl,
    PpuMask,
    PpuStatus,
    OamAddr,
    OamData,
    PpuScroll,
    PpuAddr,
    PpuData,
    OamDma,
}

/// The highest address of the unit's 14-bit address space.
pub const VRAM_ADDR_MAX: u16 = 0x3fff;

/// The first address of palette memory.
pub const PALETTE_BASE: u16 = 0x3f00;

/// What the unit's memory holds.
pub ghost struct PpuMemoryView {
    /// The 8 KiB of pattern data that the cartridge supplies.
    pub pattern: Seq<u8>,
    /// The 32 bytes of palette memory.
    pub palette: Seq<u8>,
}

impl PpuMemoryView {
    /// Both regions have their fixed sizes.
    pub open spec fn wf(self) -> bool {
        self.pattern.len() == 0x2000 && self.palette.len() == 0x20
    }

    /// Whether `addr` lies in the read-only pattern data.
    pub open spec fn in_pattern(addr: u16) -> bool {
        addr < 0x2000
    }

    /// Whether `addr` lies in palette memory.
    pub open spec fn in_palette(addr: u16) -> bool {
        0x3f00 <= addr < 0x3f20
    }

    /// The byte at `addr`. Addresses outside the two regions read as zero.
    pub open spec fn read(self, addr: u16) -> u8 {
        if Self::in_pattern(addr) {
            self.pattern[addr as int]
        } else if Self::in_palette(addr) {
            self.palette[addr - 0x3f00]
        } else {
            0
        }
    }

    /// The memory after `value` is written to `addr`. Only palette memory
    /// takes the write.
    pub open spec fn write(self, addr: u16, value: u8) -> PpuMemoryView {
        if Self::in_palette(addr) {
            PpuMemoryView { palette: self.palette.update(addr - 0x3f00, value), ..self }
        } else {
            self
        }
    }
}

/// The unit's own memory: pattern data and palette.
pub struct PpuMemory {
    character_rom: [u8; 0x2000],
    palette_ram: [u8; 0x0020],
}

impl View for PpuMemory {
    type V = PpuMemoryView;

    closed spec fn view(&self) -> PpuMemoryView {
        PpuMemoryView { pattern: self.character_rom@, palette: self.palette_ram@ }
    }
}

impl PpuMemory {
    /// The view of every memory has the fixed sizes.
    pub proof fn lemma_wf(&self)
        ensures
            self@.wf(),
    {
    }

    /// A memory with the given pattern data and a palette of zeros.
    pub fn new(character_rom: [u8; 0x2000]) -> (memory: Self)
        ensures
            memory@.pattern == character_rom@,
            memory@.palette == Seq::new(0x20, |i: int| 0u8),
    {
        let memory = Self { character_rom, palette_ram: [0;0x0020] };
        assert(memory@.palette =~= Seq::new(0x20, |i: int| 0u8));
        memory
    }

    /// The byte at `addr`.
    pub fn read(&self, addr: u16) -> (value: u8)
        ensures
            value == self@.read(addr),
    {
        if addr < 0x2000 {
            self.character_rom[addr as usize]
        } else if 0x3f00 <= addr && addr < 0x3f20 {
            self.palette_ram[(addr - 0x3f00) as usize]
        } else {
            0
        }
    }

    /// Write `value` to `addr`.
    pub fn write(&mut self, addr: u16, value: u8)
        ensures
            final(self)@ == old(self)@.write(addr, value),
    {
        if 0x3f00 <= addr && addr < 0x3f20 {
            self.palette_ram[(addr - 0x3f00) as usize] = value;
        }
    }
}

/// The state of the unit that register accesses read and change.
pub ghost struct PpuView {
    /// The latch that tells the first write of a two-step register from
    /// the second. It is clear before the first write.
    pub w: bool,
    pub ctrl: u8,
    pub mask: u8,
    pub status: u8,
    pub oam_addr: u8,
    pub vram_addr: u16,
    /// The 256 bytes of sprite attribute memory.
    pub oam: Seq<u8>,
    pub memory: PpuMemoryView,
}

impl PpuView {
    /// Sprite attribute memory and the unit's memory have their fixed
    /// sizes.
    pub open spec fn wf(self) -> bool {
        self.oam.len() == 256 && self.memory.wf()
    }

    /// The unit at power-up: all registers zero, the latch clear, sprite
    /// attribute memory and palette zeroed, and the given pattern data.
    pub open spec fn power_up(pattern: Seq<u8>) -> PpuView {
        PpuView {
            w: false,
            ctrl: 0,
            mask: 0,
            status: 0,
            oam_addr: 0,
            vram_addr: 0,
            oam: Seq::new(256, |i: int| 0u8),
            memory: PpuMemoryView { pattern, palette: Seq::new(0x20, |i: int| 0u8) },
        }
    }

    /// The address register after a write of `value` to `PPUADDR`. The
    /// first write of a pair sets the high byte and clears the low byte,
    /// the second fills in the low byte, and the finished address is
    /// clamped to the 14-bit address space.
    pub open spec fn latched_addr(self, value: u8) -> u16 {
        if !self.w {
            (value * 0x100) as u16
        } else {
            let raw = self.vram_addr | (value as u16);
            if raw > VRAM_ADDR_MAX {
                VRAM_ADDR_MAX
            } else {
                raw
            }
        }
    }

    /// The unit after `value` is written to register `reg`.
    pub open spec fn write_register(self, reg: PpuRegister, value: u8) -> PpuView {
        match reg {
            PpuRegister::PpuCtrl => PpuView { ctrl: value, ..self },
            PpuRegister::PpuMask => PpuView { mask: value, ..self },
            PpuRegister::OamAddr => PpuView { oam_addr: value, ..self },
            PpuRegister::OamData => PpuView {
                oam: self.oam.update(self.oam_addr as int, value),
                oam_addr: ((self.oam_addr + 1) % 256) as u8,
                ..self
            },
            PpuRegister::PpuAddr => PpuView {
                vram_addr: self.latched_addr(value),
                w: !self.w,
                ..self
            },
            PpuRegister::PpuData => PpuView {
                memory: self.memory.write(self.vram_addr, value),
                ..self
            },
            PpuRegister::PpuStatus | PpuRegister::PpuScroll | PpuRegister::OamDma => self,
        }
    }

    /// The byte that a read of register `reg` returns. Registers that
    /// cannot be read give zero.
    pub open spec fn register_value(self, reg: PpuRegister) -> u8 {
        match reg {
            PpuRegister::PpuStatus => self.status,
            PpuRegister::OamData => self.oam[self.oam_addr as int],
            PpuRegister::PpuData => self.memory.read(self.vram_addr),
            _ => 0,
        }
    }

    /// The unit after register `reg` is read: a read of `PPUSTATUS` clears
    /// the latch, any other read changes nothing.
    pub open spec fn after_read(self, reg: PpuRegister) -> PpuView {
        match reg {
            PpuRegister::PpuStatus => PpuView { w: false, ..self },
            _ => self,
        }
    }
}

/// The picture processing unit.
pub struct Ppu {
    w: bool,
    ctrl: u8,
    mask: u8,
    status: u8,
    oam_addr: u8,
    vram_addr: u16,
    oam: [u8; 256],
    memory: PpuMemory,
}

impl View for Ppu {
    type V = PpuView;

    closed spec fn view(&self) -> PpuView {
        PpuView {
            w: self.w,
            ctrl: self.ctrl,
            mask: self.mask,
            status: self.status,
            oam_addr: self.oam_addr,
            vram_addr: self.vram_addr,
            oam: self.oam@,
            memory: self.memory@,
        }
    }
}

impl Ppu {
    /// The view of every unit has the fixed sizes.
    pub proof fn lemma_wf(&self)
        ensures
            self@.wf(),
    {
        self.memory.lemma_wf();
    }

    /// The unit at power-up, with the given pattern data.
    pub fn new(character_rom: [u8; 0x2000]) -> (ppu: Self)
        ensures
            ppu@ == PpuView::power_up(character_rom@),
    {
        let ppu = Self {
            w: false,
            ctrl: 0,
            mask: 0,
            status: 0,
            oam_addr: 0,
            vram_addr: 0,
            oam: [0;256],
            memory: PpuMemory::new(character_rom),
        };
        assert(ppu@.oam =~= Seq::new(256, |i: int| 0u8));
        ppu
    }

    /// Write `value` to register `reg`.
    pub fn write_register(&mut self, reg: PpuRegister, value: u8)
        ensures
            final(self)@ == old(self)@.write_register(reg, value),
    {
        match reg {
            PpuRegister::PpuCtrl => self.ctrl = value,
            PpuRegister::PpuMask => self.mask = value,
            PpuRegister::OamAddr => self.oam_addr = value,
            PpuRegister::OamData => {
                self.oam[self.oam_addr as usize] = value;
                self.oam_addr = self.oam_addr.wrapping_add(1);
            },
            PpuRegister::PpuAddr => {
                if !self.w {
                    self.vram_addr = (value as u16) * 0x100;
                } else {
                    self.vram_addr = self.vram_addr | (value as u16);
                    if self.vram_addr > VRAM_ADDR_MAX {
                        self.vram_addr = VRAM_ADDR_MAX;
                    }
                }
                self.w = !self.w;
            },
            PpuRegister::PpuData => {
                self.memory.write(self.vram_addr, value);
            },
            PpuRegister::PpuStatus | PpuRegister::PpuScroll | PpuRegister::OamDma => {},
        }
    }

    /// Read register `reg`.
    pub fn read_register(&mut self, reg: PpuRegister) -> (value: u8)
        ensures
            value == old(self)@.register_value(reg),
            final(self)@ == old(self)@.after_read(reg),
    {
        match reg {
            PpuRegister::PpuStatus => {
                self.w = false;
                self.status
            },
            PpuRegister::OamData => self.oam[self.oam_addr as usize],
            PpuRegister::PpuData => self.memory.read(self.vram_addr),
            _ => 0,
        }
    }

    /// The address that `PPUDATA` accesses.
    pub fn vram_addr(&self) -> (addr: u16)
        ensures
            addr == self@.vram_addr,
    {
        self.vram_addr
    }

    /// Whether the next write to `PPUADDR` is the second of a pair.
    pub fn write_latch(&self) -> (w: bool)
        ensures
            w == self@.w,
    {
        self.w
    }

    /// The unit's own memory.
    pub fn memory(&self) -> (memory: &PpuMemory)
        ensures
            memory@ == self@.memory,
    {
        &self.memory
    }
}

/// Palette memory keeps what is written to it: a read of a palette address
/// returns the byte last written there, and no other address is affected.
pub proof fn lemma_palette_round_trip(memory: PpuMemoryView, addr: u16, value: u8, other: u16)
    requires
        memory.wf(),
        PpuMemoryView::in_palette(addr),
        other != addr,
    ensures
        memory.write(addr, value).read(addr) == value,
        memory.write(addr, value).read(other) == memory.read(other),
        memory.write(addr, value).wf(),
{
}

/// Pattern data is read-only, and so is everything outside palette memory:
/// a write there changes nothing.
pub proof fn lemma_write_outside_palette(memory: PpuMemoryView, addr: u16, value: u8)
    requires
        !PpuMemoryView::in_palette(addr),
    ensures
        memory.write(addr, value) == memory,
{
}

/// The unit's memory is written through `PPUDATA` only, and reading a
/// register never changes it. Pattern data cannot be changed at all.
pub proof fn lemma_memory_is_written_through_data_register(
    ppu: PpuView,
    reg: PpuRegister,
    value: u8,
)
    ensures
        reg != PpuRegister::PpuData ==> ppu.write_register(reg, value).memory == ppu.memory,
        ppu.after_read(reg).memory == ppu.memory,
        ppu.write_register(reg, value).memory.pattern == ppu.memory.pattern,
{
}

/// Sprite attribute memory is written through `OAMDATA`: the byte lands at
/// the sprite address, which then moves on by one and after 255 starts
/// over at zero. A read returns the byte at the sprite address and does
/// not move it.
pub proof fn lemma_sprite_memory_access(ppu: PpuView, value: u8)
    requires
        ppu.wf(),
    ensures
        ({
            let written = ppu.write_register(PpuRegister::OamData, value);
            &&& written.oam[ppu.oam_addr as int] == value
            &&& written.oam_addr == if ppu.oam_addr == 0xff {
                0
            } else {
                ppu.oam_addr + 1
            }
            &&& written.wf()
        }),
        ppu.register_value(PpuRegister::OamData) == ppu.oam[ppu.oam_addr as int],
        ppu.after_read(PpuRegister::OamData) == ppu,
{
}

/// Two writes to `PPUADDR`, starting with the latch clear, load the address
/// register with the word that has the first byte as its high byte and the
/// second as its low byte, clamped to the 14-bit address space, and leave
/// the latch clear again.
pub proof fn lemma_address_pair(ppu: PpuView, high: u8, low: u8)
    requires
        !ppu.w,
    ensures
        ({
            let loaded = ppu.write_register(PpuRegister::PpuAddr, high).write_register(
                PpuRegister::PpuAddr,
                low,
            );
            let raw = high * 0x100 + low;
            &&& !loaded.w
            &&& loaded.vram_addr == if raw > VRAM_ADDR_MAX {
                VRAM_ADDR_MAX as int
            } else {
                raw
            }
        }),
{
    let first = (high * 0x100) as u16;
    let second = low as u16;
    assert(first | second == first + second) by (bit_vector)
        requires
            first == high * 0x100,
            second == low,
    ;
}

/// A read of `PPUSTATUS` clears the latch whatever came before, so that
/// the next write to `PPUADDR` is taken as the high byte of a new address.
pub proof fn lemma_status_read_resets_latch(ppu: PpuView, value: u8)
    ensures
        !ppu.after_read(PpuRegister::PpuStatus).w,
        ppu.after_read(PpuRegister::PpuStatus).write_register(PpuRegister::PpuAddr, value).vram_addr
            == value * 0x100,
        ppu.after_read(PpuRegister::PpuStatus).write_register(PpuRegister::PpuAddr, value).w,
{
}

} // verus!
