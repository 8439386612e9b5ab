//! The addressing modes: from the operand bytes of an instruction to the
//! byte or the place in memory that it works on.

use vstd::prelude::*;
use crate::bus::MemLocation;
use crate::cpu::memory::crosses_page;
use crate::cpu::Cpu;
use crate::model::wrap16;
use crate::model::wrap8;
use crate::model::CpuView;
use crate::opcode::AddrMode;

verus! {

/// The byte `index` places after `base` in page zero, which after its last
/// byte starts over at the first.
fn index_byte(base: u8, index: u8) -> (r: u8)
    ensures
        r == wrap8(base + index),
{
    base.wrapping_add(index)
}

/// The address `index` places after `base`, which after the last address
/// starts over at the first.
fn index_word(base: u16, index: u8) -> (r: u16)
    ensures
        r == wrap16(base + index),
{
    base.wrapping_add(index as u16)
}

impl Cpu {
    /// Resolve a mode that yields an operand byte: the byte, and whether
    /// indexing crossed a page.
    pub(crate) fn get_value(&mut self, addr_mode: &AddrMode) -> (operand: (u8, bool))
        requires
            addr_mode.is_value(),
        ensures
            (operand.0, operand.1, final(self)@) == old(self)@.get_value(*addr_mode),
    {
        proof {
            reveal(CpuView::get_value);
        }
        match addr_mode {
            AddrMode::Immediate | AddrMode::Relative => (self.pc_next(), false),
            _ => {
                let (location, crossed) = self.get_location(addr_mode);
                (self.memory_read(location), crossed)
            },
        }
    }

    /// Resolve a mode that names a place in memory: the effective address,
    /// and whether indexing moved it into another page.
    pub(crate) fn get_location(&mut self, addr_mode: &AddrMode) -> (place: (MemLocation, bool))
        requires
            addr_mode.is_memory(),
        ensures
            (place.0.0, place.1, final(self)@) == old(self)@.get_location(*addr_mode),
    {
        proof {
            reveal(CpuView::get_location);
        }
        let x = self.x;
        let y = self.y;
        match addr_mode {
            AddrMode::ZeroPage => {
                let a = self.pc_next();
                (MemLocation::page_0(a), false)
            },
            AddrMode::ZeroPageX => {
                let a = self.pc_next();
                (MemLocation::page_0(index_byte(a, x)), false)
            },
            AddrMode::ZeroPageY => {
                let a = self.pc_next();
                (MemLocation::page_0(index_byte(a, y)), false)
            },
            AddrMode::Absolute => {
                let base = self.pc_next_word();
                (MemLocation(base), false)
            },
            AddrMode::AbsoluteX => {
                let base = self.pc_next_word();
                let addr = index_word(base, x);
                (MemLocation(addr), crosses_page(base, addr))
            },
            AddrMode::AbsoluteY => {
                let base = self.pc_next_word();
                let addr = index_word(base, y);
                (MemLocation(addr), crosses_page(base, addr))
            },
            AddrMode::IndirectX => {
                let a = self.pc_next();
                let pointer = index_byte(a, x);
                let addr = self.read_page_0_word(pointer);
                (MemLocation(addr), false)
            },
            _ => {
                let a = self.pc_next();
                let base = self.read_page_0_word(a);
                let addr = index_word(base, y);
                (MemLocation(addr), crosses_page(base, addr))
            },
        }
    }
}

} // verus!
