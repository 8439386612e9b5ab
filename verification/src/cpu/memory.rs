//! Access to memory: plain reads and writes, fetches at the program
//! counter, and the stack in page one.

use vstd::prelude::*;
use crate::bus::MemLocation;
use crate::cpu::little_endian_to_big_endian;
use crate::cpu::Cpu;
use crate::model::CpuView;
use crate::model::high_byte;
use crate::model::low_byte;
use crate::model::page_crossed;

verus! {

/// The low byte of `w`.
pub(crate) fn low(w: u16) -> (b: u8)
    ensures
        b == low_byte(w),
{
    (w % 256) as u8
}

/// The high byte of `w`.
pub(crate) fn high(w: u16) -> (b: u8)
    ensures
        b == high_byte(w),
{
    (w / 256) as u8
}

/// Whether `addr` lies in another 256-byte page than `base`.
pub(crate) fn crosses_page(base: u16, addr: u16) -> (crossed: bool)
    ensures
        crossed == page_crossed(base, addr),
{
    base / 256 != addr / 256
}

impl Cpu {
    /// Read the byte at `location` through the bus.
    pub(crate) fn memory_read(&mut self, location: MemLocation) -> (value: u8)
        ensures
            (value, final(self)@) == old(self)@.memory_read(location.0),
    {
        proof {
            reveal(CpuView::memory_read);
        }
        self.bus.read(MemLocation(location.0))
    }

    /// Write `value` to `location` through the bus.
    pub(crate) fn memory_write(&mut self, value: u8, location: MemLocation)
        ensures
            final(self)@ == old(self)@.memory_write(value, location.0),
    {
        proof {
            reveal(CpuView::memory_write);
        }
        self.bus.write(MemLocation(location.0), value);
    }

    /// Read the byte at the program counter and step past it.
    pub(crate) fn pc_next(&mut self) -> (value: u8)
        ensures
            (value, final(self)@) == old(self)@.pc_next(),
    {
        proof {
            reveal(CpuView::pc_next);
        }
        let pc = self.pc;
        let value = self.memory_read(MemLocation(pc));
        self.pc = pc.wrapping_add(1);
        value
    }

    /// Read the two bytes at the program counter as a word, low byte
    /// first, and step past them.
    pub(crate) fn pc_next_word(&mut self) -> (w: u16)
        ensures
            (w, final(self)@) == old(self)@.pc_next_word(),
    {
        proof {
            reveal(CpuView::pc_next_word);
        }
        let a = self.pc_next();
        let b = self.pc_next();
        little_endian_to_big_endian(a, b)
    }

    /// Read the word at `location`, low byte first.
    pub(crate) fn read_word(&mut self, location: MemLocation) -> (w: u16)
        ensures
            (w, final(self)@) == old(self)@.read_word(location.0),
    {
        proof {
            reveal(CpuView::read_word);
        }
        let a = self.memory_read(location);
        let b = self.memory_read(MemLocation(location.0.wrapping_add(1)));
        little_endian_to_big_endian(a, b)
    }

    /// Read the word at byte `location` of page zero, low byte first. Its
    /// high byte lies in page zero too.
    pub(crate) fn read_page_0_word(&mut self, location: u8) -> (w: u16)
        ensures
            (w, final(self)@) == old(self)@.read_page_0_word(location),
    {
        proof {
            reveal(CpuView::read_page_0_word);
        }
        let a = self.memory_read(MemLocation::page_0(location));
        let b = self.memory_read(MemLocation::page_0(location.wrapping_add(1)));
        little_endian_to_big_endian(a, b)
    }

    /// Push `value` on the stack.
    pub(crate) fn stack_push(&mut self, value: u8)
        ensures
            final(self)@ == old(self)@.stack_push(value),
    {
        proof {
            reveal(CpuView::stack_push);
        }
        let sp = self.stack_pointer;
        self.memory_write(value, MemLocation::stack(sp));
        self.stack_pointer = sp.wrapping_sub(1);
    }

    /// Pull a byte from the stack.
    pub(crate) fn stack_pop(&mut self) -> (value: u8)
        ensures
            (value, final(self)@) == old(self)@.stack_pop(),
    {
        proof {
            reveal(CpuView::stack_pop);
        }
        let sp = self.stack_pointer.wrapping_add(1);
        let value = self.memory_read(MemLocation::stack(sp));
        self.stack_pointer = sp;
        value
    }
}

} // verus!
