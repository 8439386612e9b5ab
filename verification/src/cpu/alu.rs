//! Loads, stores, transfers, arithmetic, logic, shifts and rotations.

use vstd::prelude::*;
use crate::bus::MemLocation;
use crate::cpu::Cpu;
use crate::model::CpuView;
use crate::model::Register;
use crate::model::ShiftDirection;

verus! {

impl Cpu {
    /// `LDA`, `LDX`, `LDY`, and the second half of `PLA`.
    pub(crate) fn load(&mut self, reg: Register, value: u8)
        requires
            reg == Register::A || reg == Register::X || reg == Register::Y,
        ensures
            final(self)@ == old(self)@.load(reg, value),
    {
        proof {
            reveal(CpuView::load);
        }
        match reg {
            Register::A => self.accumulator = value,
            Register::X => self.x = value,
            _ => self.y = value,
        };
        self.status.set_zero_negative(value);
    }

    /// `STA`, `STX`, `STY`.
    pub(crate) fn store(&mut self, reg: Register, location: MemLocation)
        requires
            reg == Register::A || reg == Register::X || reg == Register::Y,
        ensures
            final(self)@ == old(self)@.store(reg, location.0),
    {
        proof {
            reveal(CpuView::store);
        }
        let value = match reg {
            Register::A => self.accumulator,
            Register::X => self.x,
            _ => self.y,
        };
        self.memory_write(value, location);
    }

    /// The six transfers between registers.
    pub(crate) fn transfer(&mut self, src: Register, dst: Register)
        requires
            src != Register::PC && src != Register::P,
            dst != Register::PC && dst != Register::P,
        ensures
            final(self)@ == old(self)@.transfer(src, dst),
    {
        proof {
            reveal(CpuView::transfer);
        }
        let value = match src {
            Register::A => self.accumulator,
            Register::S => self.stack_pointer,
            Register::X => self.x,
            _ => self.y,
        };
        match dst {
            Register::A => self.accumulator = value,
            Register::S => self.stack_pointer = value,
            Register::X => self.x = value,
            _ => self.y = value,
        }
        if dst != Register::S {
            self.status.set_zero_negative(value);
        }
    }

    /// `INX`, `INY`.
    pub(crate) fn inc_register(&mut self, reg: Register)
        requires
            reg == Register::X || reg == Register::Y,
        ensures
            final(self)@ == old(self)@.inc_register(reg),
    {
        proof {
            reveal(CpuView::inc_register);
        }
        let value = match reg {
            Register::X => self.x,
            _ => self.y,
        };
        self.load(reg, value.wrapping_add(1));
    }

    /// `DEX`, `DEY`.
    pub(crate) fn dec_register(&mut self, reg: Register)
        requires
            reg == Register::X || reg == Register::Y,
        ensures
            final(self)@ == old(self)@.dec_register(reg),
    {
        proof {
            reveal(CpuView::dec_register);
        }
        let value = match reg {
            Register::X => self.x,
            _ => self.y,
        };
        self.load(reg, value.wrapping_sub(1));
    }

    /// `INC`.
    pub(crate) fn inc_memory(&mut self, location: MemLocation)
        ensures
            final(self)@ == old(self)@.inc_memory(location.0),
    {
        proof {
            reveal(CpuView::inc_memory);
        }
        let value = self.memory_read(location);
        let new_value = value.wrapping_add(1);
        self.memory_write(new_value, location);
        self.status.set_zero_negative(new_value);
    }

    /// `DEC`.
    pub(crate) fn dec_memory(&mut self, location: MemLocation)
        ensures
            final(self)@ == old(self)@.dec_memory(location.0),
    {
        proof {
            reveal(CpuView::dec_memory);
        }
        let value = self.memory_read(location);
        let new_value = value.wrapping_sub(1);
        self.memory_write(new_value, location);
        self.status.set_zero_negative(new_value);
    }

    /// `ADC`.
    pub(crate) fn add_accumulator(&mut self, value: u8)
        ensures
            final(self)@ == old(self)@.add_accumulator(value),
    {
        proof {
            reveal(CpuView::add_accumulator);
        }
        // A = A + M + C
        let c: u16 = if self.status.get_carry() {
            1
        } else {
            0
        };
        let sum: u16 = self.accumulator as u16 + value as u16 + c;
        let result: u8 = (sum % 256) as u8;
        let overflow = !(self.accumulator ^ value) & (self.accumulator ^ result) & 0x80 != 0;

        self.accumulator = result;
        self.status.set_carry(sum > 0xff);
        self.status.set_overflow(overflow);
        self.status.set_zero_negative(result);
    }

    /// `SBC`.
    pub(crate) fn sub_accumulator(&mut self, value: u8)
        ensures
            final(self)@ == old(self)@.sub_accumulator(value),
    {
        proof {
            reveal(CpuView::sub_accumulator);
        }
        // A = A - M - (1 - C), computed 256 too high so that it cannot go
        // below zero
        let c_inverse: u16 = if !self.status.get_carry() {
            1
        } else {
            0
        };
        let raised: u16 = 256 + self.accumulator as u16 - value as u16 - c_inverse;
        let result: u8 = (raised % 256) as u8;
        let overflow = (self.accumulator ^ value) & (self.accumulator ^ result) & 0x80 != 0;

        self.accumulator = result;
        self.status.set_carry(raised >= 256);
        self.status.set_overflow(overflow);
        self.status.set_zero_negative(result);
    }

    /// `AND`.
    pub(crate) fn and_accumulator(&mut self, value: u8)
        ensures
            final(self)@ == old(self)@.and_accumulator(value),
    {
        proof {
            reveal(CpuView::and_accumulator);
        }
        let result = self.accumulator & value;
        self.load(Register::A, result);
    }

    /// `ORA`.
    pub(crate) fn or_accumulator(&mut self, value: u8)
        ensures
            final(self)@ == old(self)@.or_accumulator(value),
    {
        proof {
            reveal(CpuView::or_accumulator);
        }
        let result = self.accumulator | value;
        self.load(Register::A, result);
    }

    /// `EOR`.
    pub(crate) fn xor_accumulator(&mut self, value: u8)
        ensures
            final(self)@ == old(self)@.xor_accumulator(value),
    {
        proof {
            reveal(CpuView::xor_accumulator);
        }
        let result = self.accumulator ^ value;
        self.load(Register::A, result);
    }

    /// `CMP`, `CPX`, `CPY`.
    pub(crate) fn compare(&mut self, value: u8, register: u8)
        ensures
            final(self)@ == old(self)@.compare(value, register),
    {
        proof {
            reveal(CpuView::compare);
        }
        self.status.set_carry(register >= value);
        self.status.set_zero(register == value);
        self.status.set_negative(register.wrapping_sub(value) & 0x80 != 0);
    }

    /// `BIT`.
    pub(crate) fn bit_test(&mut self, value: u8)
        ensures
            final(self)@ == old(self)@.bit_test(value),
    {
        proof {
            reveal(CpuView::bit_test);
        }
        self.status.set_zero(self.accumulator & value == 0);
        self.status.set_overflow(value & 0x40 != 0);
        self.status.set_negative(value & 0x80 != 0);
    }

    /// Shift `value` by one bit and set C, Z and N.
    pub(crate) fn bitshift_and_set_flags(&mut self, value: &mut u8, direction: ShiftDirection)
        ensures
            (*final(value), final(self)@) == old(self)@.bitshift_and_set_flags(
                *old(value),
                direction,
            ),
    {
        proof {
            reveal(CpuView::bitshift_and_set_flags);
        }
        match direction {
            ShiftDirection::Left => {
                // bit 7 is stored in the carry flag
                self.status.set_carry(*value & 0x80 != 0);
                *value = *value << 1u8;
            },
            ShiftDirection::Right => {
                // bit 0 is stored in the carry flag
                self.status.set_carry(*value & 0x01 != 0);
                *value = *value >> 1u8;
            },
        }
        self.status.set_zero_negative(*value);
    }

    /// `ASL` on the accumulator.
    pub(crate) fn shift_left_accumulator(&mut self)
        ensures
            final(self)@ == old(self)@.shift_accumulator(ShiftDirection::Left),
    {
        proof {
            reveal(CpuView::shift_accumulator);
        }
        let mut value = self.accumulator;
        self.bitshift_and_set_flags(&mut value, ShiftDirection::Left);
        self.accumulator = value;
    }

    /// `ASL` on the byte at `location`.
    pub(crate) fn shift_left_memory(&mut self, location: MemLocation)
        ensures
            final(self)@ == old(self)@.shift_memory(location.0, ShiftDirection::Left),
    {
        proof {
            reveal(CpuView::shift_memory);
        }
        let mut value = self.memory_read(location);
        self.bitshift_and_set_flags(&mut value, ShiftDirection::Left);
        self.memory_write(value, location);
    }

    /// `LSR` on the accumulator.
    pub(crate) fn shift_right_accumulator(&mut self)
        ensures
            final(self)@ == old(self)@.shift_accumulator(ShiftDirection::Right),
    {
        proof {
            reveal(CpuView::shift_accumulator);
        }
        let mut value = self.accumulator;
        self.bitshift_and_set_flags(&mut value, ShiftDirection::Right);
        self.accumulator = value;
    }

    /// `LSR` on the byte at `location`.
    pub(crate) fn shift_right_memory(&mut self, location: MemLocation)
        ensures
            final(self)@ == old(self)@.shift_memory(location.0, ShiftDirection::Right),
    {
        proof {
            reveal(CpuView::shift_memory);
        }
        let mut value = self.memory_read(location);
        self.bitshift_and_set_flags(&mut value, ShiftDirection::Right);
        self.memory_write(value, location);
    }

    /// Rotate `value` by one bit through the carry and set C, Z and N.
    pub(crate) fn rotate_and_set_flags(&mut self, value: &mut u8, direction: ShiftDirection)
        ensures
            (*final(value), final(self)@) == old(self)@.rotate_and_set_flags(
                *old(value),
                direction,
            ),
    {
        proof {
            reveal(CpuView::rotate_and_set_flags);
        }
        let old_carry = self.status.get_carry();
        match direction {
            ShiftDirection::Left => {
                // old bit 7 is stored in the carry flag, and the old carry
                // is placed in bit 0
                self.status.set_carry(*value & 0x80 != 0);
                *value = (*value << 1u8) | (if old_carry {
                    0x01u8
                } else {
                    0x00u8
                });
            },
            ShiftDirection::Right => {
                // old bit 0 is stored in the carry flag, and the old carry
                // is placed in bit 7
                self.status.set_carry(*value & 0x01 != 0);
                *value = (*value >> 1u8) | (if old_carry {
                    0x80u8
                } else {
                    0x00u8
                });
            },
        }
        self.status.set_zero_negative(*value);
    }

    /// `ROL` on the accumulator.
    pub(crate) fn rotate_left_accumulator(&mut self)
        ensures
            final(self)@ == old(self)@.rotate_accumulator(ShiftDirection::Left),
    {
        proof {
            reveal(CpuView::rotate_accumulator);
        }
        let mut value = self.accumulator;
        self.rotate_and_set_flags(&mut value, ShiftDirection::Left);
        self.accumulator = value;
    }

    /// `ROL` on the byte at `location`.
    pub(crate) fn rotate_left_memory(&mut self, location: MemLocation)
        ensures
            final(self)@ == old(self)@.rotate_memory(location.0, ShiftDirection::Left),
    {
        proof {
            reveal(CpuView::rotate_memory);
        }
        let mut value = self.memory_read(location);
        self.rotate_and_set_flags(&mut value, ShiftDirection::Left);
        self.memory_write(value, location);
    }

    /// `ROR` on the accumulator.
    pub(crate) fn rotate_right_accumulator(&mut self)
        ensures
            final(self)@ == old(self)@.rotate_accumulator(ShiftDirection::Right),
    {
        proof {
            reveal(CpuView::rotate_accumulator);
        }
        let mut value = self.accumulator;
        self.rotate_and_set_flags(&mut value, ShiftDirection::Right);
        self.accumulator = value;
    }

    /// `ROR` on the byte at `location`.
    pub(crate) fn rotate_right_memory(&mut self, location: MemLocation)
        ensures
            final(self)@ == old(self)@.rotate_memory(location.0, ShiftDirection::Right),
    {
        proof {
            reveal(CpuView::rotate_memory);
        }
        let mut value = self.memory_read(location);
        self.rotate_and_set_flags(&mut value, ShiftDirection::Right);
        self.memory_write(value, location);
    }
}

} // verus!
