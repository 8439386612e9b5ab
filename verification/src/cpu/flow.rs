//! Branches, jumps, subroutines and interrupts.

use vstd::prelude::*;
use crate::bus::MemLocation;
use crate::cpu::memory::crosses_page;
use crate::cpu::memory::high;
use crate::cpu::memory::low;
use crate::cpu::little_endian_to_big_endian;
use crate::cpu::Cpu;
use crate::model::CpuView;
use crate::opcode::AddrMode;
use crate::status::CpuStatus;

verus! {

impl Cpu {
    /// A conditional branch: whether it was taken, and whether the taken
    /// branch left the page of the next instruction.
    pub(crate) fn branch(&mut self, should_branch: bool) -> (outcome: (bool, bool))
        ensures
            final(self)@ == old(self)@.branch(should_branch).state,
            outcome.0 == old(self)@.branch(should_branch).taken,
            outcome.1 == old(self)@.branch(should_branch).crossed,
    {
        proof {
            reveal(CpuView::branch);
        }
        // the operand byte is consumed whether or not the branch is taken
        let value = self.pc_next();
        if should_branch {
            let next = self.pc;
            let target = if value < 0x80 {
                next.wrapping_add(value as u16)
            } else {
                next.wrapping_sub(0x100 - value as u16)
            };
            self.pc = target;
            (true, crosses_page(next, target))
        } else {
            (false, false)
        }
    }

    /// `JMP`.
    pub(crate) fn jump(&mut self, addr_mode: &AddrMode)
        requires
            *addr_mode == AddrMode::Absolute || *addr_mode == AddrMode::Indirect,
        ensures
            final(self)@ == old(self)@.jump(*addr_mode),
    {
        proof {
            reveal(CpuView::jump);
        }
        let jump_address = self.pc_next_word();
        self.pc = match addr_mode {
            AddrMode::Indirect => self.read_word(MemLocation(jump_address)),
            _ => jump_address,
        };
    }

    /// `JSR`.
    pub(crate) fn jump_sub(&mut self)
        ensures
            final(self)@ == old(self)@.jump_sub(),
    {
        proof {
            reveal(CpuView::jump_sub);
        }
        let jump_address = self.pc_next_word();
        let return_addr = self.pc.wrapping_sub(1);
        self.stack_push(high(return_addr));
        self.stack_push(low(return_addr));
        self.pc = jump_address;
    }

    /// `RTS`.
    pub(crate) fn ret_sub(&mut self)
        ensures
            final(self)@ == old(self)@.ret_sub(),
    {
        proof {
            reveal(CpuView::ret_sub);
        }
        let a = self.stack_pop();
        let b = self.stack_pop();
        let return_addr = little_endian_to_big_endian(a, b);
        self.pc = return_addr.wrapping_add(1);
    }

    /// The interrupt sequence against the vector at `address`.
    pub(crate) fn interrupt(&mut self, address: MemLocation)
        ensures
            final(self)@ == old(self)@.interrupt(address.0),
    {
        proof {
            reveal(CpuView::interrupt);
        }
        let return_addr = self.pc;
        let status = self.status.bits();
        self.stack_push(high(return_addr));
        self.stack_push(low(return_addr));
        self.stack_push(status);
        self.status.set_int_disable(true);
        self.pc = self.read_word(address);
    }

    /// `RTI`.
    pub(crate) fn ret_interrupt(&mut self)
        ensures
            final(self)@ == old(self)@.ret_interrupt(),
    {
        proof {
            reveal(CpuView::ret_interrupt);
        }
        let status = self.stack_pop();
        let a = self.stack_pop();
        let b = self.stack_pop();
        self.status = CpuStatus::restore(status);
        self.pc = little_endian_to_big_endian(a, b);
    }
}

} // verus!
