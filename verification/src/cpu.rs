//! The processor: its registers, the decoding and execution of one
//! instruction, and the stack and interrupt discipline.

use vstd::prelude::*;
use crate::bus::Bus;
use crate::bus::MemLocation;
use crate::model::cost;
use crate::model::word;
use crate::model::wrap64;
use crate::model::CpuError;
use crate::model::CpuView;
use crate::model::Register;
use crate::model::BREAK_VECTOR;
use crate::model::RESET_VECTOR;
use crate::model::STACK_RESET;
use crate::opcode::AddrMode;
use crate::opcode::CycleLen;
use crate::opcode::Instruction;
use crate::opcode::Opcode;
pub use crate::status::CpuStatus;

mod addressing;
mod alu;
pub mod display;
mod flow;
mod memory;

verus! {

/// The processor and the bus it executes against.
pub struct Cpu {
    pub accumulator: u8,
    pub x: u8,
    pub y: u8,
    pub pc: u16,
    pub status: CpuStatus,
    pub stack_pointer: u8,
    /// The cycles spent so far, counted modulo `2^64`.
    pub cycles: u64,
    pub bus: Bus,
}

impl View for Cpu {
    type V = CpuView;

    open spec fn view(&self) -> CpuView {
        CpuView {
            a: self.accumulator,
            x: self.x,
            y: self.y,
            pc: self.pc,
            sp: self.stack_pointer,
            p: self.status@,
            cycles: self.cycles,
            bus: self.bus@,
        }
    }
}

/// Compose a 16-bit word from its two bytes as they lie in memory: the low
/// byte `a` first, the high byte `b` second.
pub fn little_endian_to_big_endian(a: u8, b: u8) -> (r: u16)
    ensures
        r == word(a, b),
{
    let high: u16 = (b as u16) * 256;
    high + (a as u16)
}

impl Cpu {
    /// The processor after a reset, attached to `bus`: it starts at the
    /// address stored in the reset vector.
    pub fn new(bus: Bus) -> (cpu: Self)
        ensures
            cpu@ == CpuView::reset(bus@),
    {
        proof {
            reveal(CpuView::reset);
        }
        let mut cpu = Cpu {
            accumulator: 0,
            x: 0,
            y: 0,
            pc: 0,
            status: CpuStatus::new(),
            stack_pointer: STACK_RESET,
            cycles: 0,
            bus,
        };
        cpu.pc = cpu.read_word(MemLocation(RESET_VECTOR));
        cpu
    }

    /// Carry out one instruction: fetch the opcode byte, decode it, resolve
    /// its operand, execute it and count its cycles. The result is the
    /// opcode byte. A byte that is not in the opcode table ends the step
    /// after the fetch, with an error that names the byte and the address
    /// it was fetched from.
    pub fn step(&mut self) -> (result: Result<u8, CpuError>)
        ensures
            final(self)@ == old(self)@.step(),
            result == old(self)@.step_result(),
    {
        proof {
            reveal(CpuView::step);
            reveal(CpuView::step_result);
        }
        let pc = self.pc;
        let code = self.pc_next();
        match Opcode::decode(code) {
            Some(opcode) => {
                self.run_instruction(opcode);
                Ok(code)
            },
            None => Err(CpuError::UnknownOpcode { code, pc }),
        }
    }

    /// Carry out up to `n` instructions, stopping at the first byte that
    /// does not decode.
    pub fn run_steps(&mut self, n: usize) -> (result: Result<(), CpuError>)
        ensures
            final(self)@ == old(self)@.run_steps(n as nat).0,
            result == match old(self)@.run_steps(n as nat).1 {
                Some(error) => Err::<(), CpuError>(error),
                None => Ok::<(), CpuError>(()),
            },
    {
        let mut i: usize = 0;
        while i < n
            invariant
                i <= n,
                old(self)@.run_steps(n as nat) == self@.run_steps((n - i) as nat),
            decreases n - i,
        {
            match self.step() {
                Ok(_) => {},
                Err(error) => {
                    return Err(error);
                },
            }
            i = i + 1;
        }
        Ok(())
    }

    /// Add the cycles of an instruction of timing class `len` to the
    /// counter.
    fn count_cycles(&mut self, len: CycleLen, crossed: bool, taken: bool)
        ensures
            final(self)@ == (CpuView {
                cycles: wrap64(old(self)@.cycles + cost(len, crossed, taken)),
                ..old(self)@
            }),
    {
        let (base, extra): (u64, u64) = match len {
            CycleLen::Constant(n) => (n as u64, 0),
            CycleLen::PageCrossed(n) => (
                n as u64,
                if crossed {
                    1
                } else {
                    0
                },
            ),
            CycleLen::Branch => (
                2,
                if !taken {
                    0
                } else if crossed {
                    2
                } else {
                    1
                },
            ),
        };
        self.cycles = self.cycles.wrapping_add(base).wrapping_add(extra);
    }

    /// Carry out a decoded instruction, the opcode byte already consumed.
    fn run_instruction(&mut self, opcode: Opcode)
        requires
            opcode.is_executable(),
        ensures
            final(self)@ == old(self)@.run_instruction(opcode),
    {
        proof {
            reveal(CpuView::run_instruction);
            reveal(CpuView::perform);
        }
        let Opcode(instruction, addr_mode, cycle_len) = opcode;
        let mut crossed = false;
        let mut taken = false;

        match instruction {
            Instruction::Adc
            | Instruction::And
            | Instruction::Bit
            | Instruction::Cmp
            | Instruction::Cpx
            | Instruction::Cpy
            | Instruction::Eor
            | Instruction::Lda
            | Instruction::Ldx
            | Instruction::Ldy
            | Instruction::Ora
            | Instruction::Sbc => {
                let (value, c) = self.get_value(&addr_mode);
                crossed = c;
                self.apply_value(instruction, value);
            },
            Instruction::Asl | Instruction::Lsr | Instruction::Rol | Instruction::Ror => {
                if addr_mode == AddrMode::Accumulator {
                    self.apply_accumulator(instruction);
                } else {
                    let (location, c) = self.get_location(&addr_mode);
                    crossed = c;
                    self.apply_location(instruction, location);
                }
            },
            Instruction::Dec
            | Instruction::Inc
            | Instruction::Sta
            | Instruction::Stx
            | Instruction::Sty => {
                let (location, c) = self.get_location(&addr_mode);
                crossed = c;
                self.apply_location(instruction, location);
            },
            Instruction::Bcc
            | Instruction::Bcs
            | Instruction::Beq
            | Instruction::Bmi
            | Instruction::Bne
            | Instruction::Bpl
            | Instruction::Bvc
            | Instruction::Bvs => {
                let condition = self.branch_condition(instruction);
                let (t, c) = self.branch(condition);
                taken = t;
                crossed = c;
            },
            Instruction::Jmp => self.jump(&addr_mode),
            _ => self.apply_implied(instruction),
        }

        self.count_cycles(cycle_len, crossed, taken);
    }

    /// Carry out an instruction that computes with the operand byte
    /// `value`.
    fn apply_value(&mut self, instruction: Instruction, value: u8)
        requires
            instruction.reads_operand(),
        ensures
            final(self)@ == old(self)@.apply_value(instruction, value),
    {
        proof {
            reveal(CpuView::apply_value);
        }
        match instruction {
            Instruction::Adc => self.add_accumulator(value),
            Instruction::And => self.and_accumulator(value),
            Instruction::Bit => self.bit_test(value),
            Instruction::Cmp => {
                let register = self.accumulator;
                self.compare(value, register);
            },
            Instruction::Cpx => {
                let register = self.x;
                self.compare(value, register);
            },
            Instruction::Cpy => {
                let register = self.y;
                self.compare(value, register);
            },
            Instruction::Eor => self.xor_accumulator(value),
            Instruction::Lda => self.load(Register::A, value),
            Instruction::Ldx => self.load(Register::X, value),
            Instruction::Ldy => self.load(Register::Y, value),
            Instruction::Ora => self.or_accumulator(value),
            _ => self.sub_accumulator(value),
        }
    }

    /// Carry out an instruction that works on the place `location` in
    /// memory.
    fn apply_location(&mut self, instruction: Instruction, location: MemLocation)
        requires
            instruction.acts_on_memory(),
        ensures
            final(self)@ == old(self)@.apply_location(instruction, location.0),
    {
        proof {
            reveal(CpuView::apply_location);
        }
        match instruction {
            Instruction::Asl => self.shift_left_memory(location),
            Instruction::Lsr => self.shift_right_memory(location),
            Instruction::Rol => self.rotate_left_memory(location),
            Instruction::Ror => self.rotate_right_memory(location),
            Instruction::Dec => self.dec_memory(location),
            Instruction::Inc => self.inc_memory(location),
            Instruction::Sta => self.store(Register::A, location),
            Instruction::Stx => self.store(Register::X, location),
            _ => self.store(Register::Y, location),
        }
    }

    /// Carry out a shift or a rotation of the accumulator.
    fn apply_accumulator(&mut self, instruction: Instruction)
        requires
            instruction.is_shift(),
        ensures
            final(self)@ == old(self)@.apply_accumulator(instruction),
    {
        proof {
            reveal(CpuView::apply_accumulator);
        }
        match instruction {
            Instruction::Asl => self.shift_left_accumulator(),
            Instruction::Lsr => self.shift_right_accumulator(),
            Instruction::Rol => self.rotate_left_accumulator(),
            _ => self.rotate_right_accumulator(),
        }
    }

    /// Whether the flag that the branch `instruction` tests is in the
    /// state that it branches on.
    fn branch_condition(&self, instruction: Instruction) -> (condition: bool)
        requires
            instruction.is_branch(),
        ensures
            condition == self@.branch_condition(instruction),
    {
        proof {
            reveal(CpuView::branch_condition);
        }
        match instruction {
            Instruction::Bcc => !self.status.get_carry(),
            Instruction::Bcs => self.status.get_carry(),
            Instruction::Beq => self.status.get_zero(),
            Instruction::Bne => !self.status.get_zero(),
            Instruction::Bmi => self.status.get_negative(),
            Instruction::Bpl => !self.status.get_negative(),
            Instruction::Bvs => self.status.get_overflow(),
            _ => !self.status.get_overflow(),
        }
    }

    /// Carry out an instruction that has no operand, or that, like `JSR`,
    /// has only one way to read it.
    fn apply_implied(&mut self, instruction: Instruction)
        requires
            !instruction.reads_operand(),
            !instruction.acts_on_memory(),
            !instruction.is_branch(),
            instruction != Instruction::Jmp,
        ensures
            final(self)@ == old(self)@.apply_implied(instruction),
    {
        proof {
            reveal(CpuView::apply_implied);
        }
        match instruction {
            Instruction::Brk => {
                self.status.set_break(true);
                self.interrupt(MemLocation(BREAK_VECTOR));
            },
            Instruction::Clc => self.status.set_carry(false),
            Instruction::Cld => self.status.set_decimal(false),
            Instruction::Cli => self.status.set_int_disable(false),
            Instruction::Clv => self.status.set_overflow(false),
            Instruction::Sec => self.status.set_carry(true),
            Instruction::Sed => self.status.set_decimal(true),
            Instruction::Sei => self.status.set_int_disable(true),
            Instruction::Dex => self.dec_register(Register::X),
            Instruction::Dey => self.dec_register(Register::Y),
            Instruction::Inx => self.inc_register(Register::X),
            Instruction::Iny => self.inc_register(Register::Y),
            Instruction::Jsr => self.jump_sub(),
            Instruction::Pha => {
                let value = self.accumulator;
                self.stack_push(value);
            },
            Instruction::Php => {
                let value = self.status.bits();
                self.stack_push(value);
            },
            Instruction::Pla => {
                let value = self.stack_pop();
                self.load(Register::A, value);
            },
            Instruction::Plp => {
                let value = self.stack_pop();
                self.status = CpuStatus::restore(value);
            },
            Instruction::Rti => self.ret_interrupt(),
            Instruction::Rts => self.ret_sub(),
            Instruction::Tax => self.transfer(Register::A, Register::X),
            Instruction::Tay => self.transfer(Register::A, Register::Y),
            Instruction::Tsx => self.transfer(Register::S, Register::X),
            Instruction::Txa => self.transfer(Register::X, Register::A),
            Instruction::Txs => self.transfer(Register::X, Register::S),
            Instruction::Tya => self.transfer(Register::Y, Register::A),
            _ => {},
        }
    }
}

} // verus!
