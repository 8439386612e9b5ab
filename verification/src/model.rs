//! The processor as a state machine over mathematical values: what each
//! addressing mode resolves to and what each instruction does to the state.

use vstd::prelude::*;
use crate::bus::BusView;
use crate::opcode::AddrMode;
use crate::opcode::CycleLen;
use crate::opcode::Instruction;
use crate::opcode::Opcode;
use crate::status::restored_status;
use crate::status::flag_is_set;
use crate::status::with_flag;
use crate::status::with_three_flags;
use crate::status::with_zero_negative;
use crate::status::ALWAYS_SET;
use crate::status::BREAK;
use crate::status::CARRY;
use crate::status::DECIMAL;
use crate::status::INT_DISABLE;
use crate::status::NEGATIVE;
use crate::status::OVERFLOW;
use crate::status::ZERO;

verus! {

/// The address that the processor starts from is stored here, low byte
/// first.
pub const RESET_VECTOR: u16 = 0xfffc;

/// The address of the handler for `BRK` and interrupt requests is stored
/// here, low byte first.
pub const BREAK_VECTOR: u16 = 0xfffe;

/// The stack pointer after a reset.
pub const STACK_RESET: u8 = 0xfd;

/// The registers that an instruction can name.
#[derive(Clone, Copy, Debug, PartialEq, Eq, Structural)]
pub enum Register {
    A,
    X,
    Y,
    PC,
    S,
    P,
}

/// The two directions of a shift or a rotation.
#[derive(Clone, Copy, Debug, PartialEq, Eq, Structural)]
pub enum ShiftDirection {
    Left,
    Right,
}

/// Why a step could not be carried out.
#[derive(Clone, Copy, Debug, PartialEq, Eq, Structural)]
pub enum CpuError {
    /// The byte `code`, fetched at `pc`, is not in the opcode table.
    UnknownOpcode { code: u8, pc: u16 },
}

/// `i` reduced to a byte.
pub open spec fn wrap8(i: int) -> u8 {
    (i % 0x100) as u8
}

/// `i` reduced to a 16-bit word.
pub open spec fn wrap16(i: int) -> u16 {
    (i % 0x1_0000) as u16
}

/// `i` reduced to 64 bits.
pub open spec fn wrap64(i: int) -> u64 {
    (i % 0x1_0000_0000_0000_0000) as u64
}

/// The 16-bit word whose low byte is `lo` and whose high byte is `hi`.
pub open spec fn word(lo: u8, hi: u8) -> u16 {
    (lo + 0x100 * hi) as u16
}

/// The low byte of `w`.
pub open spec fn low_byte(w: u16) -> u8 {
    (w % 0x100) as u8
}

/// The high byte of `w`.
pub open spec fn high_byte(w: u16) -> u8 {
    (w / 0x100) as u8
}

/// The operand byte of a branch read as a signed distance.
pub open spec fn displacement(offset: u8) -> int {
    if offset < 0x80 {
        offset as int
    } else {
        offset - 0x100
    }
}

/// Whether `addr` lies in another 256-byte page than `base`.
pub open spec fn page_crossed(base: u16, addr: u16) -> bool {
    base / 0x100 != addr / 0x100
}

/// The address of byte `sp` of the stack page.
pub open spec fn stack_addr(sp: u8) -> u16 {
    (0x0100 + sp) as u16
}

/// The carry flag of status byte `p` as a number.
pub open spec fn carry_of(p: u8) -> int {
    if flag_is_set(p, CARRY) {
        1
    } else {
        0
    }
}

/// `value` shifted by one bit.
pub open spec fn shifted(value: u8, direction: ShiftDirection) -> u8 {
    match direction {
        ShiftDirection::Left => value << 1u8,
        ShiftDirection::Right => value >> 1u8,
    }
}

/// The bit that a shift or a rotation of `value` pushes out.
pub open spec fn shifted_out(value: u8, direction: ShiftDirection) -> bool {
    match direction {
        ShiftDirection::Left => value & 0x80 != 0,
        ShiftDirection::Right => value & 0x01 != 0,
    }
}

/// `value` rotated by one bit, with `carry` entering at the free end.
pub open spec fn rotated(value: u8, carry: bool, direction: ShiftDirection) -> u8 {
    match direction {
        ShiftDirection::Left => (value << 1u8) | (if carry {
            0x01u8
        } else {
            0x00u8
        }),
        ShiftDirection::Right => (value >> 1u8) | (if carry {
            0x80u8
        } else {
            0x00u8
        }),
    }
}

/// The number of cycles that an instruction of timing class `len` takes,
/// given whether its address crossed a page and whether it branched.
pub open spec fn cost(len: CycleLen, crossed: bool, taken: bool) -> int {
    match len {
        CycleLen::Constant(n) => n as int,
        CycleLen::PageCrossed(n) => if crossed {
            n + 1
        } else {
            n as int
        },
        CycleLen::Branch => if !taken {
            2
        } else if crossed {
            4
        } else {
            3
        },
    }
}

/// The state of the processor together with the bus it executes against.
pub ghost struct CpuView {
    /// The accumulator.
    pub a: u8,
    pub x: u8,
    pub y: u8,
    /// The program counter.
    pub pc: u16,
    /// The stack pointer: the byte of page one below the top of the stack.
    pub sp: u8,
    /// The status byte.
    pub p: u8,
    /// The cycles spent so far, counted modulo `2^64`.
    pub cycles: u64,
    pub bus: BusView,
}

/// What carrying out an instruction leaves behind: the new state, and the
/// two facts that its timing depends on.
pub ghost struct Outcome {
    pub state: CpuView,
    /// Whether the effective address, or the target of a taken branch,
    /// lies in another page than the address it was computed from.
    pub crossed: bool,
    /// Whether a branch was taken.
    pub taken: bool,
}

impl CpuView {
    // ------------------------------------------------------------------
    // Memory, program counter, stack
    // ------------------------------------------------------------------

    /// Read the byte at `addr`: the byte, and the state after the read.
    #[verifier::opaque]
    pub open spec fn memory_read(self, addr: u16) -> (u8, CpuView) {
        (self.bus.read_value(addr), CpuView { bus: self.bus.after_read(addr), ..self })
    }

    /// The state after `value` is written to `addr`.
    #[verifier::opaque]
    pub open spec fn memory_write(self, value: u8, addr: u16) -> CpuView {
        CpuView { bus: self.bus.write(addr, value), ..self }
    }

    /// Read the byte at the program counter and step past it.
    #[verifier::opaque]
    pub open spec fn pc_next(self) -> (u8, CpuView) {
        let (value, s) = self.memory_read(self.pc);
        (value, CpuView { pc: wrap16(self.pc + 1), ..s })
    }

    /// Read the two bytes at the program counter as a word, low byte
    /// first, and step past them.
    #[verifier::opaque]
    pub open spec fn pc_next_word(self) -> (u16, CpuView) {
        let (lo, s1) = self.pc_next();
        let (hi, s2) = s1.pc_next();
        (word(lo, hi), s2)
    }

    /// Read the word at `addr`: low byte at `addr`, high byte at the next
    /// address.
    #[verifier::opaque]
    pub open spec fn read_word(self, addr: u16) -> (u16, CpuView) {
        let (lo, s1) = self.memory_read(addr);
        let (hi, s2) = s1.memory_read(wrap16(addr + 1));
        (word(lo, hi), s2)
    }

    /// Read the word at byte `location` of page zero. The high byte comes
    /// from the next byte of page zero, which after the last is the first.
    #[verifier::opaque]
    pub open spec fn read_page_0_word(self, location: u8) -> (u16, CpuView) {
        let (lo, s1) = self.memory_read(location as u16);
        let (hi, s2) = s1.memory_read(wrap8(location + 1) as u16);
        (word(lo, hi), s2)
    }

    /// Push `value`: store it at the stack pointer, then move the pointer
    /// down.
    #[verifier::opaque]
    pub open spec fn stack_push(self, value: u8) -> CpuView {
        CpuView { sp: wrap8(self.sp - 1), ..self.memory_write(value, stack_addr(self.sp)) }
    }

    /// Pull a byte: move the stack pointer up, then read what it points at.
    #[verifier::opaque]
    pub open spec fn stack_pop(self) -> (u8, CpuView) {
        let sp = wrap8(self.sp + 1);
        let (value, s) = self.memory_read(stack_addr(sp));
        (value, CpuView { sp, ..s })
    }

    // ------------------------------------------------------------------
    // Addressing modes
    // ------------------------------------------------------------------

    /// Resolve a mode that names a place in memory: the effective address,
    /// whether indexing moved it into another page, and the state after
    /// the operand bytes have been consumed.
    #[verifier::opaque]
    pub open spec fn get_location(self, mode: AddrMode) -> (u16, bool, CpuView) {
        match mode {
            AddrMode::ZeroPage => {
                let (op, s) = self.pc_next();
                (op as u16, false, s)
            },
            AddrMode::ZeroPageX => {
                let (op, s) = self.pc_next();
                (wrap8(op + self.x) as u16, false, s)
            },
            AddrMode::ZeroPageY => {
                let (op, s) = self.pc_next();
                (wrap8(op + self.y) as u16, false, s)
            },
            AddrMode::Absolute => {
                let (base, s) = self.pc_next_word();
                (base, false, s)
            },
            AddrMode::AbsoluteX => {
                let (base, s) = self.pc_next_word();
                let addr = wrap16(base + self.x);
                (addr, page_crossed(base, addr), s)
            },
            AddrMode::AbsoluteY => {
                let (base, s) = self.pc_next_word();
                let addr = wrap16(base + self.y);
                (addr, page_crossed(base, addr), s)
            },
            AddrMode::IndirectX => {
                let (op, s1) = self.pc_next();
                let (addr, s2) = s1.read_page_0_word(wrap8(op + self.x));
                (addr, false, s2)
            },
            AddrMode::IndirectY => {
                let (op, s1) = self.pc_next();
                let (base, s2) = s1.read_page_0_word(op);
                let addr = wrap16(base + self.y);
                (addr, page_crossed(base, addr), s2)
            },
            _ => (0, false, self),
        }
    }

    /// Resolve a mode that yields an operand byte: the byte, whether
    /// indexing crossed a page, and the state afterwards.
    #[verifier::opaque]
    pub open spec fn get_value(self, mode: AddrMode) -> (u8, bool, CpuView) {
        if mode == AddrMode::Immediate || mode == AddrMode::Relative {
            let (value, s) = self.pc_next();
            (value, false, s)
        } else {
            let (addr, crossed, s1) = self.get_location(mode);
            let (value, s2) = s1.memory_read(addr);
            (value, crossed, s2)
        }
    }

    // ------------------------------------------------------------------
    // Registers
    // ------------------------------------------------------------------

    /// The byte in register `reg`, for the four registers that instructions
    /// copy from.
    pub open spec fn register(self, reg: Register) -> u8 {
        match reg {
            Register::A => self.a,
            Register::X => self.x,
            Register::Y => self.y,
            Register::S => self.sp,
            _ => 0,
        }
    }

    /// The state with `value` in register `reg`, flags untouched.
    pub open spec fn with_register(self, reg: Register, value: u8) -> CpuView {
        match reg {
            Register::A => CpuView { a: value, ..self },
            Register::X => CpuView { x: value, ..self },
            Register::Y => CpuView { y: value, ..self },
            Register::S => CpuView { sp: value, ..self },
            _ => self,
        }
    }

    /// The state with Z and N describing `value`.
    pub open spec fn with_result_flags(self, value: u8) -> CpuView {
        CpuView { p: with_zero_negative(self.p, value), ..self }
    }

    /// The state with flag `mask` set or cleared.
    pub open spec fn with_status_flag(self, mask: u8, on: bool) -> CpuView {
        CpuView { p: with_flag(self.p, mask, on), ..self }
    }

    /// `LDA`, `LDX`, `LDY`: put `value` into `reg` and set Z and N from it.
    #[verifier::opaque]
    pub open spec fn load(self, reg: Register, value: u8) -> CpuView {
        self.with_register(reg, value).with_result_flags(value)
    }

    /// `STA`, `STX`, `STY`: write `reg` to `addr`.
    #[verifier::opaque]
    pub open spec fn store(self, reg: Register, addr: u16) -> CpuView {
        self.memory_write(self.register(reg), addr)
    }

    /// The transfers: copy `src` to `dst`. Z and N follow the copied byte
    /// unless the destination is the stack pointer.
    #[verifier::opaque]
    pub open spec fn transfer(self, src: Register, dst: Register) -> CpuView {
        let value = self.register(src);
        let s = self.with_register(dst, value);
        if dst == Register::S {
            s
        } else {
            s.with_result_flags(value)
        }
    }

    /// `INX`, `INY`: add one to `reg`, wrapping, and set Z and N.
    #[verifier::opaque]
    pub open spec fn inc_register(self, reg: Register) -> CpuView {
        self.load(reg, wrap8(self.register(reg) + 1))
    }

    /// `DEX`, `DEY`: subtract one from `reg`, wrapping, and set Z and N.
    #[verifier::opaque]
    pub open spec fn dec_register(self, reg: Register) -> CpuView {
        self.load(reg, wrap8(self.register(reg) - 1))
    }

    // ------------------------------------------------------------------
    // Arithmetic and logic
    // ------------------------------------------------------------------

    /// `ADC`: add `value` and the carry to the accumulator. C is the carry
    /// out of bit 7, V tells that the sign of the result differs from the
    /// sign that both operands share.
    #[verifier::opaque]
    pub open spec fn add_accumulator(self, value: u8) -> CpuView {
        let sum = self.a + value + carry_of(self.p);
        let result = wrap8(sum);
        let overflow = !(self.a ^ value) & (self.a ^ result) & 0x80 != 0;
        let status = with_flag(with_flag(self.p, CARRY, sum > 0xff), OVERFLOW, overflow);
        CpuView { a: result, p: with_zero_negative(status, result), ..self }
    }

    /// `SBC`: subtract `value` and the borrow, which is the inverse of the
    /// carry, from the accumulator. C is set unless the subtraction
    /// borrowed, V tells that the operands differ in sign and the result
    /// has the sign of `value`.
    #[verifier::opaque]
    pub open spec fn sub_accumulator(self, value: u8) -> CpuView {
        let difference = self.a - value - (1 - carry_of(self.p));
        let result = wrap8(difference);
        let overflow = (self.a ^ value) & (self.a ^ result) & 0x80 != 0;
        let status = with_flag(with_flag(self.p, CARRY, difference >= 0), OVERFLOW, overflow);
        CpuView { a: result, p: with_zero_negative(status, result), ..self }
    }

    /// `AND`.
    #[verifier::opaque]
    pub open spec fn and_accumulator(self, value: u8) -> CpuView {
        self.load(Register::A, self.a & value)
    }

    /// `ORA`.
    #[verifier::opaque]
    pub open spec fn or_accumulator(self, value: u8) -> CpuView {
        self.load(Register::A, self.a | value)
    }

    /// `EOR`.
    #[verifier::opaque]
    pub open spec fn xor_accumulator(self, value: u8) -> CpuView {
        self.load(Register::A, self.a ^ value)
    }

    /// `CMP`, `CPX`, `CPY`: compare the byte `register` with `value`. C
    /// tells that the register is not below the value, Z that they are
    /// equal, N is bit 7 of their difference.
    #[verifier::opaque]
    pub open spec fn compare(self, value: u8, register: u8) -> CpuView {
        let negative = wrap8(register - value) & 0x80 != 0;
        CpuView {
            p: with_three_flags(
                self.p,
                (CARRY, ZERO, NEGATIVE),
                (register >= value, register == value, negative),
            ),
            ..self
        }
    }

    /// `BIT`: Z tells that the accumulator and `value` share no bit, V and
    /// N are bits 6 and 7 of `value`.
    #[verifier::opaque]
    pub open spec fn bit_test(self, value: u8) -> CpuView {
        CpuView {
            p: with_three_flags(
                self.p,
                (ZERO, OVERFLOW, NEGATIVE),
                (self.a & value == 0, value & 0x40 != 0, value & 0x80 != 0),
            ),
            ..self
        }
    }

    /// Shift `value` by one bit: the shifted byte, and the state with C
    /// holding the bit shifted out and Z and N describing the result.
    #[verifier::opaque]
    pub open spec fn bitshift_and_set_flags(self, value: u8, direction: ShiftDirection) -> (
        u8,
        CpuView,
    ) {
        let result = shifted(value, direction);
        (
            result,
            self.with_status_flag(CARRY, shifted_out(value, direction)).with_result_flags(result),
        )
    }

    /// Rotate `value` by one bit through the carry: the rotated byte, and
    /// the state with C holding the bit pushed out and Z and N describing
    /// the result.
    #[verifier::opaque]
    pub open spec fn rotate_and_set_flags(self, value: u8, direction: ShiftDirection) -> (
        u8,
        CpuView,
    ) {
        let result = rotated(value, flag_is_set(self.p, CARRY), direction);
        (
            result,
            self.with_status_flag(CARRY, shifted_out(value, direction)).with_result_flags(result),
        )
    }

    /// `ASL`, `LSR` on the accumulator.
    #[verifier::opaque]
    pub open spec fn shift_accumulator(self, direction: ShiftDirection) -> CpuView {
        let (result, s) = self.bitshift_and_set_flags(self.a, direction);
        CpuView { a: result, ..s }
    }

    /// `ROL`, `ROR` on the accumulator.
    #[verifier::opaque]
    pub open spec fn rotate_accumulator(self, direction: ShiftDirection) -> CpuView {
        let (result, s) = self.rotate_and_set_flags(self.a, direction);
        CpuView { a: result, ..s }
    }

    /// `ASL`, `LSR` on the byte at `addr`.
    #[verifier::opaque]
    pub open spec fn shift_memory(self, addr: u16, direction: ShiftDirection) -> CpuView {
        let (value, s1) = self.memory_read(addr);
        let (result, s2) = s1.bitshift_and_set_flags(value, direction);
        s2.memory_write(result, addr)
    }

    /// `ROL`, `ROR` on the byte at `addr`.
    #[verifier::opaque]
    pub open spec fn rotate_memory(self, addr: u16, direction: ShiftDirection) -> CpuView {
        let (value, s1) = self.memory_read(addr);
        let (result, s2) = s1.rotate_and_set_flags(value, direction);
        s2.memory_write(result, addr)
    }

    /// `INC`: add one to the byte at `addr`, wrapping, and set Z and N from
    /// the sum.
    #[verifier::opaque]
    pub open spec fn inc_memory(self, addr: u16) -> CpuView {
        let (value, s) = self.memory_read(addr);
        let result = wrap8(value + 1);
        s.memory_write(result, addr).with_result_flags(result)
    }

    /// `DEC`: subtract one from the byte at `addr`, wrapping, and set Z and
    /// N from the difference.
    #[verifier::opaque]
    pub open spec fn dec_memory(self, addr: u16) -> CpuView {
        let (value, s) = self.memory_read(addr);
        let result = wrap8(value - 1);
        s.memory_write(result, addr).with_result_flags(result)
    }

    // ------------------------------------------------------------------
    // Control flow
    // ------------------------------------------------------------------

    /// A conditional branch: consume the operand byte and, if
    /// `should_branch`, add it as a signed distance to the program counter.
    #[verifier::opaque]
    pub open spec fn branch(self, should_branch: bool) -> Outcome {
        let (offset, s) = self.pc_next();
        if should_branch {
            let target = wrap16(s.pc + displacement(offset));
            Outcome {
                state: CpuView { pc: target, ..s },
                crossed: page_crossed(s.pc, target),
                taken: true,
            }
        } else {
            Outcome { state: s, crossed: false, taken: false }
        }
    }

    /// `JMP`: continue at the operand word, or, in indirect mode, at the
    /// word stored there.
    #[verifier::opaque]
    pub open spec fn jump(self, mode: AddrMode) -> CpuView {
        let (operand, s1) = self.pc_next_word();
        if mode == AddrMode::Indirect {
            let (target, s2) = s1.read_word(operand);
            CpuView { pc: target, ..s2 }
        } else {
            CpuView { pc: operand, ..s1 }
        }
    }

    /// `JSR`: push the address of the last byte of this instruction, high
    /// byte first, and continue at the operand word.
    #[verifier::opaque]
    pub open spec fn jump_sub(self) -> CpuView {
        let (target, s) = self.pc_next_word();
        let return_addr = wrap16(s.pc - 1);
        CpuView {
            pc: target,
            ..s.stack_push(high_byte(return_addr)).stack_push(low_byte(return_addr))
        }
    }

    /// `RTS`: pull an address, low byte first, and continue at the byte
    /// after it.
    #[verifier::opaque]
    pub open spec fn ret_sub(self) -> CpuView {
        let (lo, s1) = self.stack_pop();
        let (hi, s2) = s1.stack_pop();
        CpuView { pc: wrap16(word(lo, hi) + 1), ..s2 }
    }

    /// The interrupt sequence: push the program counter, high byte first,
    /// push the status byte, mask interrupt requests, and continue at the
    /// word stored at `vector`.
    #[verifier::opaque]
    pub open spec fn interrupt(self, vector: u16) -> CpuView {
        let s1 = self.stack_push(high_byte(self.pc)).stack_push(low_byte(self.pc)).stack_push(
            self.p,
        );
        let (target, s2) = s1.with_status_flag(INT_DISABLE, true).read_word(vector);
        CpuView { pc: target, ..s2 }
    }

    /// `RTI`: pull the status byte, then pull the program counter, low byte
    /// first, and continue exactly there.
    #[verifier::opaque]
    pub open spec fn ret_interrupt(self) -> CpuView {
        let (status, s1) = self.stack_pop();
        let (lo, s2) = s1.stack_pop();
        let (hi, s3) = s2.stack_pop();
        CpuView { pc: word(lo, hi), p: restored_status(status), ..s3 }
    }

    // ------------------------------------------------------------------
    // The instruction set
    // ------------------------------------------------------------------

    /// What an instruction that computes with an operand byte does with
    /// `value`.
    #[verifier::opaque]
    pub open spec fn apply_value(self, instruction: Instruction, value: u8) -> CpuView {
        match instruction {
            Instruction::Adc => self.add_accumulator(value),
            Instruction::And => self.and_accumulator(value),
            Instruction::Bit => self.bit_test(value),
            Instruction::Cmp => self.compare(value, self.a),
            Instruction::Cpx => self.compare(value, self.x),
            Instruction::Cpy => self.compare(value, self.y),
            Instruction::Eor => self.xor_accumulator(value),
            Instruction::Lda => self.load(Register::A, value),
            Instruction::Ldx => self.load(Register::X, value),
            Instruction::Ldy => self.load(Register::Y, value),
            Instruction::Ora => self.or_accumulator(value),
            Instruction::Sbc => self.sub_accumulator(value),
            _ => self,
        }
    }

    /// What an instruction that works on a place in memory does at `addr`.
    #[verifier::opaque]
    pub open spec fn apply_location(self, instruction: Instruction, addr: u16) -> CpuView {
        match instruction {
            Instruction::Asl => self.shift_memory(addr, ShiftDirection::Left),
            Instruction::Lsr => self.shift_memory(addr, ShiftDirection::Right),
            Instruction::Rol => self.rotate_memory(addr, ShiftDirection::Left),
            Instruction::Ror => self.rotate_memory(addr, ShiftDirection::Right),
            Instruction::Dec => self.dec_memory(addr),
            Instruction::Inc => self.inc_memory(addr),
            Instruction::Sta => self.store(Register::A, addr),
            Instruction::Stx => self.store(Register::X, addr),
            Instruction::Sty => self.store(Register::Y, addr),
            _ => self,
        }
    }

    /// What a shift or rotation does to the accumulator.
    #[verifier::opaque]
    pub open spec fn apply_accumulator(self, instruction: Instruction) -> CpuView {
        match instruction {
            Instruction::Asl => self.shift_accumulator(ShiftDirection::Left),
            Instruction::Lsr => self.shift_accumulator(ShiftDirection::Right),
            Instruction::Rol => self.rotate_accumulator(ShiftDirection::Left),
            Instruction::Ror => self.rotate_accumulator(ShiftDirection::Right),
            _ => self,
        }
    }

    /// Whether the flag that a branch instruction tests is in the state
    /// that it branches on.
    #[verifier::opaque]
    pub open spec fn branch_condition(self, instruction: Instruction) -> bool {
        match instruction {
            Instruction::Bcc => !flag_is_set(self.p, CARRY),
            Instruction::Bcs => flag_is_set(self.p, CARRY),
            Instruction::Beq => flag_is_set(self.p, ZERO),
            Instruction::Bne => !flag_is_set(self.p, ZERO),
            Instruction::Bmi => flag_is_set(self.p, NEGATIVE),
            Instruction::Bpl => !flag_is_set(self.p, NEGATIVE),
            Instruction::Bvs => flag_is_set(self.p, OVERFLOW),
            Instruction::Bvc => !flag_is_set(self.p, OVERFLOW),
            _ => false,
        }
    }

    /// What an instruction without an operand does.
    #[verifier::opaque]
    pub open spec fn apply_implied(self, instruction: Instruction) -> CpuView {
        match instruction {
            Instruction::Brk => self.with_status_flag(BREAK, true).interrupt(BREAK_VECTOR),
            Instruction::Clc => self.with_status_flag(CARRY, false),
            Instruction::Cld => self.with_status_flag(DECIMAL, false),
            Instruction::Cli => self.with_status_flag(INT_DISABLE, false),
            Instruction::Clv => self.with_status_flag(OVERFLOW, false),
            Instruction::Sec => self.with_status_flag(CARRY, true),
            Instruction::Sed => self.with_status_flag(DECIMAL, true),
            Instruction::Sei => self.with_status_flag(INT_DISABLE, true),
            Instruction::Dex => self.dec_register(Register::X),
            Instruction::Dey => self.dec_register(Register::Y),
            Instruction::Inx => self.inc_register(Register::X),
            Instruction::Iny => self.inc_register(Register::Y),
            Instruction::Jsr => self.jump_sub(),
            Instruction::Pha => self.stack_push(self.a),
            Instruction::Php => self.stack_push(self.p),
            Instruction::Pla => {
                let (value, s) = self.stack_pop();
                s.load(Register::A, value)
            },
            Instruction::Plp => {
                let (value, s) = self.stack_pop();
                CpuView { p: restored_status(value), ..s }
            },
            Instruction::Rti => self.ret_interrupt(),
            Instruction::Rts => self.ret_sub(),
            Instruction::Tax => self.transfer(Register::A, Register::X),
            Instruction::Tay => self.transfer(Register::A, Register::Y),
            Instruction::Tsx => self.transfer(Register::S, Register::X),
            Instruction::Txa => self.transfer(Register::X, Register::A),
            Instruction::Txs => self.transfer(Register::X, Register::S),
            Instruction::Tya => self.transfer(Register::Y, Register::A),
            _ => self,
        }
    }

    /// Carry out `instruction` with addressing mode `mode`, the opcode byte
    /// already consumed.
    #[verifier::opaque]
    pub open spec fn perform(self, instruction: Instruction, mode: AddrMode) -> Outcome {
        if instruction.reads_operand() {
            let (value, crossed, s) = self.get_value(mode);
            Outcome { state: s.apply_value(instruction, value), crossed, taken: false }
        } else if instruction.is_shift() && mode == AddrMode::Accumulator {
            Outcome { state: self.apply_accumulator(instruction), crossed: false, taken: false }
        } else if instruction.acts_on_memory() {
            let (addr, crossed, s) = self.get_location(mode);
            Outcome { state: s.apply_location(instruction, addr), crossed, taken: false }
        } else if instruction.is_branch() {
            self.branch(self.branch_condition(instruction))
        } else if instruction == Instruction::Jmp {
            Outcome { state: self.jump(mode), crossed: false, taken: false }
        } else {
            Outcome { state: self.apply_implied(instruction), crossed: false, taken: false }
        }
    }

    /// Carry out `opcode` and count its cycles.
    #[verifier::opaque]
    pub open spec fn run_instruction(self, opcode: Opcode) -> CpuView {
        let outcome = self.perform(opcode.0, opcode.1);
        CpuView {
            cycles: wrap64(outcome.state.cycles + cost(opcode.2, outcome.crossed, outcome.taken)),
            ..outcome.state
        }
    }

    /// How the next step ends: with the opcode byte that it carried out,
    /// or with the reason why it could not carry one out.
    #[verifier::opaque]
    pub open spec fn step_result(self) -> Result<u8, CpuError> {
        let code = self.pc_next().0;
        if Opcode::table(code) is None {
            Err(CpuError::UnknownOpcode { code, pc: self.pc })
        } else {
            Ok(code)
        }
    }

    /// One step: fetch the opcode byte, decode it and carry it out. When
    /// the byte is not in the table, the step ends after the fetch.
    #[verifier::opaque]
    pub open spec fn step(self) -> CpuView {
        let (code, s) = self.pc_next();
        match Opcode::table(code) {
            Some(opcode) => s.run_instruction(opcode),
            None => s,
        }
    }

    /// The state after up to `n` steps, and the error that ended them
    /// early, if one did.
    pub open spec fn run_steps(self, n: nat) -> (CpuView, Option<CpuError>)
        decreases n,
    {
        if n == 0 {
            (self, None)
        } else if let Err(error) = self.step_result() {
            (self.step(), Some(error))
        } else {
            self.step().run_steps((n - 1) as nat)
        }
    }

    /// The state after a reset: registers cleared, the stack pointer at its
    /// reset value, every flag clear, and the program counter loaded from
    /// the reset vector.
    #[verifier::opaque]
    pub open spec fn reset(bus: BusView) -> CpuView {
        let s = CpuView {
            a: 0,
            x: 0,
            y: 0,
            pc: 0,
            sp: STACK_RESET,
            p: ALWAYS_SET,
            cycles: 0,
            bus,
        };
        let (start, s1) = s.read_word(RESET_VECTOR);
        CpuView { pc: start, ..s1 }
    }
}

} // verus!
