//! What holds of every instruction: which flags it may change, that bit 5
//! of the status byte stays set, and which registers memory accesses leave
//! alone.

use vstd::prelude::*;
use crate::bus::BusView;
use crate::model::wrap8;
use crate::model::wrap16;
use crate::model::shifted_out;
use crate::model::shifted;
use crate::model::rotated;
use crate::model::low_byte;
use crate::model::high_byte;
use crate::model::carry_of;
use crate::model::STACK_RESET;
use crate::model::RESET_VECTOR;
use crate::model::CpuView;
use crate::model::Register;
use crate::model::ShiftDirection;
use crate::model::BREAK_VECTOR;
use crate::opcode::AddrMode;
use crate::opcode::Instruction;
use crate::opcode::Opcode;
use crate::status::changes_only;
use crate::status::flag_is_set;
use crate::status::with_flag;
use crate::status::lemma_arithmetic_flags;
use crate::status::lemma_break_flags;
use crate::status::lemma_carry_result_flags;
use crate::status::lemma_restored_status;
use crate::status::lemma_result_flags;
use crate::status::lemma_three_flags;
use crate::status::lemma_whole_byte;
use crate::status::lemma_with_flag;
use crate::status::ALWAYS_SET;
use crate::status::BREAK;
use crate::status::CARRY;
use crate::status::DECIMAL;
use crate::status::INT_DISABLE;
use crate::status::NEGATIVE;
use crate::status::OVERFLOW;
use crate::status::ZERO;

pub mod arithmetic;
pub mod memory;
pub mod stack;

verus! {

/// Whether `t` has the accumulator, the index registers, the status byte
/// and the cycle counter of `s`.
pub open spec fn same_registers(s: CpuView, t: CpuView) -> bool {
    t.a == s.a && t.x == s.x && t.y == s.y && t.p == s.p && t.cycles == s.cycles
}

/// Whether `t` has the status byte of `s` where `mask` allows no change,
/// and still has bit 5 set if `s` has.
pub open spec fn status_within(s: CpuView, t: CpuView, mask: u8) -> bool {
    changes_only(s.p, t.p, mask) && (flag_is_set(s.p, ALWAYS_SET) ==> flag_is_set(
        t.p,
        ALWAYS_SET,
    ))
}

impl Instruction {
    /// The flags that the instruction may change. Every other bit of the
    /// status byte comes out of it as it went in.
    pub open spec fn updated_flags(self) -> u8 {
        match self {
            Instruction::Adc | Instruction::Sbc => CARRY | ZERO | OVERFLOW | NEGATIVE,
            Instruction::Asl
            | Instruction::Lsr
            | Instruction::Rol
            | Instruction::Ror
            | Instruction::Cmp
            | Instruction::Cpx
            | Instruction::Cpy => CARRY | ZERO | NEGATIVE,
            Instruction::Bit => ZERO | OVERFLOW | NEGATIVE,
            Instruction::And
            | Instruction::Eor
            | Instruction::Ora
            | Instruction::Lda
            | Instruction::Ldx
            | Instruction::Ldy
            | Instruction::Dec
            | Instruction::Dex
            | Instruction::Dey
            | Instruction::Inc
            | Instruction::Inx
            | Instruction::Iny
            | Instruction::Pla
            | Instruction::Tax
            | Instruction::Tay
            | Instruction::Tsx
            | Instruction::Txa
            | Instruction::Tya => ZERO | NEGATIVE,
            Instruction::Clc | Instruction::Sec => CARRY,
            Instruction::Cld | Instruction::Sed => DECIMAL,
            Instruction::Cli | Instruction::Sei => INT_DISABLE,
            Instruction::Clv => OVERFLOW,
            Instruction::Brk => BREAK | INT_DISABLE,
            Instruction::Plp | Instruction::Rti => 0xff,
            _ => 0x00,
        }
    }
}

/// Reading and writing memory, fetching at the program counter and using
/// the stack leave the accumulator, the index registers, the status byte
/// and the cycle counter alone. Only fetching moves the program counter,
/// only the stack operations move the stack pointer.
pub proof fn lemma_access_keeps_registers(s: CpuView, addr: u16, value: u8, location: u8)
    ensures
        same_registers(s, s.memory_read(addr).1),
        s.memory_read(addr).1.pc == s.pc && s.memory_read(addr).1.sp == s.sp,
        same_registers(s, s.memory_write(value, addr)),
        s.memory_write(value, addr).pc == s.pc && s.memory_write(value, addr).sp == s.sp,
        same_registers(s, s.pc_next().1),
        s.pc_next().1.sp == s.sp,
        same_registers(s, s.pc_next_word().1),
        s.pc_next_word().1.sp == s.sp,
        same_registers(s, s.read_word(addr).1),
        s.read_word(addr).1.pc == s.pc && s.read_word(addr).1.sp == s.sp,
        same_registers(s, s.read_page_0_word(location).1),
        s.read_page_0_word(location).1.pc == s.pc && s.read_page_0_word(location).1.sp == s.sp,
        same_registers(s, s.stack_push(value)),
        s.stack_push(value).pc == s.pc,
        same_registers(s, s.stack_pop().1),
        s.stack_pop().1.pc == s.pc,
{
    reveal(CpuView::memory_read);
    reveal(CpuView::memory_write);
    reveal(CpuView::pc_next);
    reveal(CpuView::pc_next_word);
    reveal(CpuView::read_word);
    reveal(CpuView::read_page_0_word);
    reveal(CpuView::stack_push);
    reveal(CpuView::stack_pop);
}

/// Resolving an operand leaves the accumulator, the index registers, the
/// status byte, the cycle counter and the stack pointer alone.
pub proof fn lemma_operand_keeps_registers(s: CpuView, mode: AddrMode)
    ensures
        same_registers(s, s.get_location(mode).2),
        s.get_location(mode).2.sp == s.sp,
        same_registers(s, s.get_value(mode).2),
        s.get_value(mode).2.sp == s.sp,
{
    reveal(CpuView::get_location);
    reveal(CpuView::get_value);
    lemma_access_keeps_registers(s, 0, 0, 0);
    let fetched = s.pc_next();
    lemma_access_keeps_registers(fetched.1, 0, 0, wrap8(fetched.0 + s.x));
    lemma_access_keeps_registers(fetched.1, 0, 0, fetched.0);
    let place = s.get_location(mode);
    lemma_access_keeps_registers(place.2, place.0, 0, 0);
}

/// Loads, transfers, increments and decrements of registers, and the
/// logic instructions change no flag but Z and N; a transfer to the stack
/// pointer and a store change none.
pub proof fn lemma_register_status(s: CpuView, reg: Register, src: Register, value: u8, addr: u16)
    ensures
        status_within(s, s.load(reg, value), ZERO | NEGATIVE),
        status_within(s, s.transfer(src, reg), ZERO | NEGATIVE),
        s.transfer(src, Register::S).p == s.p,
        status_within(s, s.inc_register(reg), ZERO | NEGATIVE),
        status_within(s, s.dec_register(reg), ZERO | NEGATIVE),
        status_within(s, s.and_accumulator(value), ZERO | NEGATIVE),
        status_within(s, s.or_accumulator(value), ZERO | NEGATIVE),
        status_within(s, s.xor_accumulator(value), ZERO | NEGATIVE),
        status_within(s, s.inc_memory(addr), ZERO | NEGATIVE),
        status_within(s, s.dec_memory(addr), ZERO | NEGATIVE),
        s.store(reg, addr).p == s.p,
{
    reveal(CpuView::load);
    reveal(CpuView::transfer);
    reveal(CpuView::inc_register);
    reveal(CpuView::dec_register);
    reveal(CpuView::and_accumulator);
    reveal(CpuView::or_accumulator);
    reveal(CpuView::xor_accumulator);
    reveal(CpuView::inc_memory);
    reveal(CpuView::dec_memory);
    reveal(CpuView::store);
    lemma_access_keeps_registers(s, addr, 0, 0);
    let read = s.memory_read(addr);
    lemma_access_keeps_registers(read.1, addr, wrap8(read.0 + 1), 0);
    lemma_access_keeps_registers(read.1, addr, wrap8(read.0 - 1), 0);
    lemma_access_keeps_registers(s, addr, s.register(reg), 0);
    lemma_result_flags(s.p, value);
    lemma_result_flags(s.p, s.register(src));
    lemma_result_flags(s.p, wrap8(s.register(reg) + 1));
    lemma_result_flags(s.p, wrap8(s.register(reg) - 1));
    lemma_result_flags(s.p, s.a & value);
    lemma_result_flags(s.p, s.a | value);
    lemma_result_flags(s.p, s.a ^ value);
    lemma_result_flags(s.p, wrap8(read.0 + 1));
    lemma_result_flags(s.p, wrap8(read.0 - 1));
}

/// Addition and subtraction change no flag but C, Z, V and N; comparisons
/// none but C, Z and N; the bit test none but Z, V and N.
pub proof fn lemma_arithmetic_status(s: CpuView, value: u8, register: u8)
    ensures
        status_within(s, s.add_accumulator(value), CARRY | ZERO | OVERFLOW | NEGATIVE),
        status_within(s, s.sub_accumulator(value), CARRY | ZERO | OVERFLOW | NEGATIVE),
        status_within(s, s.compare(value, register), CARRY | ZERO | NEGATIVE),
        status_within(s, s.bit_test(value), ZERO | OVERFLOW | NEGATIVE),
{
    reveal(CpuView::add_accumulator);
    reveal(CpuView::sub_accumulator);
    reveal(CpuView::compare);
    reveal(CpuView::bit_test);
    let added = s.add_accumulator(value);
    let sum = s.a + value + carry_of(s.p);
    lemma_arithmetic_flags(
        s.p,
        sum > 0xff,
        !(s.a ^ value) & (s.a ^ added.a) & 0x80 != 0,
        added.a,
    );
    let subtracted = s.sub_accumulator(value);
    let difference = s.a - value - (1 - carry_of(s.p));
    lemma_arithmetic_flags(
        s.p,
        difference >= 0,
        (s.a ^ value) & (s.a ^ subtracted.a) & 0x80 != 0,
        subtracted.a,
    );
    lemma_three_flags(
        s.p,
        (CARRY, ZERO, NEGATIVE),
        (register >= value, register == value, wrap8(register - value) & 0x80 != 0),
    );
    lemma_three_flags(
        s.p,
        (ZERO, OVERFLOW, NEGATIVE),
        (s.a & value == 0, value & 0x40 != 0, value & 0x80 != 0),
    );
}

/// Shifts and rotations, of the accumulator or of memory, change no flag
/// but C, Z and N.
pub proof fn lemma_shift_status(s: CpuView, value: u8, addr: u16, direction: ShiftDirection)
    ensures
        status_within(s, s.bitshift_and_set_flags(value, direction).1, CARRY | ZERO | NEGATIVE),
        status_within(s, s.rotate_and_set_flags(value, direction).1, CARRY | ZERO | NEGATIVE),
        status_within(s, s.shift_accumulator(direction), CARRY | ZERO | NEGATIVE),
        status_within(s, s.rotate_accumulator(direction), CARRY | ZERO | NEGATIVE),
        status_within(s, s.shift_memory(addr, direction), CARRY | ZERO | NEGATIVE),
        status_within(s, s.rotate_memory(addr, direction), CARRY | ZERO | NEGATIVE),
{
    reveal(CpuView::bitshift_and_set_flags);
    reveal(CpuView::rotate_and_set_flags);
    reveal(CpuView::shift_accumulator);
    reveal(CpuView::rotate_accumulator);
    reveal(CpuView::shift_memory);
    reveal(CpuView::rotate_memory);
    let carry = flag_is_set(s.p, CARRY);
    lemma_carry_result_flags(
        s.p,
        shifted_out(value, direction),
        shifted(value, direction),
    );
    lemma_carry_result_flags(
        s.p,
        shifted_out(value, direction),
        rotated(value, carry, direction),
    );
    lemma_carry_result_flags(
        s.p,
        shifted_out(s.a, direction),
        shifted(s.a, direction),
    );
    lemma_carry_result_flags(
        s.p,
        shifted_out(s.a, direction),
        rotated(s.a, carry, direction),
    );
    lemma_access_keeps_registers(s, addr, 0, 0);
    let read = s.memory_read(addr);
    lemma_carry_result_flags(
        s.p,
        shifted_out(read.0, direction),
        shifted(read.0, direction),
    );
    lemma_carry_result_flags(
        s.p,
        shifted_out(read.0, direction),
        rotated(read.0, carry, direction),
    );
    let shifted = read.1.bitshift_and_set_flags(read.0, direction);
    lemma_access_keeps_registers(shifted.1, addr, shifted.0, 0);
    let rotated = read.1.rotate_and_set_flags(read.0, direction);
    lemma_access_keeps_registers(rotated.1, addr, rotated.0, 0);
}

/// Branches, jumps, calls and returns change no flag. The interrupt
/// sequence sets I and changes no other flag. A return from an interrupt
/// loads the status byte from the stack, with bit 5 set and B clear.
pub proof fn lemma_control_status(s: CpuView, mode: AddrMode, should_branch: bool, vector: u16)
    ensures
        s.branch(should_branch).state.p == s.p,
        s.jump(mode).p == s.p,
        s.jump_sub().p == s.p,
        s.ret_sub().p == s.p,
        s.interrupt(vector).p == with_flag(s.p, INT_DISABLE, true),
        status_within(s, s.interrupt(vector), INT_DISABLE),
        flag_is_set(s.interrupt(vector).p, INT_DISABLE),
        flag_is_set(s.ret_interrupt().p, ALWAYS_SET),
        !flag_is_set(s.ret_interrupt().p, BREAK),
{
    reveal(CpuView::branch);
    reveal(CpuView::jump);
    reveal(CpuView::jump_sub);
    reveal(CpuView::ret_sub);
    reveal(CpuView::interrupt);
    reveal(CpuView::ret_interrupt);
    lemma_access_keeps_registers(s, 0, 0, 0);
    // jump
    let operand = s.pc_next_word();
    lemma_access_keeps_registers(operand.1, operand.0, 0, 0);
    // jump_sub
    let return_addr = wrap16(operand.1.pc - 1);
    let pushed_high = operand.1.stack_push(high_byte(return_addr));
    lemma_access_keeps_registers(operand.1, 0, high_byte(return_addr), 0);
    lemma_access_keeps_registers(pushed_high, 0, low_byte(return_addr), 0);
    // ret_sub and ret_interrupt
    let first = s.stack_pop();
    lemma_access_keeps_registers(first.1, 0, 0, 0);
    let second = first.1.stack_pop();
    lemma_access_keeps_registers(second.1, 0, 0, 0);
    lemma_restored_status(first.0);
    // interrupt
    let pushed_pc_high = s.stack_push(high_byte(s.pc));
    lemma_access_keeps_registers(s, 0, high_byte(s.pc), 0);
    let pushed_pc = pushed_pc_high.stack_push(low_byte(s.pc));
    lemma_access_keeps_registers(pushed_pc_high, 0, low_byte(s.pc), 0);
    let pushed = pushed_pc.stack_push(s.p);
    lemma_access_keeps_registers(pushed_pc, 0, s.p, 0);
    lemma_access_keeps_registers(pushed.with_status_flag(INT_DISABLE, true), vector, 0, 0);
    lemma_with_flag(s.p, INT_DISABLE, true);
}

/// The instructions without an operand: each changes the flags listed for
/// it and no others.
proof fn lemma_implied_status(s: CpuView, instruction: Instruction)
    requires
        !instruction.reads_operand(),
        !instruction.acts_on_memory(),
        !instruction.is_branch(),
        instruction != Instruction::Jmp,
    ensures
        status_within(s, s.apply_implied(instruction), instruction.updated_flags()),
{
    reveal(CpuView::apply_implied);
    let t = s.apply_implied(instruction);
    lemma_whole_byte(s.p, t.p);
    lemma_access_keeps_registers(s, 0, s.a, 0);
    lemma_access_keeps_registers(s, 0, s.p, 0);
    let pulled = s.stack_pop();
    lemma_restored_status(pulled.0);
    lemma_register_status(pulled.1, Register::A, Register::A, pulled.0, 0);
    lemma_control_status(s, AddrMode::Implicit, false, 0);
    match instruction {
        Instruction::Brk => {
            lemma_control_status(
                s.with_status_flag(BREAK, true),
                AddrMode::Implicit,
                false,
                BREAK_VECTOR,
            );
            lemma_break_flags(s.p);
        },
        Instruction::Clc | Instruction::Sec => lemma_with_flag(
            s.p,
            CARRY,
            instruction == Instruction::Sec,
        ),
        Instruction::Cld | Instruction::Sed => lemma_with_flag(
            s.p,
            DECIMAL,
            instruction == Instruction::Sed,
        ),
        Instruction::Cli | Instruction::Sei => lemma_with_flag(
            s.p,
            INT_DISABLE,
            instruction == Instruction::Sei,
        ),
        Instruction::Clv => lemma_with_flag(s.p, OVERFLOW, false),
        Instruction::Dex | Instruction::Inx => lemma_register_status(
            s,
            Register::X,
            Register::X,
            0,
            0,
        ),
        Instruction::Dey | Instruction::Iny => lemma_register_status(
            s,
            Register::Y,
            Register::Y,
            0,
            0,
        ),
        Instruction::Tax => lemma_register_status(s, Register::X, Register::A, 0, 0),
        Instruction::Tay => lemma_register_status(s, Register::Y, Register::A, 0, 0),
        Instruction::Tsx => lemma_register_status(s, Register::X, Register::S, 0, 0),
        Instruction::Txa => lemma_register_status(s, Register::A, Register::X, 0, 0),
        Instruction::Txs => lemma_register_status(s, Register::S, Register::X, 0, 0),
        Instruction::Tya => lemma_register_status(s, Register::A, Register::Y, 0, 0),
        _ => {},
    }
}

/// The instructions that compute with an operand byte or work on a place
/// in memory: each changes the flags listed for it and no others.
proof fn lemma_operand_status(s: CpuView, instruction: Instruction, value: u8, addr: u16)
    ensures
        instruction.reads_operand() ==> status_within(
            s,
            s.apply_value(instruction, value),
            instruction.updated_flags(),
        ),
        instruction.acts_on_memory() ==> status_within(
            s,
            s.apply_location(instruction, addr),
            instruction.updated_flags(),
        ),
        instruction.is_shift() ==> status_within(
            s,
            s.apply_accumulator(instruction),
            instruction.updated_flags(),
        ),
{
    reveal(CpuView::apply_value);
    reveal(CpuView::apply_location);
    reveal(CpuView::apply_accumulator);
    lemma_arithmetic_status(s, value, s.a);
    lemma_arithmetic_status(s, value, s.x);
    lemma_arithmetic_status(s, value, s.y);
    lemma_register_status(s, Register::A, Register::A, value, addr);
    lemma_register_status(s, Register::X, Register::A, value, addr);
    lemma_register_status(s, Register::Y, Register::A, value, addr);
    lemma_shift_status(s, 0, addr, ShiftDirection::Left);
    lemma_shift_status(s, 0, addr, ShiftDirection::Right);
}

/// An instruction changes only the flags that are listed for it: every
/// other bit of the status byte is the same after the instruction as
/// before it, whatever the operand and whatever memory holds. And if bit 5
/// was set before, it is set after.
pub proof fn lemma_flag_minimality(s: CpuView, opcode: Opcode)
    ensures
        changes_only(s.p, s.run_instruction(opcode).p, opcode.0.updated_flags()),
        flag_is_set(s.p, ALWAYS_SET) ==> flag_is_set(s.run_instruction(opcode).p, ALWAYS_SET),
{
    reveal(CpuView::run_instruction);
    reveal(CpuView::perform);
    let instruction = opcode.0;
    let mode = opcode.1;
    lemma_operand_keeps_registers(s, mode);
    if instruction.reads_operand() {
        let operand = s.get_value(mode);
        lemma_operand_status(operand.2, instruction, operand.0, 0);
    } else if instruction.is_shift() && mode == AddrMode::Accumulator {
        lemma_operand_status(s, instruction, 0, 0);
    } else if instruction.acts_on_memory() {
        let place = s.get_location(mode);
        lemma_operand_status(place.2, instruction, 0, place.0);
    } else if instruction.is_branch() {
        lemma_control_status(s, mode, s.branch_condition(instruction), 0);
    } else if instruction == Instruction::Jmp {
        lemma_control_status(s, mode, false, 0);
    } else {
        lemma_implied_status(s, instruction);
    }
}

/// Bit 5 of the status byte is set after a reset.
pub proof fn lemma_reset_sets_bit_five(bus: BusView)
    ensures
        flag_is_set(CpuView::reset(bus).p, ALWAYS_SET),
{
    reveal(CpuView::reset);
    let s = CpuView {
        a: 0,
        x: 0,
        y: 0,
        pc: 0,
        sp: STACK_RESET,
        p: ALWAYS_SET,
        cycles: 0,
        bus,
    };
    lemma_access_keeps_registers(s, RESET_VECTOR, 0, 0);
    assert(0x20u8 & 0x20u8 != 0) by (bit_vector);
}

/// Bit 5 of the status byte, once set, is set after every step, and so in
/// every status byte that an instruction pushes on the stack.
pub proof fn lemma_step_keeps_bit_five(s: CpuView)
    requires
        flag_is_set(s.p, ALWAYS_SET),
    ensures
        flag_is_set(s.step().p, ALWAYS_SET),
{
    reveal(CpuView::step);
    lemma_access_keeps_registers(s, 0, 0, 0);
    let fetched = s.pc_next();
    match Opcode::table(fetched.0) {
        Some(opcode) => lemma_flag_minimality(fetched.1, opcode),
        None => {},
    }
}

/// Bit 5 of the status byte, once set, is set after any number of steps.
pub proof fn lemma_run_keeps_bit_five(s: CpuView, n: nat)
    requires
        flag_is_set(s.p, ALWAYS_SET),
    ensures
        flag_is_set(s.run_steps(n).0.p, ALWAYS_SET),
    decreases n,
{
    if n > 0 {
        lemma_step_keeps_bit_five(s);
        if s.step_result() is Ok {
            lemma_run_keeps_bit_five(s.step(), (n - 1) as nat);
        }
    }
}

} // verus!
