//! What no instruction can change: program memory, pattern data, and the
//! sizes of the memories.

use vstd::prelude::*;
use crate::bus::BusView;
use crate::model::high_byte;
use crate::model::low_byte;
use crate::model::wrap16;
use crate::model::wrap8;
use crate::model::CpuView;
use crate::model::Register;
use crate::model::ShiftDirection;
use crate::model::BREAK_VECTOR;
use crate::opcode::AddrMode;
use crate::opcode::Instruction;
use crate::opcode::Opcode;
use crate::status::BREAK;
use crate::status::INT_DISABLE;

verus! {

/// Whether the bus `after` holds the program memory and the pattern data
/// of `before`, and has memories of the fixed sizes if `before` has.
pub open spec fn same_roms(before: BusView, after: BusView) -> bool {
    &&& after.program_rom == before.program_rom
    &&& after.ppu.memory.pattern == before.ppu.memory.pattern
    &&& before.wf() ==> after.wf()
}

/// No read and no write on the bus changes program memory or pattern
/// data, whatever the address.
pub proof fn lemma_bus_keeps_roms(bus: BusView, addr: u16, value: u8)
    ensures
        same_roms(bus, bus.after_read(addr)),
        same_roms(bus, bus.write(addr, value)),
{
    reveal(BusView::after_read);
    reveal(BusView::write);
}

/// Memory accesses of the processor, fetches and stack operations keep
/// program memory and pattern data.
proof fn lemma_access_keeps_roms(s: CpuView, addr: u16, value: u8, location: u8)
    ensures
        same_roms(s.bus, s.memory_read(addr).1.bus),
        same_roms(s.bus, s.memory_write(value, addr).bus),
        same_roms(s.bus, s.pc_next().1.bus),
        same_roms(s.bus, s.pc_next_word().1.bus),
        same_roms(s.bus, s.read_word(addr).1.bus),
        same_roms(s.bus, s.read_page_0_word(location).1.bus),
        same_roms(s.bus, s.stack_push(value).bus),
        same_roms(s.bus, s.stack_pop().1.bus),
{
    reveal(CpuView::memory_read);
    reveal(CpuView::memory_write);
    reveal(CpuView::pc_next);
    reveal(CpuView::pc_next_word);
    reveal(CpuView::read_word);
    reveal(CpuView::read_page_0_word);
    reveal(CpuView::stack_push);
    reveal(CpuView::stack_pop);
    lemma_bus_keeps_roms(s.bus, addr, value);
    lemma_bus_keeps_roms(s.bus, s.pc, 0);
    let first = s.memory_read(s.pc).1;
    lemma_bus_keeps_roms(first.bus, wrap16(s.pc + 1), 0);
    lemma_bus_keeps_roms(s.bus.after_read(addr), wrap16(addr + 1), 0);
    lemma_bus_keeps_roms(s.bus, location as u16, 0);
    lemma_bus_keeps_roms(s.bus.after_read(location as u16), wrap8(location + 1) as u16, 0);
    lemma_bus_keeps_roms(s.bus, crate::model::stack_addr(s.sp), value);
    lemma_bus_keeps_roms(s.bus, crate::model::stack_addr(wrap8(s.sp + 1)), 0);
}

/// Resolving an operand keeps program memory and pattern data.
proof fn lemma_operand_keeps_roms(s: CpuView, mode: AddrMode)
    ensures
        same_roms(s.bus, s.get_location(mode).2.bus),
        same_roms(s.bus, s.get_value(mode).2.bus),
{
    reveal(CpuView::get_location);
    reveal(CpuView::get_value);
    lemma_access_keeps_roms(s, 0, 0, 0);
    let fetched = s.pc_next();
    lemma_access_keeps_roms(fetched.1, 0, 0, wrap8(fetched.0 + s.x));
    lemma_access_keeps_roms(fetched.1, 0, 0, fetched.0);
    let place = s.get_location(mode);
    lemma_access_keeps_roms(place.2, place.0, 0, 0);
}

/// Instructions that compute with an operand byte touch no memory at all.
proof fn lemma_value_keeps_bus(s: CpuView, instruction: Instruction, value: u8)
    ensures
        s.apply_value(instruction, value).bus == s.bus,
        s.apply_accumulator(instruction).bus == s.bus,
{
    reveal(CpuView::apply_value);
    reveal(CpuView::apply_accumulator);
    reveal(CpuView::add_accumulator);
    reveal(CpuView::sub_accumulator);
    reveal(CpuView::and_accumulator);
    reveal(CpuView::or_accumulator);
    reveal(CpuView::xor_accumulator);
    reveal(CpuView::compare);
    reveal(CpuView::bit_test);
    reveal(CpuView::load);
    reveal(CpuView::shift_accumulator);
    reveal(CpuView::rotate_accumulator);
    reveal(CpuView::bitshift_and_set_flags);
    reveal(CpuView::rotate_and_set_flags);
}

/// Instructions that work on a place in memory keep program memory and
/// pattern data.
proof fn lemma_location_keeps_roms(s: CpuView, instruction: Instruction, addr: u16)
    ensures
        same_roms(s.bus, s.apply_location(instruction, addr).bus),
{
    reveal(CpuView::apply_location);
    reveal(CpuView::shift_memory);
    reveal(CpuView::rotate_memory);
    reveal(CpuView::inc_memory);
    reveal(CpuView::dec_memory);
    reveal(CpuView::store);
    reveal(CpuView::bitshift_and_set_flags);
    reveal(CpuView::rotate_and_set_flags);
    lemma_access_keeps_roms(s, addr, s.a, 0);
    lemma_access_keeps_roms(s, addr, s.x, 0);
    lemma_access_keeps_roms(s, addr, s.y, 0);
    let read = s.memory_read(addr);
    lemma_access_keeps_roms(read.1, addr, wrap8(read.0 + 1), 0);
    lemma_access_keeps_roms(read.1, addr, wrap8(read.0 - 1), 0);
    let left = read.1.bitshift_and_set_flags(read.0, ShiftDirection::Left);
    lemma_access_keeps_roms(left.1, addr, left.0, 0);
    let right = read.1.bitshift_and_set_flags(read.0, ShiftDirection::Right);
    lemma_access_keeps_roms(right.1, addr, right.0, 0);
    let rolled = read.1.rotate_and_set_flags(read.0, ShiftDirection::Left);
    lemma_access_keeps_roms(rolled.1, addr, rolled.0, 0);
    let rored = read.1.rotate_and_set_flags(read.0, ShiftDirection::Right);
    lemma_access_keeps_roms(rored.1, addr, rored.0, 0);
}

/// Branches, jumps, calls, returns and interrupts keep program memory and
/// pattern data.
proof fn lemma_control_keeps_roms(s: CpuView, mode: AddrMode, should_branch: bool, vector: u16)
    ensures
        same_roms(s.bus, s.branch(should_branch).state.bus),
        same_roms(s.bus, s.jump(mode).bus),
        same_roms(s.bus, s.jump_sub().bus),
        same_roms(s.bus, s.ret_sub().bus),
        same_roms(s.bus, s.interrupt(vector).bus),
        same_roms(s.bus, s.ret_interrupt().bus),
{
    reveal(CpuView::branch);
    reveal(CpuView::jump);
    reveal(CpuView::jump_sub);
    reveal(CpuView::ret_sub);
    reveal(CpuView::interrupt);
    reveal(CpuView::ret_interrupt);
    lemma_access_keeps_roms(s, 0, 0, 0);
    let operand = s.pc_next_word();
    lemma_access_keeps_roms(operand.1, operand.0, 0, 0);
    let return_addr = wrap16(operand.1.pc - 1);
    lemma_access_keeps_roms(operand.1, 0, high_byte(return_addr), 0);
    let pushed_high = operand.1.stack_push(high_byte(return_addr));
    lemma_access_keeps_roms(pushed_high, 0, low_byte(return_addr), 0);
    let first = s.stack_pop();
    lemma_access_keeps_roms(first.1, 0, 0, 0);
    let second = first.1.stack_pop();
    lemma_access_keeps_roms(second.1, 0, 0, 0);
    lemma_access_keeps_roms(s, 0, high_byte(s.pc), 0);
    let pushed_pc_high = s.stack_push(high_byte(s.pc));
    lemma_access_keeps_roms(pushed_pc_high, 0, low_byte(s.pc), 0);
    let pushed_pc = pushed_pc_high.stack_push(low_byte(s.pc));
    lemma_access_keeps_roms(pushed_pc, 0, s.p, 0);
    let pushed = pushed_pc.stack_push(s.p);
    lemma_access_keeps_roms(pushed.with_status_flag(INT_DISABLE, true), vector, 0, 0);
}

/// Instructions without an operand keep program memory and pattern data.
proof fn lemma_implied_keeps_roms(s: CpuView, instruction: Instruction)
    ensures
        same_roms(s.bus, s.apply_implied(instruction).bus),
{
    reveal(CpuView::apply_implied);
    reveal(CpuView::load);
    reveal(CpuView::transfer);
    reveal(CpuView::inc_register);
    reveal(CpuView::dec_register);
    lemma_access_keeps_roms(s, 0, s.a, 0);
    lemma_access_keeps_roms(s, 0, s.p, 0);
    lemma_control_keeps_roms(s, AddrMode::Implicit, false, 0);
    lemma_control_keeps_roms(
        s.with_status_flag(BREAK, true),
        AddrMode::Implicit,
        false,
        BREAK_VECTOR,
    );
}

/// No instruction changes program memory or pattern data.
pub proof fn lemma_instruction_keeps_roms(s: CpuView, opcode: Opcode)
    ensures
        same_roms(s.bus, s.run_instruction(opcode).bus),
{
    reveal(CpuView::run_instruction);
    reveal(CpuView::perform);
    let instruction = opcode.0;
    let mode = opcode.1;
    lemma_operand_keeps_roms(s, mode);
    if instruction.reads_operand() {
        let operand = s.get_value(mode);
        lemma_value_keeps_bus(operand.2, instruction, operand.0);
    } else if instruction.is_shift() && mode == AddrMode::Accumulator {
        lemma_value_keeps_bus(s, instruction, 0);
    } else if instruction.acts_on_memory() {
        let place = s.get_location(mode);
        lemma_location_keeps_roms(place.2, instruction, place.0);
    } else if instruction.is_branch() {
        lemma_control_keeps_roms(s, mode, s.branch_condition(instruction), 0);
    } else if instruction == Instruction::Jmp {
        lemma_control_keeps_roms(s, mode, false, 0);
    } else {
        lemma_implied_keeps_roms(s, instruction);
    }
}

/// Program memory and pattern data are the same after a step as before it.
pub proof fn lemma_step_keeps_roms(s: CpuView)
    ensures
        same_roms(s.bus, s.step().bus),
{
    reveal(CpuView::step);
    lemma_access_keeps_roms(s, 0, 0, 0);
    let fetched = s.pc_next();
    match Opcode::table(fetched.0) {
        Some(opcode) => lemma_instruction_keeps_roms(fetched.1, opcode),
        None => {},
    }
}

/// Program memory and pattern data never change: they are the same after
/// any number of steps as when the console was switched on.
pub proof fn lemma_run_keeps_roms(s: CpuView, n: nat)
    ensures
        same_roms(s.bus, s.run_steps(n).0.bus),
    decreases n,
{
    if n > 0 {
        lemma_step_keeps_roms(s);
        if s.step_result() is Ok {
            lemma_run_keeps_roms(s.step(), (n - 1) as nat);
        }
    }
}

/// Running `m` steps and then `n` more is running `m + n` steps, unless
/// the first `m` already met a byte that does not decode.
pub proof fn lemma_run_steps_add(s: CpuView, m: nat, n: nat)
    ensures
        s.run_steps(m).1 is None ==> s.run_steps(m + n) == s.run_steps(m).0.run_steps(n),
        s.run_steps(m).1 is Some ==> s.run_steps(m + n) == s.run_steps(m),
    decreases m,
{
    if m > 0 {
        if s.step_result() is Ok {
            lemma_run_steps_add(s.step(), (m - 1) as nat, n);
        }
    }
}

} // verus!
