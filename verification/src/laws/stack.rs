//! The stack discipline: what is pushed comes back in reverse order, and a
//! subroutine returns to the instruction after its call.

use vstd::prelude::*;
use crate::laws::lemma_access_keeps_registers;
use crate::laws::same_registers;
use crate::bus::BusView;
use crate::model::high_byte;
use crate::model::low_byte;
use crate::model::word;
use crate::model::wrap16;
use crate::model::wrap8;
use crate::model::CpuView;
use crate::opcode::Opcode;

verus! {

/// One use of the stack.
pub ghost enum StackOp {
    Push { value: u8 },
    Pull,
}

/// The stack page holds 256 bytes. Pushing more than that without pulling
/// overwrites the oldest bytes.
pub const STACK_DEPTH: usize = 256;

/// Carry out `ops` in order: the state at the end, and the bytes that the
/// pulls returned, first pull first.
pub open spec fn run_stack_ops(s: CpuView, ops: Seq<StackOp>) -> (CpuView, Seq<u8>)
    decreases ops.len(),
{
    if ops.len() == 0 {
        (s, Seq::empty())
    } else {
        match ops[0] {
            StackOp::Push { value } => run_stack_ops(s.stack_push(value), ops.drop_first()),
            StackOp::Pull => {
                let (value, t) = s.stack_pop();
                let (end, pulled) = run_stack_ops(t, ops.drop_first());
                (end, seq![value] + pulled)
            },
        }
    }
}

/// What the pulls of `ops` return on an ideal stack that holds `stack`,
/// its top last: each pull returns the byte pushed last and not yet
/// pulled.
pub open spec fn lifo_pulls(stack: Seq<u8>, ops: Seq<StackOp>) -> Seq<u8>
    decreases ops.len(),
{
    if ops.len() == 0 {
        Seq::empty()
    } else {
        match ops[0] {
            StackOp::Push { value } => lifo_pulls(stack.push(value), ops.drop_first()),
            StackOp::Pull => seq![stack.last()] + lifo_pulls(stack.drop_last(), ops.drop_first()),
        }
    }
}

/// Whether `ops`, starting with `depth` bytes on the stack, pulls every
/// byte that is or gets on the stack and no more, and never has more than
/// the stack page can hold on it.
pub open spec fn balanced(ops: Seq<StackOp>, depth: nat) -> bool
    decreases ops.len(),
{
    if ops.len() == 0 {
        depth == 0
    } else {
        match ops[0] {
            StackOp::Push { value } => depth < STACK_DEPTH && balanced(
                ops.drop_first(),
                depth + 1,
            ),
            StackOp::Pull => depth > 0 && balanced(ops.drop_first(), (depth - 1) as nat),
        }
    }
}

/// Whether the stack page of `s` holds the bytes of `stack`, its top last,
/// below the stack pointer value `base`.
pub open spec fn stack_holds(s: CpuView, stack: Seq<u8>, base: u8) -> bool {
    &&& s.bus.wf()
    &&& stack.len() <= STACK_DEPTH
    &&& s.sp == wrap8(base - stack.len())
    &&& forall|i: int|
        0 <= i < stack.len() ==> s.bus.ram[0x0100 + wrap8(base - i)] == #[trigger] stack[i]
}

/// A push stores the byte in internal memory at the stack pointer and
/// changes no other byte of it.
proof fn lemma_push_memory(s: CpuView, value: u8)
    requires
        s.bus.wf(),
    ensures
        s.stack_push(value).bus.wf(),
        s.stack_push(value).sp == wrap8(s.sp - 1),
        s.stack_push(value).bus.ram == s.bus.ram.update(0x0100 + s.sp, value),
        s.stack_push(value).bus.ppu == s.bus.ppu,
        s.stack_push(value).bus.program_rom == s.bus.program_rom,
{
    reveal(CpuView::stack_push);
    reveal(CpuView::memory_write);
    reveal(BusView::write);
}

/// A pull reads the byte of internal memory above the stack pointer and
/// changes nothing but the stack pointer.
proof fn lemma_pull_memory(s: CpuView)
    requires
        s.bus.wf(),
    ensures
        s.stack_pop().0 == s.bus.ram[0x0100 + wrap8(s.sp + 1)],
        s.stack_pop().1 == (CpuView { sp: wrap8(s.sp + 1), ..s }),
{
    reveal(CpuView::stack_pop);
    reveal(CpuView::memory_read);
    reveal(BusView::read_value);
    reveal(BusView::after_read);
}

/// A byte that is pushed is the byte that the next pull returns, and the
/// pull puts the stack pointer back where it was.
pub proof fn lemma_push_pull(s: CpuView, value: u8)
    requires
        s.bus.wf(),
    ensures
        s.stack_push(value).stack_pop().0 == value,
        s.stack_push(value).stack_pop().1.sp == s.sp,
        same_registers(s, s.stack_push(value).stack_pop().1),
        s.stack_push(value).stack_pop().1.pc == s.pc,
{
    lemma_push_memory(s, value);
    lemma_pull_memory(s.stack_push(value));
    lemma_access_keeps_registers(s, 0, value, 0);
}

/// The induction behind `lemma_stack_round_trip`: from a state whose stack
/// page holds `stack`, operations that are balanced from that depth return
/// what an ideal stack returns and end with the stack pointer at `base`.
proof fn lemma_stack_ops(s: CpuView, stack: Seq<u8>, base: u8, ops: Seq<StackOp>)
    requires
        stack_holds(s, stack, base),
        balanced(ops, stack.len()),
    ensures
        run_stack_ops(s, ops).0.sp == base,
        run_stack_ops(s, ops).1 == lifo_pulls(stack, ops),
        same_registers(s, run_stack_ops(s, ops).0),
        run_stack_ops(s, ops).0.pc == s.pc,
    decreases ops.len(),
{
    if ops.len() > 0 {
        let depth = stack.len() as int;
        match ops[0] {
            StackOp::Push { value } => {
                let t = s.stack_push(value);
                let pushed = stack.push(value);
                lemma_push_memory(s, value);
                lemma_access_keeps_registers(s, 0, value, 0);
                assert(t.sp == wrap8(base - pushed.len()));
                assert forall|i: int| 0 <= i < pushed.len() implies t.bus.ram[0x0100 + wrap8(
                    base - i,
                )] == #[trigger] pushed[i] by {
                    if i < depth {
                        assert(stack[i] == pushed[i]);
                        assert(wrap8(base - i) != wrap8(base - depth));
                    }
                }
                lemma_stack_ops(t, pushed, base, ops.drop_first());
            },
            StackOp::Pull => {
                let t = s.stack_pop().1;
                let rest = stack.drop_last();
                lemma_pull_memory(s);
                assert(wrap8(s.sp + 1) == wrap8(base - (depth - 1)));
                assert(s.stack_pop().0 == stack[depth - 1]);
                assert forall|i: int| 0 <= i < rest.len() implies t.bus.ram[0x0100 + wrap8(
                    base - i,
                )] == #[trigger] rest[i] by {
                    assert(stack[i] == rest[i]);
                }
                lemma_stack_ops(t, rest, base, ops.drop_first());
            },
        }
    }
}

/// After any balanced sequence of pushes and pulls that never has more
/// than 256 bytes on the stack, the stack pointer is back where it
/// started, every pull has returned the byte whose push it matches, and
/// the other registers are untouched.
pub proof fn lemma_stack_round_trip(s: CpuView, ops: Seq<StackOp>)
    requires
        s.bus.wf(),
        balanced(ops, 0),
    ensures
        run_stack_ops(s, ops).0.sp == s.sp,
        run_stack_ops(s, ops).1 == lifo_pulls(Seq::empty(), ops),
        same_registers(s, run_stack_ops(s, ops).0),
        run_stack_ops(s, ops).0.pc == s.pc,
{
    lemma_stack_ops(s, Seq::empty(), s.sp, ops);
}

/// `JSR` leaves on the stack the address that `RTS` needs: when the two
/// bytes that the call pushed are still in place and the stack pointer is
/// back where the call left it, `RTS` continues at the instruction after
/// the call and restores the stack pointer of before the call. Here `s` is
/// the state when `JSR` reads its operand, so that the instruction after
/// the call lies two bytes on.
pub proof fn lemma_jsr_rts(s: CpuView, t: CpuView)
    requires
        s.bus.wf(),
        t.bus.wf(),
        t.sp == s.jump_sub().sp,
        t.bus.ram[0x0100 + s.sp] == s.jump_sub().bus.ram[0x0100 + s.sp],
        t.bus.ram[0x0100 + wrap8(s.sp - 1)] == s.jump_sub().bus.ram[0x0100 + wrap8(s.sp - 1)],
    ensures
        s.jump_sub().pc == s.pc_next_word().0,
        s.jump_sub().sp == wrap8(s.sp - 2),
        t.ret_sub().pc == wrap16(s.pc + 2),
        t.ret_sub().sp == s.sp,
{
    reveal(CpuView::jump_sub);
    reveal(CpuView::ret_sub);
    let fetched = s.pc_next_word().1;
    lemma_fetch_keeps_memory(s);
    let return_addr = wrap16(fetched.pc - 1);
    let first = fetched.stack_push(high_byte(return_addr));
    lemma_push_memory(fetched, high_byte(return_addr));
    lemma_push_memory(first, low_byte(return_addr));
    lemma_pull_memory(t);
    lemma_pull_memory(t.stack_pop().1);
    assert(word(low_byte(return_addr), high_byte(return_addr)) == return_addr);
}

/// Fetching the two operand bytes moves the program counter two bytes on
/// and leaves the stack pointer and internal memory alone.
proof fn lemma_fetch_keeps_memory(s: CpuView)
    requires
        s.bus.wf(),
    ensures
        s.pc_next_word().1.pc == wrap16(s.pc + 2),
        s.pc_next_word().1.sp == s.sp,
        s.pc_next_word().1.bus.ram == s.bus.ram,
        s.pc_next_word().1.bus.wf(),
{
    reveal(CpuView::pc_next_word);
    reveal(CpuView::pc_next);
    reveal(CpuView::memory_read);
    reveal(BusView::after_read);
}

/// Fetching the opcode byte moves the program counter one byte on and
/// leaves the stack pointer and internal memory alone.
proof fn lemma_opcode_fetch_keeps_memory(s: CpuView)
    requires
        s.bus.wf(),
    ensures
        s.pc_next().1.pc == wrap16(s.pc + 1),
        s.pc_next().1.sp == s.sp,
        s.pc_next().1.bus.ram == s.bus.ram,
        s.pc_next().1.bus.wf(),
{
    reveal(CpuView::pc_next);
    reveal(CpuView::memory_read);
    reveal(BusView::after_read);
}

/// A call and its return in whole steps. Let a step at `s` execute a
/// `JSR`. Whatever runs then, if it brings the machine to a state `t`
/// about to execute an `RTS`, with the stack pointer where the call left it
/// and the two bytes that the call pushed still in place, then the step at
/// `t` continues at the instruction that follows the `JSR`, three bytes
/// after it, with the stack pointer of before the call.
pub proof fn lemma_call_and_return(s: CpuView, t: CpuView)
    requires
        s.bus.wf(),
        t.bus.wf(),
        s.pc_next().0 == 0x20,
        t.pc_next().0 == 0x60,
        t.sp == s.step().sp,
        t.bus.ram[0x0100 + s.sp] == s.step().bus.ram[0x0100 + s.sp],
        t.bus.ram[0x0100 + wrap8(s.sp - 1)] == s.step().bus.ram[0x0100 + wrap8(s.sp - 1)],
    ensures
        s.step().pc == s.pc_next().1.pc_next_word().0,
        t.step().pc == wrap16(s.pc + 3),
        t.step().sp == s.sp,
{
    reveal(CpuView::step);
    reveal(Opcode::table);
    reveal(CpuView::run_instruction);
    reveal(CpuView::perform);
    reveal(CpuView::apply_implied);
    lemma_opcode_fetch_keeps_memory(s);
    lemma_opcode_fetch_keeps_memory(t);
    lemma_jsr_rts(s.pc_next().1, t.pc_next().1);
}

} // verus!
