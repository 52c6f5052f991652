//! What holds of the operations for every state: the arithmetic of the
//! register operations and their flag, the length of a conditional skip, and
//! the well-formedness of every state a machine can reach.

use vstd::prelude::*;
use crate::instruction::Instruction;
use crate::state::{Event, Fault, State, Stop, FLAG};

verus! {

/// `add-reg` on registers holding `a` and `b` leaves `(a + b) mod 256` in
/// register `x` and sets the flag register to 1 if `a + b >= 256`, to 0
/// otherwise. Register `x` must not be the flag register itself, which would
/// keep the flag and lose the sum.
pub proof fn lemma_add_reg(s: State, x: int, y: int)
    requires
        s.wf(),
        0 <= x < 16,
        x != FLAG,
        0 <= y < 16,
    ensures
        s.add_reg(x, y).regs[x] == (s.regs[x] + s.regs[y]) % 256,
        s.add_reg(x, y).regs[FLAG as int] == 1 <==> s.regs[x] + s.regs[y] >= 256,
        s.add_reg(x, y).regs[FLAG as int] == 0 <==> s.regs[x] + s.regs[y] < 256,
        s.add_reg(x, y).wf(),
{
}

/// `sub-reg` on registers holding `a` and `b` leaves `(a - b) mod 256` in
/// register `x` and sets the flag register to 1 if `a >= b`, that is if
/// nothing was borrowed, and to 0 otherwise. Register `x` must not be the flag
/// register itself.
pub proof fn lemma_sub_reg(s: State, x: int, y: int)
    requires
        s.wf(),
        0 <= x < 16,
        x != FLAG,
        0 <= y < 16,
    ensures
        s.sub_reg(x, y).regs[x] == (s.regs[x] - s.regs[y]) % 256,
        s.sub_reg(x, y).regs[FLAG as int] == 1 <==> s.regs[x] >= s.regs[y],
        s.sub_reg(x, y).regs[FLAG as int] == 0 <==> s.regs[x] < s.regs[y],
        s.sub_reg(x, y).wf(),
{
}

/// `subn-reg` is `sub-reg` with the operands exchanged: it leaves
/// `(b - a) mod 256` in register `x` and sets the flag register to 1 if
/// `b >= a`, to 0 otherwise.
pub proof fn lemma_subn_reg(s: State, x: int, y: int)
    requires
        s.wf(),
        0 <= x < 16,
        x != FLAG,
        0 <= y < 16,
    ensures
        s.subn_reg(x, y).regs[x] == (s.regs[y] - s.regs[x]) % 256,
        s.subn_reg(x, y).regs[FLAG as int] == 1 <==> s.regs[y] >= s.regs[x],
        s.subn_reg(x, y).regs[FLAG as int] == 0 <==> s.regs[y] < s.regs[x],
        s.subn_reg(x, y).wf(),
{
}

/// `shift-right` leaves register `x` shifted right by one bit and the bit
/// that was shifted out, the lowest, in the flag register. Register `x` must
/// not be the flag register itself.
pub proof fn lemma_shift_right(s: State, x: int)
    requires
        s.wf(),
        0 <= x < 16,
        x != FLAG,
    ensures
        s.shift_right(x).regs[x] == s.regs[x] >> 1,
        s.shift_right(x).regs[FLAG as int] == s.regs[x] & 1,
        s.shift_right(x).regs[FLAG as int] == 0 || s.shift_right(x).regs[FLAG as int] == 1,
        s.shift_right(x).regs[x] * 2 + s.shift_right(x).regs[FLAG as int] == s.regs[x],
        s.shift_right(x).wf(),
{
    let a = s.regs[x];
    assert(a >> 1 == a / 2 && a & 1 == a % 2) by (bit_vector);
}

/// `shift-left` leaves register `x` shifted left by one bit within 8 bits and
/// the bit that was shifted out, the highest, in the flag register. Register
/// `x` must not be the flag register itself.
pub proof fn lemma_shift_left(s: State, x: int)
    requires
        s.wf(),
        0 <= x < 16,
        x != FLAG,
    ensures
        s.shift_left(x).regs[x] == s.regs[x] << 1,
        s.shift_left(x).regs[FLAG as int] == s.regs[x] >> 7,
        s.shift_left(x).regs[FLAG as int] == 0 || s.shift_left(x).regs[FLAG as int] == 1,
        s.shift_left(x).regs[FLAG as int] * 256 + s.shift_left(x).regs[x] == s.regs[x] * 2,
        s.shift_left(x).wf(),
{
    let a = s.regs[x];
    assert(a << 1 == (a * 2) % 256 && a >> 7 == a / 128) by (bit_vector);
}

/// Whether `word` is a conditional skip.
pub open spec fn is_skip(word: Instruction) -> bool {
    word.opcode() == 0x3 || word.opcode() == 0x4 || word.opcode() == 0x5 || word.opcode() == 0x9
}

/// Whether the condition of the conditional skip `word` holds in `s`.
pub open spec fn skip_taken(s: State, word: Instruction) -> bool {
    let x = word.x() as int;
    let y = word.y() as int;
    if word.opcode() == 0x3 {
        s.regs[x] == word.kk()
    } else if word.opcode() == 0x4 {
        s.regs[x] != word.kk()
    } else if word.opcode() == 0x5 {
        s.regs[x] == s.regs[y]
    } else {
        s.regs[x] != s.regs[y]
    }
}

/// A cycle on a conditional skip moves the program counter on by 4 if the
/// condition holds, 2 for the fetch and 2 for the skip, and by 2 if it does
/// not. It changes nothing else and emits the trace line alone.
pub proof fn lemma_skip_advances_pc(s: State)
    requires
        s.wf(),
        s.fetch() is Ok,
        is_skip(s.word_at_pc()),
    ensures
        skip_taken(s, s.word_at_pc()) ==> s.cycle().state.pc == s.pc + 4,
        !skip_taken(s, s.word_at_pc()) ==> s.cycle().state.pc == s.pc + 2,
        s.cycle().state == s.with_pc(s.cycle().state.pc),
        s.cycle().result == Ok::<Event, Fault>(Event::Executed),
{
}

/// The work of one instruction keeps a well-formed state well-formed, whether
/// it succeeds or faults.
pub proof fn lemma_execute_preserves_wf(s: State, word: Instruction)
    requires
        s.wf(),
    ensures
        s.execute(word).state.wf(),
{
}

/// A cycle keeps a well-formed state well-formed.
pub proof fn lemma_cycle_preserves_wf(s: State)
    requires
        s.wf(),
    ensures
        s.cycle().state.wf(),
{
    if s.fetch() is Ok {
        lemma_execute_preserves_wf(s.fetch()->Ok_0.1, s.fetch()->Ok_0.0);
    }
}

/// A run keeps a well-formed state well-formed: the stack pointer of every
/// state that a machine reaches names a slot.
pub proof fn lemma_run_preserves_wf(s: State, cycles: nat)
    requires
        s.wf(),
    ensures
        s.run(cycles).state.wf(),
    decreases cycles,
{
    if cycles > 0 {
        lemma_cycle_preserves_wf(s);
        lemma_run_preserves_wf(s.cycle().state, (cycles - 1) as nat);
    }
}

/// A run may be taken in two parts. If the first part halts or faults, the
/// rest of the budget changes nothing; if it uses up its budget, the whole
/// run is the first part followed by a run of the rest from where it ended.
pub proof fn lemma_run_splits(s: State, first: nat, rest: nat)
    ensures
        s.run(first).stop != Stop::OutOfCycles ==> s.run(first + rest) == s.run(first),
        s.run(first).stop == Stop::OutOfCycles ==> s.run(first + rest) == s.run(first).followed_by(
            s.run(first).state.run(rest),
        ),
    decreases first,
{
    let step = s.cycle();
    if first > 0 && step.result is Ok && step.result != Ok::<Event, Fault>(Event::Halted) {
        let before = (first - 1) as nat;
        lemma_run_splits(step.state, before, rest);
        let head = step.state.run(before);
        if head.stop == Stop::OutOfCycles {
            let tail = head.state.run(rest);
            assert(step.text + (head.text + tail.text) =~= (step.text + head.text) + tail.text);
        }
    }
}

} // verus!
