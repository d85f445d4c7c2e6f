//! The laws of the machine: proof functions stating what holds of the
//! transitions of [`crate::semantics`] for every state and every input, not
//! just for the states a particular program reaches.

use vstd::prelude::*;

verus! {

use crate::instructions::{Instructions, Registers};
use crate::semantics::{
    can_pop, can_pop_state, can_push, can_push_state, can_step, pop_state_upd, pop_upd, pop_val,
    push_state_upd, push_upd, ret_arg_count, ret_frame_word, step_upd, store_word, word_at,
    CpuState,
};

broadcast use crate::semantics::group_word_lemmas;

/// Storing a word in memory and reading it back at the same address yields
/// the word, for every address at which the word fits.
pub proof fn lemma_memory_round_trip(s: CpuState, address: u16, v: u16)
    requires
        s.wf(),
        address + 2 <= s.mem.len(),
    ensures
        word_at(store_word(s.mem, address as int, v), address as int) == v,
{
}

/// Writing a register and reading it back yields the written value, for
/// every register of the file.
pub proof fn lemma_register_round_trip(s: CpuState, slot: int, v: u16)
    requires
        s.wf(),
        0 <= slot < 12,
    ensures
        s.with_reg(slot, v).reg(slot) == v,
{
}

/// A push followed immediately by a pop returns the pushed word and leaves
/// the stack pointer, the frame counter, and every other register as they
/// stood before the push.
pub proof fn lemma_push_pop_round_trip(s: CpuState, v: u16)
    requires
        s.wf(),
        can_push(s),
    ensures
        can_pop(push_upd(s, v)),
        pop_val(push_upd(s, v)) == v,
        pop_upd(push_upd(s, v)).sp() == s.sp(),
        pop_upd(push_upd(s, v)).sfs == s.sfs,
        forall|slot: int|
            0 <= slot < 12 && slot != Registers::SP as int ==> pop_upd(push_upd(s, v)).reg(slot)
                == s.reg(slot),
{
}

/// A MOV_LIT_REG step leaves the literal in the selected register and
/// advances the instruction pointer by exactly four bytes: one opcode, two
/// literal bytes, one register byte. Every other register, all of memory and
/// the frame counter are untouched. The one exception is a register byte
/// selecting `ip` itself, which this law leaves out: there the move is the
/// jump it asks for.
pub proof fn lemma_mov_lit_reg_step(s: CpuState)
    requires
        s.wf(),
        can_step(s),
        s.mem[s.ip() as int] == Instructions::MOV_LIT_REG,
        s.mem[s.ip() + 3] as int % 12 != Registers::IP as int,
    ensures
        ({
            let t = step_upd(s);
            let literal = word_at(s.mem, s.ip() + 1);
            let slot = s.mem[s.ip() + 3] as int % 12;
            &&& t.reg(slot) == literal
            &&& t.ip() == s.ip() + 4
            &&& t.mem == s.mem
            &&& t.sfs == s.sfs
            &&& forall|k: int|
                0 <= k < 12 && k != slot && k != Registers::IP as int ==> t.reg(k) == s.reg(k)
        }),
{
}

/// An ADD_REG_REG step leaves the 16-bit wraparound sum of the two selected
/// registers in the accumulator and advances the instruction pointer by
/// three. The law covers operands naming any register other than `ip`,
/// whose value changes under the instruction's own decoding.
pub proof fn lemma_add_reg_reg_step(s: CpuState)
    requires
        s.wf(),
        can_step(s),
        s.mem[s.ip() as int] == Instructions::ADD_REG_REG,
        s.mem[s.ip() + 1] != Registers::IP,
        s.mem[s.ip() + 2] != Registers::IP,
    ensures
        ({
            let t = step_upd(s);
            let slot1 = s.mem[s.ip() + 1] as int;
            let slot2 = s.mem[s.ip() + 2] as int;
            &&& t.acc() == (s.reg(slot1) + s.reg(slot2)) % 0x10000
            &&& t.ip() == s.ip() + 3
            &&& t.mem == s.mem
            &&& t.sfs == s.sfs
            &&& forall|k: int|
                0 <= k < 12 && k != Registers::ACC as int && k != Registers::IP as int ==> t.reg(k)
                    == s.reg(k)
        }),
{
}

/// A JMP_NOT_EQ step branches exactly when its literal differs from the
/// accumulator: the instruction pointer moves to the target on inequality
/// and falls through past the five instruction bytes on equality. Nothing
/// else changes.
pub proof fn lemma_jmp_not_eq_step(s: CpuState)
    requires
        s.wf(),
        can_step(s),
        s.mem[s.ip() as int] == Instructions::JMP_NOT_EQ,
    ensures
        ({
            let t = step_upd(s);
            let value = word_at(s.mem, s.ip() + 1);
            let target = word_at(s.mem, s.ip() + 3);
            &&& value != s.acc() ==> t.ip() == target
            &&& value == s.acc() ==> t.ip() == s.ip() + 5
            &&& t.mem == s.mem
            &&& t.sfs == s.sfs
            &&& forall|k: int|
                0 <= k < 12 && k != Registers::IP as int ==> t.reg(k) == s.reg(k)
        }),
{
}

/// A CAL_LIT step lands on the call target with the frame pointer at the new
/// stack top, the frame counter restarted, and the frame-size word of the
/// new frame recording every byte pushed since the previous frame boundary:
/// the caller's counter plus the twenty bytes of the frame itself.
pub proof fn lemma_cal_lit_step(s: CpuState)
    requires
        s.wf(),
        can_step(s),
        s.mem[s.ip() as int] == Instructions::CAL_LIT,
    ensures
        ({
            let t = step_upd(s);
            let target = word_at(s.mem, s.ip() + 1);
            &&& t.ip() == target
            &&& t.fp() == t.sp()
            &&& t.sp() == s.sp() - 20
            &&& t.sfs == 0
            &&& ret_frame_word(t) == s.sfs + 20
            &&& word_at(t.mem, s.sp() - 16) == s.ip() + 3
        }),
{
}

/// The call/return round trip. `s` is the caller's state at the moment of
/// the save, its arguments and their count word already pushed; `t` is any
/// later state — the callee may have pushed, computed and moved values at
/// will — in which the frame pointer still marks the saved frame and memory
/// from the frame base up is undisturbed. Restoring then brings back the
/// caller's r1 through r8, instruction pointer and frame pointer exactly,
/// and leaves the stack pointer just above the reclaimed argument words.
#[verifier::rlimit(100)]
pub proof fn lemma_call_ret_round_trip(s: CpuState, t: CpuState)
    requires
        s.wf(),
        can_push_state(s),
        // the discipline every call chain keeps: the frame pointer sits one
        // whole frame count above the stack top, inside memory
        s.fp() == s.sp() + s.sfs,
        s.fp() + 2 <= s.mem.len(),
        // the count word the caller pushed last is consistent: its arguments
        // and the word itself lie within the current frame count
        2 * (word_at(s.mem, s.sp() + 2) as int) + 2 <= s.sfs,
        t.wf(),
        t.mem.len() == s.mem.len(),
        t.fp() == push_state_upd(s).fp(),
        t.sfs >= 2,
        forall|i: int|
            push_state_upd(s).fp() + 2 <= i < s.mem.len() ==> t.mem[i] == push_state_upd(s).mem[i],
    ensures
        can_pop_state(t),
        ({
            let r = pop_state_upd(t);
            let n_args = word_at(s.mem, s.sp() + 2) as int;
            &&& r.ip() == s.ip()
            &&& r.fp() == s.fp()
            &&& r.sp() == s.sp() + 2 + 2 * n_args
            &&& r.sfs == s.sfs - 2 * n_args
            &&& forall|k: int|
                Registers::R1 as int <= k <= Registers::R8 as int ==> r.reg(k) == s.reg(k)
            &&& r.mem == t.mem
        }),
{
    let c = push_state_upd(s);
    let sp = s.sp() as int;
    let fp_c = sp - 20;
    assert(c.fp() == fp_c);
    assert(c.sp() == fp_c);
    // where each saved word of the frame lies in the memory the save left
    assert(word_at(c.mem, fp_c + 20) == s.reg(Registers::R1 as int));
    assert(word_at(c.mem, fp_c + 18) == s.reg(Registers::R2 as int));
    assert(word_at(c.mem, fp_c + 16) == s.reg(Registers::R3 as int));
    assert(word_at(c.mem, fp_c + 14) == s.reg(Registers::R4 as int));
    assert(word_at(c.mem, fp_c + 12) == s.reg(Registers::R5 as int));
    assert(word_at(c.mem, fp_c + 10) == s.reg(Registers::R6 as int));
    assert(word_at(c.mem, fp_c + 8) == s.reg(Registers::R7 as int));
    assert(word_at(c.mem, fp_c + 6) == s.reg(Registers::R8 as int));
    assert(word_at(c.mem, fp_c + 4) == s.ip());
    assert(word_at(c.mem, fp_c + 2) == (s.sfs + 20) as u16);
    assert(word_at(c.mem, fp_c + 22) == word_at(s.mem, sp + 2));
    assert forall|a: int| fp_c + 2 <= a && a + 2 <= s.mem.len() implies word_at(t.mem, a)
        == word_at(c.mem, a) by {
        assert(t.mem[a] == c.mem[a]);
        assert(t.mem[a + 1] == c.mem[a + 1]);
    }
    assert(ret_frame_word(t) == s.sfs + 20);
    assert(ret_arg_count(t) == word_at(s.mem, sp + 2));
    assert(can_pop_state(t));
    let r = pop_state_upd(t);
    assert(r.ip() == word_at(t.mem, fp_c + 4));
    assert(r.fp() == fp_c + (s.sfs + 20));
    assert(r.reg(Registers::R1 as int) == word_at(t.mem, fp_c + 20));
    assert(r.reg(Registers::R2 as int) == word_at(t.mem, fp_c + 18));
    assert(r.reg(Registers::R3 as int) == word_at(t.mem, fp_c + 16));
    assert(r.reg(Registers::R4 as int) == word_at(t.mem, fp_c + 14));
    assert(r.reg(Registers::R5 as int) == word_at(t.mem, fp_c + 12));
    assert(r.reg(Registers::R6 as int) == word_at(t.mem, fp_c + 10));
    assert(r.reg(Registers::R7 as int) == word_at(t.mem, fp_c + 8));
    assert(r.reg(Registers::R8 as int) == word_at(t.mem, fp_c + 6));
}

} // verus!
