//! The mathematical model of the machine: its state, and one transition
//! function per operation of the engine. The executable engine in
//! [`crate::cpu`] is proved to follow these transitions exactly.

use vstd::prelude::*;

verus! {

use vstd::arithmetic::div_mod::lemma_fundamental_div_mod;
use crate::instructions::{Instructions, Registers};

/// The state of the machine: the memory bytes, the 24 bytes of the register
/// file (twelve registers of two bytes each, big-endian), and the running
/// stack-frame byte counter.
#[verifier::ext_equal]
pub ghost struct CpuState {
    pub mem: Seq<u8>,
    pub regs: Seq<u8>,
    pub sfs: u16,
}

/// The 16-bit word formed by a big-endian byte pair.
pub open spec fn word_of(hi: u8, lo: u8) -> u16 {
    (256 * (hi as int) + (lo as int)) as u16
}

/// The most significant byte of a word.
pub open spec fn hi_byte(v: u16) -> u8 {
    (v as int / 256) as u8
}

/// The least significant byte of a word.
pub open spec fn lo_byte(v: u16) -> u8 {
    (v as int % 256) as u8
}

/// The big-endian word at byte offset `a`.
pub open spec fn word_at(bytes: Seq<u8>, a: int) -> u16 {
    word_of(bytes[a], bytes[a + 1])
}

/// `bytes` with the word `v` stored big-endian at byte offset `a`.
pub open spec fn store_word(bytes: Seq<u8>, a: int, v: u16) -> Seq<u8> {
    bytes.update(a, hi_byte(v)).update(a + 1, lo_byte(v))
}

/// Storing a word and reading it back at the same offset yields the word.
pub broadcast proof fn lemma_store_word_same(bytes: Seq<u8>, a: int, v: u16)
    requires
        0 <= a,
        a + 2 <= bytes.len(),
    ensures
        #[trigger] word_at(store_word(bytes, a, v), a) == v,
{
    lemma_fundamental_div_mod(v as int, 256);
}

/// Storing a word leaves every word of a disjoint byte pair unchanged.
pub broadcast proof fn lemma_store_word_frame(bytes: Seq<u8>, a: int, v: u16, b: int)
    requires
        0 <= a,
        a + 2 <= bytes.len(),
        0 <= b,
        b + 2 <= bytes.len(),
        a + 2 <= b || b + 2 <= a,
    ensures
        #[trigger] word_at(store_word(bytes, a, v), b) == word_at(bytes, b),
{
}

pub broadcast group group_word_lemmas {
    lemma_store_word_same,
    lemma_store_word_frame,
}

impl CpuState {
    /// Well-formedness: the register file holds exactly twelve two-byte
    /// registers, and the memory is large enough for the initial stack
    /// pointer while every byte stays addressable by a 16-bit word.
    pub open spec fn wf(self) -> bool {
        &&& self.regs.len() == 24
        &&& 2 <= self.mem.len() <= 0x10000
    }

    /// The value of the register with ordinal `slot` (0 through 11).
    pub open spec fn reg(self, slot: int) -> u16 {
        word_at(self.regs, 2 * slot)
    }

    /// The state with the register of ordinal `slot` set to `v`.
    pub open spec fn with_reg(self, slot: int, v: u16) -> CpuState {
        CpuState { regs: store_word(self.regs, 2 * slot, v), ..self }
    }

    /// The instruction pointer.
    pub open spec fn ip(self) -> u16 {
        self.reg(Registers::IP as int)
    }

    /// The accumulator.
    pub open spec fn acc(self) -> u16 {
        self.reg(Registers::ACC as int)
    }

    /// The stack pointer.
    pub open spec fn sp(self) -> u16 {
        self.reg(Registers::SP as int)
    }

    /// The frame pointer.
    pub open spec fn fp(self) -> u16 {
        self.reg(Registers::FP as int)
    }
}

/// The register-file byte offset selected by an operand byte: the byte is
/// reduced modulo twelve, so every encoding selects some register, then
/// scaled to a byte offset.
pub open spec fn reg_offset_of(b: u8) -> int {
    (b as int % 12) * 2
}

/// One byte can be fetched: the instruction pointer is inside memory and
/// advancing it by one does not leave 16 bits.
pub open spec fn can_fetch8(s: CpuState) -> bool {
    &&& s.ip() + 1 <= s.mem.len()
    &&& s.ip() + 1 <= u16::MAX
}

/// The byte that a fetch returns.
pub open spec fn fetch8_val(s: CpuState) -> u8 {
    s.mem[s.ip() as int]
}

/// The state after a one-byte fetch: the instruction pointer has advanced
/// past the byte.
pub open spec fn fetch8_upd(s: CpuState) -> CpuState {
    s.with_reg(Registers::IP as int, (s.ip() + 1) as u16)
}

/// One word can be fetched.
pub open spec fn can_fetch16(s: CpuState) -> bool {
    &&& s.ip() + 2 <= s.mem.len()
    &&& s.ip() + 2 <= u16::MAX
}

/// The word that a two-byte fetch returns.
pub open spec fn fetch16_val(s: CpuState) -> u16 {
    word_at(s.mem, s.ip() as int)
}

/// The state after a two-byte fetch.
pub open spec fn fetch16_upd(s: CpuState) -> CpuState {
    s.with_reg(Registers::IP as int, (s.ip() + 2) as u16)
}

/// A word can be pushed: the stack pointer has room to move down, the write
/// stays inside memory, and the frame counter does not overflow.
pub open spec fn can_push(s: CpuState) -> bool {
    &&& s.sp() >= 2
    &&& s.sp() + 2 <= s.mem.len()
    &&& s.sfs + 2 <= u16::MAX
}

/// The state after pushing `v`: the word is stored at the stack pointer,
/// which then moves down by two, and the frame counter grows by two.
pub open spec fn push_upd(s: CpuState, v: u16) -> CpuState {
    CpuState {
        mem: store_word(s.mem, s.sp() as int, v),
        regs: store_word(s.regs, 2 * (Registers::SP as int), (s.sp() - 2) as u16),
        sfs: (s.sfs + 2) as u16,
    }
}

/// A word can be popped: the stack pointer can move up by two, the read
/// stays inside memory, and the frame counter does not underflow.
pub open spec fn can_pop(s: CpuState) -> bool {
    &&& s.sp() + 2 <= u16::MAX
    &&& s.sp() + 4 <= s.mem.len()
    &&& s.sfs >= 2
}

/// The word that a pop returns: the word just above the stack pointer.
pub open spec fn pop_val(s: CpuState) -> u16 {
    word_at(s.mem, s.sp() + 2)
}

/// The state after a pop: the stack pointer has moved up by two and the
/// frame counter has shrunk by two. Memory is not changed.
pub open spec fn pop_upd(s: CpuState) -> CpuState {
    CpuState {
        regs: store_word(s.regs, 2 * (Registers::SP as int), (s.sp() + 2) as u16),
        sfs: (s.sfs - 2) as u16,
        ..s
    }
}

/// A stack frame can be pushed: ten words go on the stack, so the stack
/// pointer must have room to move down by twenty bytes, the topmost write
/// must stay inside memory, and the frame counter, which grows by two per
/// push, must not overflow.
pub open spec fn can_push_state(s: CpuState) -> bool {
    &&& s.sp() >= 20
    &&& s.sp() + 2 <= s.mem.len()
    &&& s.sfs + 20 <= u16::MAX
}

/// The state after saving the machine state for a call: r1 through r8, then
/// ip, then the frame-size word go on the stack in that fixed order; the
/// frame pointer moves to the new stack top and the frame counter restarts
/// at zero.
///
/// The frame-size word records every byte pushed since the previous frame
/// boundary, the ten words of the frame itself included: the counter stood
/// at `sfs` before the call, nine pushes raise it to `sfs + 18`, and the
/// tenth push stores that counter plus two.
pub open spec fn push_state_upd(s: CpuState) -> CpuState {
    let sp = s.sp() as int;
    let m = store_word(s.mem, sp, s.reg(Registers::R1 as int));
    let m = store_word(m, sp - 2, s.reg(Registers::R2 as int));
    let m = store_word(m, sp - 4, s.reg(Registers::R3 as int));
    let m = store_word(m, sp - 6, s.reg(Registers::R4 as int));
    let m = store_word(m, sp - 8, s.reg(Registers::R5 as int));
    let m = store_word(m, sp - 10, s.reg(Registers::R6 as int));
    let m = store_word(m, sp - 12, s.reg(Registers::R7 as int));
    let m = store_word(m, sp - 14, s.reg(Registers::R8 as int));
    let m = store_word(m, sp - 16, s.ip());
    let m = store_word(m, sp - 18, (s.sfs + 20) as u16);
    let r = store_word(s.regs, 2 * (Registers::SP as int), (sp - 20) as u16);
    let r = store_word(r, 2 * (Registers::FP as int), (sp - 20) as u16);
    CpuState { mem: m, regs: r, sfs: 0 }
}

/// The frame-size word of the frame the frame pointer rests on: the first
/// word above the frame base.
pub open spec fn ret_frame_word(s: CpuState) -> u16 {
    word_at(s.mem, s.fp() + 2)
}

/// The argument-count word of that frame: the word the caller pushed last
/// before the call, found just above the ten saved words.
pub open spec fn ret_arg_count(s: CpuState) -> u16 {
    word_at(s.mem, s.fp() + 22)
}

/// A stack frame can be popped: the eleven reads above the frame base and
/// the reads that discard the caller's arguments stay inside memory, the
/// stack and frame pointers stay 16-bit, and the frame counter, decremented
/// by two per pop, never underflows — neither the callee's counter on the
/// first pop nor the restored frame-size word on the remaining ones.
pub open spec fn can_pop_state(s: CpuState) -> bool {
    let fp = s.fp() as int;
    let size = ret_frame_word(s) as int;
    let n_args = ret_arg_count(s) as int;
    &&& s.sfs >= 2
    &&& fp + 24 + 2 * n_args <= s.mem.len()
    &&& fp + 22 + 2 * n_args <= u16::MAX
    &&& size >= 20 + 2 * n_args
    &&& fp + size <= u16::MAX
}

/// The state after restoring the frame the frame pointer rests on: the
/// stack pointer jumps to the frame base, the frame-size word is popped into
/// the counter, ip and r8 down to r1 are popped in the reverse of the saved
/// order, the argument-count word is popped, that many further words are
/// popped and dropped, and the frame pointer moves up by the frame size to
/// the caller's frame base. Memory is not written.
pub open spec fn pop_state_upd(s: CpuState) -> CpuState {
    let fp = s.fp() as int;
    let m = s.mem;
    let size = ret_frame_word(s) as int;
    let n_args = ret_arg_count(s) as int;
    let r = store_word(s.regs, 2 * (Registers::IP as int), word_at(m, fp + 4));
    let r = store_word(r, 2 * (Registers::R8 as int), word_at(m, fp + 6));
    let r = store_word(r, 2 * (Registers::R7 as int), word_at(m, fp + 8));
    let r = store_word(r, 2 * (Registers::R6 as int), word_at(m, fp + 10));
    let r = store_word(r, 2 * (Registers::R5 as int), word_at(m, fp + 12));
    let r = store_word(r, 2 * (Registers::R4 as int), word_at(m, fp + 14));
    let r = store_word(r, 2 * (Registers::R3 as int), word_at(m, fp + 16));
    let r = store_word(r, 2 * (Registers::R2 as int), word_at(m, fp + 18));
    let r = store_word(r, 2 * (Registers::R1 as int), word_at(m, fp + 20));
    let r = store_word(r, 2 * (Registers::SP as int), (fp + 22 + 2 * n_args) as u16);
    let r = store_word(r, 2 * (Registers::FP as int), (fp + size) as u16);
    CpuState { mem: m, regs: r, sfs: (size - 20 - 2 * n_args) as u16 }
}

/// The opcode's operand decoding and effect stay inside the machine: every
/// fetch, stack move and memory access of the instruction is in bounds and
/// no 16-bit bookkeeping wraps. An unlisted opcode asks nothing: it is a
/// no-op.
pub open spec fn can_execute(s: CpuState, op: u8) -> bool {
    if op == Instructions::MOV_LIT_REG {
        can_fetch16(s) && can_fetch8(fetch16_upd(s))
    } else if op == Instructions::MOV_REG_REG {
        can_fetch8(s) && can_fetch8(fetch8_upd(s))
    } else if op == Instructions::MOV_REG_MEM {
        &&& can_fetch8(s)
        &&& can_fetch16(fetch8_upd(s))
        &&& fetch16_val(fetch8_upd(s)) + 2 <= s.mem.len()
    } else if op == Instructions::MOV_MEM_REG {
        &&& can_fetch16(s)
        &&& can_fetch8(fetch16_upd(s))
        &&& fetch16_val(s) + 2 <= s.mem.len()
    } else if op == Instructions::ADD_REG_REG {
        &&& can_fetch8(s)
        &&& can_fetch8(fetch8_upd(s))
        &&& fetch8_val(s) < 12
        &&& fetch8_val(fetch8_upd(s)) < 12
    } else if op == Instructions::JMP_NOT_EQ {
        can_fetch16(s) && can_fetch16(fetch16_upd(s))
    } else if op == Instructions::PSH_LIT {
        can_fetch16(s) && can_push(fetch16_upd(s))
    } else if op == Instructions::PSH_REG {
        can_fetch8(s) && can_push(fetch8_upd(s))
    } else if op == Instructions::POP {
        can_fetch8(s) && can_pop(fetch8_upd(s))
    } else if op == Instructions::CAL_LIT {
        can_fetch16(s) && can_push_state(fetch16_upd(s))
    } else if op == Instructions::CAL_REG {
        can_fetch8(s) && can_push_state(fetch8_upd(s))
    } else if op == Instructions::RET {
        can_pop_state(s)
    } else {
        true
    }
}

/// The effect of an opcode on a state whose instruction pointer stands just
/// past the opcode byte: operands are consumed by the fetch transitions, in
/// the order the engine decodes them, and the opcode's effect follows. A
/// register operand is read after every operand of the instruction has been
/// fetched, so an operand that selects `ip` sees the advanced instruction
/// pointer. An unlisted opcode changes nothing.
pub open spec fn execute_upd(s: CpuState, op: u8) -> CpuState {
    if op == Instructions::MOV_LIT_REG {
        let literal = fetch16_val(s);
        let s1 = fetch16_upd(s);
        let slot = fetch8_val(s1) as int % 12;
        let s2 = fetch8_upd(s1);
        s2.with_reg(slot, literal)
    } else if op == Instructions::MOV_REG_REG {
        let from_slot = fetch8_val(s) as int % 12;
        let s1 = fetch8_upd(s);
        let to_slot = fetch8_val(s1) as int % 12;
        let s2 = fetch8_upd(s1);
        s2.with_reg(to_slot, s2.reg(from_slot))
    } else if op == Instructions::MOV_REG_MEM {
        let from_slot = fetch8_val(s) as int % 12;
        let s1 = fetch8_upd(s);
        let address = fetch16_val(s1);
        let s2 = fetch16_upd(s1);
        CpuState { mem: store_word(s2.mem, address as int, s2.reg(from_slot)), ..s2 }
    } else if op == Instructions::MOV_MEM_REG {
        let address = fetch16_val(s);
        let s1 = fetch16_upd(s);
        let to_slot = fetch8_val(s1) as int % 12;
        let s2 = fetch8_upd(s1);
        s2.with_reg(to_slot, word_at(s2.mem, address as int))
    } else if op == Instructions::ADD_REG_REG {
        let slot1 = fetch8_val(s) as int;
        let s1 = fetch8_upd(s);
        let slot2 = fetch8_val(s1) as int;
        let s2 = fetch8_upd(s1);
        let sum = (s2.reg(slot1) + s2.reg(slot2)) % 0x10000;
        s2.with_reg(Registers::ACC as int, sum as u16)
    } else if op == Instructions::JMP_NOT_EQ {
        let value = fetch16_val(s);
        let s1 = fetch16_upd(s);
        let address = fetch16_val(s1);
        let s2 = fetch16_upd(s1);
        if value != s2.acc() {
            s2.with_reg(Registers::IP as int, address)
        } else {
            s2
        }
    } else if op == Instructions::PSH_LIT {
        let value = fetch16_val(s);
        let s1 = fetch16_upd(s);
        push_upd(s1, value)
    } else if op == Instructions::PSH_REG {
        let slot = fetch8_val(s) as int % 12;
        let s1 = fetch8_upd(s);
        push_upd(s1, s1.reg(slot))
    } else if op == Instructions::POP {
        let slot = fetch8_val(s) as int % 12;
        let s1 = fetch8_upd(s);
        pop_upd(s1).with_reg(slot, pop_val(s1))
    } else if op == Instructions::CAL_LIT {
        let address = fetch16_val(s);
        let s1 = fetch16_upd(s);
        push_state_upd(s1).with_reg(Registers::IP as int, address)
    } else if op == Instructions::CAL_REG {
        let slot = fetch8_val(s) as int % 12;
        let s1 = fetch8_upd(s);
        let address = s1.reg(slot);
        push_state_upd(s1).with_reg(Registers::IP as int, address)
    } else if op == Instructions::RET {
        pop_state_upd(s)
    } else {
        s
    }
}

/// One full cycle can run: the opcode byte can be fetched and the fetched
/// opcode can be executed.
pub open spec fn can_step(s: CpuState) -> bool {
    &&& can_fetch8(s)
    &&& can_execute(fetch8_upd(s), fetch8_val(s))
}

/// The state after one full fetch-decode-execute cycle.
pub open spec fn step_upd(s: CpuState) -> CpuState {
    execute_upd(fetch8_upd(s), fetch8_val(s))
}

} // verus!
