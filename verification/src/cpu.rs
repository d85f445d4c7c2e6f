//! The execution engine: it owns the memory and the register file and
//! performs one fetch-decode-execute cycle per step, exactly as the
//! transition functions of [`crate::semantics`] describe.

use vstd::prelude::*;

verus! {

use crate::create_memory::create_memory;
use crate::instructions::{Instructions, Registers};
use crate::semantics::{
    can_execute, can_fetch8, can_fetch16, can_pop, can_push, can_pop_state, can_push_state,
    can_step, execute_upd, fetch8_upd, fetch8_val, fetch16_upd, fetch16_val, hi_byte, lo_byte,
    pop_state_upd, pop_upd, pop_val, push_state_upd, push_upd, reg_offset_of, ret_arg_count,
    ret_frame_word, step_upd, store_word, word_at, word_of, CpuState,
};

use vstd::string::StrSliceExecFns;

broadcast use crate::semantics::group_word_lemmas;

const NUM_OF_REGISTERS: u8 = 12;

/// The virtual CPU: a flat byte memory, a 24-byte register file (twelve
/// registers of two big-endian bytes each), and the running count of bytes
/// pushed since the last stack-frame boundary.
#[derive(Debug)]
pub struct CPU {
    memory: Vec<u8>,
    registers: Vec<u8>,
    stack_frame_size: u16,
}

impl View for CPU {
    type V = CpuState;

    closed spec fn view(&self) -> CpuState {
        CpuState { mem: self.memory@, regs: self.registers@, sfs: self.stack_frame_size }
    }
}

/// The register-file byte offset of a register name: the name's position in
/// the fixed list ip, acc, r1 through r8, sp, fp, times the two-byte register
/// width. An unknown name has no offset.
pub open spec fn register_offset_of_name(name: Seq<char>) -> Option<u8> {
    if name == "ip"@ {
        Some(0u8)
    } else if name == "acc"@ {
        Some(2u8)
    } else if name == "r1"@ {
        Some(4u8)
    } else if name == "r2"@ {
        Some(6u8)
    } else if name == "r3"@ {
        Some(8u8)
    } else if name == "r4"@ {
        Some(10u8)
    } else if name == "r5"@ {
        Some(12u8)
    } else if name == "r6"@ {
        Some(14u8)
    } else if name == "r7"@ {
        Some(16u8)
    } else if name == "r8"@ {
        Some(18u8)
    } else if name == "sp"@ {
        Some(20u8)
    } else if name == "fp"@ {
        Some(22u8)
    } else {
        None
    }
}

/// The big-endian byte pair of a word, most significant byte first.
fn u16_to_u8(value: u16) -> (r: [u8; 2])
    ensures
        r[0] == hi_byte(value),
        r[1] == lo_byte(value),
{
    [(value / 256) as u8, (value % 256) as u8]
}

/// The word formed by the first two bytes, big-endian.
fn u8_to_u16(value: &[u8]) -> (r: u16)
    requires
        value@.len() >= 2,
    ensures
        r == word_of(value[0], value[1]),
{
    (value[0] as u16) * 256 + (value[1] as u16)
}

impl CPU {
    /// A fresh machine over the given memory: every register is zero except
    /// the stack and frame pointers, which start at the topmost word of
    /// memory, and the frame counter starts at zero.
    pub fn new(memory: Vec<u8>) -> (c: CPU)
        requires
            2 <= memory@.len() <= 0x10000,
        ensures
            c@.wf(),
            c@.mem == memory@,
            c@.sfs == 0,
            c@.sp() == memory@.len() - 2,
            c@.fp() == memory@.len() - 2,
            forall|slot: int| 0 <= slot < 10 ==> c@.reg(slot) == 0,
    {
        let memory_length = memory.len();

        let mut c = CPU {
            memory,
            registers: create_memory((NUM_OF_REGISTERS as u16) * 2),
            stack_frame_size: 0,
        };

        c.set_register(Registers::SP * 2, (memory_length - 2) as u16);
        c.set_register(Registers::FP * 2, (memory_length - 2) as u16);

        proof {
            assert forall|slot: int| 0 <= slot < 10 implies c@.reg(slot) == 0 by {
                assert(word_of(0, 0) == 0);
            }
        }
        c
    }

    /// The register-file byte offset of a register name, found by matching
    /// the name against the fixed list. Callers must pass a known name: an
    /// unknown one is a programming error, not a machine condition.
    fn get_memory_location_of_register(&self, register: &'static str) -> (r: u8)
        requires
            register_offset_of_name(register@) is Some,
        ensures
            Some(r) == register_offset_of_name(register@),
    {
        proof {
            reveal_strlit("ip");
            reveal_strlit("acc");
            reveal_strlit("r1");
            reveal_strlit("r2");
            reveal_strlit("r3");
            reveal_strlit("r4");
            reveal_strlit("r5");
            reveal_strlit("r6");
            reveal_strlit("r7");
            reveal_strlit("r8");
            reveal_strlit("sp");
            reveal_strlit("fp");
        }
        let len = register.unicode_len();
        if len == 3 {
            let c0 = register.get_char(0);
            let c1 = register.get_char(1);
            let c2 = register.get_char(2);
            if c0 == 'a' && c1 == 'c' && c2 == 'c' {
                proof {
                    assert(register@ =~= "acc"@);
                }
                return 2;
            }
            proof {
                assert(false);
            }
            0
        } else if len == 2 {
            let c0 = register.get_char(0);
            let c1 = register.get_char(1);
            let offset: u8 = if c0 == 'i' && c1 == 'p' {
                proof {
                    assert(register@ =~= "ip"@);
                }
                0
            } else if c0 == 'r' && c1 == '1' {
                proof {
                    assert(register@ =~= "r1"@);
                }
                4
            } else if c0 == 'r' && c1 == '2' {
                proof {
                    assert(register@ =~= "r2"@);
                }
                6
            } else if c0 == 'r' && c1 == '3' {
                proof {
                    assert(register@ =~= "r3"@);
                }
                8
            } else if c0 == 'r' && c1 == '4' {
                proof {
                    assert(register@ =~= "r4"@);
                }
                10
            } else if c0 == 'r' && c1 == '5' {
                proof {
                    assert(register@ =~= "r5"@);
                }
                12
            } else if c0 == 'r' && c1 == '6' {
                proof {
                    assert(register@ =~= "r6"@);
                }
                14
            } else if c0 == 'r' && c1 == '7' {
                proof {
                    assert(register@ =~= "r7"@);
                }
                16
            } else if c0 == 'r' && c1 == '8' {
                proof {
                    assert(register@ =~= "r8"@);
                }
                18
            } else if c0 == 's' && c1 == 'p' {
                proof {
                    assert(register@ =~= "sp"@);
                }
                20
            } else if c0 == 'f' && c1 == 'p' {
                proof {
                    assert(register@ =~= "fp"@);
                }
                22
            } else {
                proof {
                    assert(false);
                }
                0
            };
            offset
        } else {
            proof {
                assert(false);
            }
            0
        }
    }

    /// The value of the register with the given name.
    pub fn get_register_name(&self, name: &'static str) -> (r: u16)
        requires
            self@.wf(),
            register_offset_of_name(name@) is Some,
        ensures
            r == word_at(self@.regs, register_offset_of_name(name@).unwrap() as int),
    {
        let index = self.get_memory_location_of_register(name);
        self.get_register(index)
    }

    /// Stores `value` in the register with the given name. Nothing else
    /// changes.
    pub fn set_register_name(&mut self, name: &'static str, value: u16)
        requires
            old(self)@.wf(),
            register_offset_of_name(name@) is Some,
        ensures
            final(self)@.wf(),
            final(self)@.regs == store_word(
                old(self)@.regs,
                register_offset_of_name(name@).unwrap() as int,
                value,
            ),
            final(self)@.mem == old(self)@.mem,
            final(self)@.sfs == old(self)@.sfs,
    {
        let index = self.get_memory_location_of_register(name);
        self.set_register(index, value);
    }

    /// The number of bytes of memory the machine owns.
    pub fn memory_len(&self) -> (r: usize)
        ensures
            r == self@.mem.len(),
    {
        self.memory.len()
    }

    /// The big-endian word at byte offset `location` of `buf`.
    fn get16(buf: &Vec<u8>, location: usize) -> (r: u16)
        requires
            location + 2 <= buf@.len(),
            location + 2 <= usize::MAX,
        ensures
            r == word_at(buf@, location as int),
    {
        u8_to_u16(vstd::slice::slice_subrange(buf.as_slice(), location, location + 2))
    }

    /// The value of the register at byte offset `location` of the register
    /// file.
    pub fn get_register(&self, location: u8) -> (r: u16)
        requires
            self@.wf(),
            location + 2 <= 24,
        ensures
            r == word_at(self@.regs, location as int),
    {
        CPU::get16(&self.registers, location as usize)
    }

    /// Stores `value` big-endian at byte offset `location` of the register
    /// file. Nothing else changes.
    pub fn set_register(&mut self, location: u8, value: u16)
        requires
            old(self)@.wf(),
            location + 2 <= 24,
        ensures
            final(self)@.wf(),
            final(self)@.regs == store_word(
                old(self)@.regs,
                location as int,
                value,
            ),
            final(self)@.mem == old(self)@.mem,
            final(self)@.sfs == old(self)@.sfs,
    {
        let values = u16_to_u8(value);
        self.registers[location as usize] = values[0];
        self.registers[location as usize + 1] = values[1];
    }

    /// Reads one byte at the address held in `ip`, then advances `ip` past
    /// it. This is the sole mechanism by which the instruction pointer moves
    /// forward; decoding operands goes through the same primitive.
    pub fn fetch(&mut self) -> (r: u8)
        requires
            old(self)@.wf(),
            can_fetch8(old(self)@),
        ensures
            final(self)@.wf(),
            final(self)@ == fetch8_upd(old(self)@),
            r == fetch8_val(old(self)@),
    {
        let next_instruction_address = self.get_register(Registers::IP * 2);
        let instruction = self.memory[next_instruction_address as usize];
        self.set_register(Registers::IP * 2, next_instruction_address + 1);
        instruction
    }

    /// Reads one big-endian word at the address held in `ip`, then advances
    /// `ip` past it.
    pub fn fetch16(&mut self) -> (r: u16)
        requires
            old(self)@.wf(),
            can_fetch16(old(self)@),
        ensures
            final(self)@.wf(),
            final(self)@ == fetch16_upd(old(self)@),
            r == fetch16_val(old(self)@),
    {
        let next_instruction_address = self.get_register(Registers::IP * 2);
        let instruction = CPU::get16(&self.memory, next_instruction_address as usize);
        self.set_register(Registers::IP * 2, next_instruction_address + 2);
        instruction
    }

    /// Fetches one operand byte and turns it into a register-file byte
    /// offset: the byte is reduced modulo the register count, so every
    /// encoding selects some register, then scaled by the register width.
    pub fn fetch_register_index(&mut self) -> (r: u8)
        requires
            old(self)@.wf(),
            can_fetch8(old(self)@),
        ensures
            final(self)@.wf(),
            final(self)@ == fetch8_upd(old(self)@),
            r == reg_offset_of(fetch8_val(old(self)@)),
            r + 2 <= 24,
    {
        (self.fetch() % NUM_OF_REGISTERS) * 2
    }

    /// Stores `value` at the stack pointer, moves the stack pointer one word
    /// down, and counts the pushed bytes toward the current frame.
    pub fn push(&mut self, value: u16)
        requires
            old(self)@.wf(),
            can_push(old(self)@),
        ensures
            final(self)@.wf(),
            final(self)@ == push_upd(old(self)@, value),
    {
        let sp_address = self.get_register(Registers::SP * 2);
        self.set_memory(sp_address, value);
        self.set_register(Registers::SP * 2, sp_address - 2);
        self.stack_frame_size = self.stack_frame_size + 2;
    }

    /// Moves the stack pointer one word up and returns the word found there,
    /// shrinking the current frame's byte count.
    pub fn pop(&mut self) -> (r: u16)
        requires
            old(self)@.wf(),
            can_pop(old(self)@),
        ensures
            final(self)@.wf(),
            final(self)@ == pop_upd(old(self)@),
            r == pop_val(old(self)@),
    {
        let next_sp_address = self.get_register(Registers::SP * 2) + 2;
        self.set_register(Registers::SP * 2, next_sp_address);
        self.stack_frame_size = self.stack_frame_size - 2;
        self.get_memory(next_sp_address)
    }

    /// Saves the machine state for a call: pushes r1 through r8, then ip,
    /// then a frame-size word equal to every byte pushed since the previous
    /// frame boundary plus the word itself; then moves the frame pointer to
    /// the new stack top and restarts the frame counter.
    pub fn push_state(&mut self)
        requires
            old(self)@.wf(),
            can_push_state(old(self)@),
        ensures
            final(self)@.wf(),
            final(self)@ == push_state_upd(old(self)@),
    {
        let r1 = self.get_register(Registers::R1 * 2);
        self.push(r1);
        let r2 = self.get_register(Registers::R2 * 2);
        self.push(r2);
        let r3 = self.get_register(Registers::R3 * 2);
        self.push(r3);
        let r4 = self.get_register(Registers::R4 * 2);
        self.push(r4);
        let r5 = self.get_register(Registers::R5 * 2);
        self.push(r5);
        let r6 = self.get_register(Registers::R6 * 2);
        self.push(r6);
        let r7 = self.get_register(Registers::R7 * 2);
        self.push(r7);
        let r8 = self.get_register(Registers::R8 * 2);
        self.push(r8);
        let ip = self.get_register(Registers::IP * 2);
        self.push(ip);
        let frame_size = self.stack_frame_size + 2;
        self.push(frame_size);

        let stack_top = self.get_register(Registers::SP * 2);
        self.set_register(Registers::FP * 2, stack_top);
        self.stack_frame_size = 0;

        proof {
            assert(self@ =~= push_state_upd(old(self)@));
        }
    }

    /// Restores the frame the frame pointer rests on: the exact reverse of
    /// [`CPU::push_state`], followed by dropping as many words as the
    /// argument-count word says the caller pushed before the call.
    #[verifier::rlimit(100)]
    pub fn pop_state(&mut self)
        requires
            old(self)@.wf(),
            can_pop_state(old(self)@),
        ensures
            final(self)@.wf(),
            final(self)@ == pop_state_upd(old(self)@),
    {
        let ghost s0 = old(self)@;
        let ghost fp = s0.fp() as int;
        let ghost size = ret_frame_word(s0) as int;
        let ghost n = ret_arg_count(s0) as int;

        let frame_pointer_address = self.get_register(Registers::FP * 2);
        self.set_register(Registers::SP * 2, frame_pointer_address);

        let popped_frame_size = self.pop();
        self.stack_frame_size = popped_frame_size;
        let stack_frame_size = popped_frame_size;

        let mut tmp = self.pop();
        self.set_register(Registers::IP * 2, tmp);
        tmp = self.pop();
        self.set_register(Registers::R8 * 2, tmp);
        tmp = self.pop();
        self.set_register(Registers::R7 * 2, tmp);
        tmp = self.pop();
        self.set_register(Registers::R6 * 2, tmp);
        tmp = self.pop();
        self.set_register(Registers::R5 * 2, tmp);
        tmp = self.pop();
        self.set_register(Registers::R4 * 2, tmp);
        tmp = self.pop();
        self.set_register(Registers::R3 * 2, tmp);
        tmp = self.pop();
        self.set_register(Registers::R2 * 2, tmp);
        tmp = self.pop();
        self.set_register(Registers::R1 * 2, tmp);

        let ghost regs_restored = self@.regs;
        let n_args = self.pop();

        let mut i: u16 = 0;
        while i < n_args
            invariant
                s0.wf(),
                can_pop_state(s0),
                fp == s0.fp() as int,
                size == ret_frame_word(s0) as int,
                n == ret_arg_count(s0) as int,
                n_args as int == n,
                i <= n_args,
                self@.mem == s0.mem,
                regs_restored.len() == 24,
                self@.regs == store_word(regs_restored, 20, (fp + 22 + 2 * i) as u16),
                self@.sfs == size - 20 - 2 * i,
            decreases n_args - i,
        {
            let _ = self.pop();
            i = i + 1;
            proof {
                assert(self@.regs =~= store_word(regs_restored, 20, (fp + 22 + 2 * i) as u16));
            }
        }

        self.set_register(Registers::FP * 2, frame_pointer_address + stack_frame_size);

        proof {
            assert(self@ =~= pop_state_upd(s0));
        }
    }

    /// The big-endian word at memory address `address`.
    pub fn get_memory(&self, address: u16) -> (r: u16)
        requires
            self@.wf(),
            address + 2 <= self@.mem.len(),
        ensures
            r == word_at(self@.mem, address as int),
    {
        CPU::get16(&self.memory, address as usize)
    }

    /// Stores `value` big-endian at memory address `address`. Nothing else
    /// changes.
    pub fn set_memory(&mut self, address: u16, value: u16)
        requires
            old(self)@.wf(),
            address + 2 <= old(self)@.mem.len(),
        ensures
            final(self)@.wf(),
            final(self)@.mem == store_word(
                old(self)@.mem,
                address as int,
                value,
            ),
            final(self)@.regs == old(self)@.regs,
            final(self)@.sfs == old(self)@.sfs,
    {
        let values = u16_to_u8(value);
        self.memory[address as usize] = values[0];
        self.memory[address as usize + 1] = values[1];
    }

    /// Performs the effect of an already-fetched opcode, decoding its
    /// operands from the instruction stream. A byte outside the opcode table
    /// is deliberately ignored: the engine is permissive, and an unknown
    /// opcode is a documented no-op, not a fault.
    pub fn execute(&mut self, instruction: u8)
        requires
            old(self)@.wf(),
            can_execute(old(self)@, instruction),
        ensures
            final(self)@.wf(),
            final(self)@ == execute_upd(old(self)@, instruction),
    {
        if instruction == Instructions::MOV_LIT_REG {
            let literal = self.fetch16();
            let register = self.fetch_register_index();
            self.set_register(register, literal);
        } else if instruction == Instructions::MOV_REG_REG {
            let register_from = self.fetch_register_index();
            let register_to = self.fetch_register_index();
            let value = self.get_register(register_from);
            self.set_register(register_to, value);
        } else if instruction == Instructions::MOV_REG_MEM {
            let register_from = self.fetch_register_index();
            let address = self.fetch16();
            let value = self.get_register(register_from);
            self.set_memory(address, value);
        } else if instruction == Instructions::MOV_MEM_REG {
            let address = self.fetch16();
            let register_to = self.fetch_register_index();
            let value = self.get_memory(address);
            self.set_register(register_to, value);
        } else if instruction == Instructions::ADD_REG_REG {
            let r1 = self.fetch();
            let r2 = self.fetch();

            let register_value_1 = CPU::get16(&self.registers, (r1 as usize) * 2);
            let register_value_2 = CPU::get16(&self.registers, (r2 as usize) * 2);

            let sum = (((register_value_1 as u32) + (register_value_2 as u32)) % 0x10000) as u16;
            self.set_register(Registers::ACC * 2, sum);
        } else if instruction == Instructions::JMP_NOT_EQ {
            let value = self.fetch16();
            let address = self.fetch16();

            if value != self.get_register(Registers::ACC * 2) {
                self.set_register(Registers::IP * 2, address);
            }
        } else if instruction == Instructions::PSH_LIT {
            let value = self.fetch16();
            self.push(value);
        } else if instruction == Instructions::PSH_REG {
            let register_index = self.fetch_register_index();
            let value = self.get_register(register_index);
            self.push(value);
        } else if instruction == Instructions::POP {
            let register_index = self.fetch_register_index();
            let value = self.pop();
            self.set_register(register_index, value);
        } else if instruction == Instructions::CAL_LIT {
            let address = self.fetch16();
            self.push_state();
            self.set_register(Registers::IP * 2, address);
        } else if instruction == Instructions::CAL_REG {
            let register_index = self.fetch_register_index();
            let address = self.get_register(register_index);
            self.push_state();
            self.set_register(Registers::IP * 2, address);
        } else if instruction == Instructions::RET {
            self.pop_state();
        }
    }

    /// Advances the machine by exactly one instruction: fetches the opcode
    /// byte at `ip` and executes it. The engine never loops by itself;
    /// repeated stepping is the caller's business.
    pub fn step(&mut self)
        requires
            old(self)@.wf(),
            can_step(old(self)@),
        ensures
            final(self)@.wf(),
            final(self)@ == step_upd(old(self)@),
    {
        let instruction = self.fetch();
        self.execute(instruction);
    }
}

} // verus!
