use vstd::prelude::*;

verus! {

/// The closed table of one-byte opcodes. Any byte not listed here is executed
/// as a no-op: the engine deliberately ignores unknown opcodes rather than
/// faulting.
pub struct Instructions;

impl Instructions {
    /// literal:16, reg:8 — reg gets the literal.
    pub const MOV_LIT_REG: u8 = 0x10;
    /// reg_from:8, reg_to:8 — reg_to gets reg_from's value.
    pub const MOV_REG_REG: u8 = 0x11;
    /// reg_from:8, address:16 — memory at the address gets reg_from's value.
    pub const MOV_REG_MEM: u8 = 0x12;
    /// address:16, reg_to:8 — reg_to gets the word at the address.
    pub const MOV_MEM_REG: u8 = 0x13;
    /// reg1:8, reg2:8 (raw ordinals) — acc gets their 16-bit wraparound sum.
    pub const ADD_REG_REG: u8 = 0x14;
    /// value:16, address:16 — ip gets the address if value differs from acc.
    pub const JMP_NOT_EQ: u8 = 0x15;
    /// value:16 — the value is pushed on the stack.
    pub const PSH_LIT: u8 = 0x17;
    /// reg:8 — the register's value is pushed on the stack.
    pub const PSH_REG: u8 = 0x18;
    /// reg:8 — the register gets the popped value.
    pub const POP: u8 = 0x1A;
    /// address:16 — the register state is saved and ip gets the address.
    pub const CAL_LIT: u8 = 0x5E;
    /// reg:8 — the register state is saved and ip gets the register's value.
    pub const CAL_REG: u8 = 0x5F;
    /// the register state saved by the matching call is restored.
    pub const RET: u8 = 0x60;
}

/// The ordinals of the twelve registers, in the fixed order of the register
/// file. A register's byte offset in the file is its ordinal times two.
pub struct Registers;

impl Registers {
    pub const IP: u8 = 0;
    pub const ACC: u8 = 1;
    pub const R1: u8 = 2;
    pub const R2: u8 = 3;
    pub const R3: u8 = 4;
    pub const R4: u8 = 5;
    pub const R5: u8 = 6;
    pub const R6: u8 = 7;
    pub const R7: u8 = 8;
    pub const R8: u8 = 9;
    pub const SP: u8 = 10;
    pub const FP: u8 = 11;
}

} // verus!
