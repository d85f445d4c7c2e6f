//! A minimal verified virtual CPU: a byte-addressable memory, a file of
//! twelve 16-bit registers, and a fetch-decode-execute engine with a
//! stack-based call protocol.
//!
//! The machine is modelled by [`semantics::CpuState`], a mathematical state
//! (memory bytes, register bytes, and the running stack-frame counter), and
//! every operation of the engine is specified as a transition on that state.
//! Out-of-bounds accesses and 16-bit wraparound of the stack bookkeeping are
//! excluded by preconditions: programs are trusted input, as they are for a
//! hardware CPU, and the `can_*` predicates say exactly which states a given
//! operation accepts.

pub mod cpu;
pub mod create_memory;
pub mod instructions;
pub mod laws;
pub mod semantics;
