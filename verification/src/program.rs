//! Instruction fetch: reading the bytes at and after the program counter.

use vstd::prelude::*;
use crate::bytes::assemble_word;
use crate::state::State;

verus! {

/// Read-only access to the instruction that a program counter addresses.
pub trait Program {
    /// The byte `offset` places after the program counter.
    spec fn fetched(&self, offset: u16) -> u8;

    fn get_arg(&self, offset: u16) -> (r: u8)
        ensures
            r == self.fetched(offset),
    ;

    fn get_opcode(&self) -> (r: u8)
        ensures
            r == self.fetched(0),
    {
        self.get_arg(0)
    }

    fn get_arg8(&self) -> (r: u8)
        ensures
            r == self.fetched(1),
    {
        self.get_arg(1)
    }

    /// The operand bytes are stored low byte first.
    fn get_arg16(&self) -> (r: u16)
        ensures
            r == crate::bytes::word_of(self.fetched(2), self.fetched(1)),
    {
        assemble_word(self.get_arg(2), self.get_arg(1))
    }
}

impl Program for State {
    open spec fn fetched(&self, offset: u16) -> u8 {
        self@.fetch(offset)
    }

    fn get_arg(&self, offset: u16) -> (r: u8) {
        self.memory.get(self.pc.wrapping_add(offset))
    }
}

} // verus!
