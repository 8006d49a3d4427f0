//! The stack: bytes and words pushed below the stack pointer and popped
//! from it.

use vstd::prelude::*;
use crate::bytes::{assemble_word, high_order_byte, low_order_byte};
use crate::state::State;

verus! {

/// A downward-growing stack of bytes. Words go on it high byte first, so
/// that they lie in memory low byte first.
pub trait Stack: View {
    /// The model of the stack after `value` was pushed on `model`.
    spec fn pushed(model: Self::V, value: u8) -> Self::V;

    /// The top byte of `model`, and the model without it.
    spec fn popped(model: Self::V) -> (u8, Self::V);

    fn push8(&mut self, value: u8)
        ensures
            final(self)@ == Self::pushed(old(self)@, value),
    ;

    fn pop8(&mut self) -> (r: u8)
        ensures
            (r, final(self)@) == Self::popped(old(self)@),
    ;

    fn push16(&mut self, value: u16)
        ensures
            final(self)@ == Self::pushed(
                Self::pushed(old(self)@, crate::bytes::high_of(value)),
                crate::bytes::low_of(value),
            ),
    {
        self.push8(high_order_byte(value));
        self.push8(low_order_byte(value));
    }

    fn pop16(&mut self) -> (r: u16)
        ensures
            ({
                let (low, rest) = Self::popped(old(self)@);
                let (high, rest) = Self::popped(rest);
                r == crate::bytes::word_of(high, low) && final(self)@ == rest
            }),
    {
        let low_order = self.pop8();
        let high_order = self.pop8();
        assemble_word(high_order, low_order)
    }
}

impl Stack for State {
    open spec fn pushed(model: crate::image::Image, value: u8) -> crate::image::Image {
        model.push8(value)
    }

    open spec fn popped(model: crate::image::Image) -> (u8, crate::image::Image) {
        model.pop8()
    }

    fn pop8(&mut self) -> (r: u8) {
        let r = self.memory.get(self.sp);
        self.sp = self.sp.wrapping_add(1);
        r
    }

    fn push8(&mut self, value: u8) {
        let top = self.sp.wrapping_sub(1);
        self.memory.set(top, value);
        self.sp = top;
    }
}

} // verus!
