//! The machine state: registers, flags, pointers and memory, with the
//! arithmetic, stack and control-flow primitives that instructions are
//! made of.

use vstd::prelude::*;
use std::collections::VecDeque;
use crate::bytes::{assemble_word, high_order_byte, low_order_byte};
use crate::flags::Flags;
use crate::image::Image;
use crate::memory::Memory;
use crate::opcode::instruction_length;
use crate::program::Program;
use crate::stack::Stack;

verus! {

/// The registers and pointers at one moment, kept for diagnostics.
#[derive(Debug, Clone, Copy)]
pub struct Snapshot {
    pub a: u8,
    pub b: u8,
    pub c: u8,
    pub d: u8,
    pub e: u8,
    pub h: u8,
    pub l: u8,
    pub sp: u16,
    pub pc: u16,
}

/// The conditions that a conditional jump, call or return can test, and
/// the one that always holds.
#[derive(PartialEq, Eq, Structural, Debug, Clone, Copy)]
pub enum Condition {
    NotZero,
    Zero,
    NoCarry,
    Carry,
    ParityOdd,
    ParityEven,
    Plus,
    Minus,
    Always,
}

impl Condition {
    /// Whether the condition holds of the flags `cc`.
    pub open spec fn holds(self, cc: Flags) -> bool {
        match self {
            Condition::NotZero => !cc.z,
            Condition::Zero => cc.z,
            Condition::NoCarry => !cc.cy,
            Condition::Carry => cc.cy,
            Condition::ParityOdd => !cc.p,
            Condition::ParityEven => cc.p,
            Condition::Plus => !cc.s,
            Condition::Minus => cc.s,
            Condition::Always => true,
        }
    }

    /// The condition that the three-bit field `field` of an opcode names.
    pub open spec fn of_field(field: int) -> Condition {
        if field == 0 {
            Condition::NotZero
        } else if field == 1 {
            Condition::Zero
        } else if field == 2 {
            Condition::NoCarry
        } else if field == 3 {
            Condition::Carry
        } else if field == 4 {
            Condition::ParityOdd
        } else if field == 5 {
            Condition::ParityEven
        } else if field == 6 {
            Condition::Plus
        } else {
            Condition::Minus
        }
    }

    pub fn evaluate(&self, flags: &Flags) -> (r: bool)
        ensures
            r == self.holds(*flags),
    {
        match self {
            Condition::NotZero => !flags.z,
            Condition::Zero => flags.z,
            Condition::NoCarry => !flags.cy,
            Condition::Carry => flags.cy,
            Condition::ParityOdd => !flags.p,
            Condition::ParityEven => flags.p,
            Condition::Plus => !flags.s,
            Condition::Minus => flags.s,
            Condition::Always => true,
        }
    }
}

/// The single mutable machine image.
pub struct State {
    pub a: u8,
    pub b: u8,
    pub c: u8,
    pub d: u8,
    pub e: u8,
    pub h: u8,
    pub l: u8,
    pub sp: u16,
    pub pc: u16,
    pub cc: Flags,
    pub int_enable: bool,
    pub memory: Memory,
    pub jumped: bool,
    pub trace_history: VecDeque<Snapshot>,
}

impl View for State {
    type V = Image;

    open spec fn view(&self) -> Image {
        Image {
            a: self.a,
            b: self.b,
            c: self.c,
            d: self.d,
            e: self.e,
            h: self.h,
            l: self.l,
            sp: self.sp,
            pc: self.pc,
            cc: self.cc,
            int_enable: self.int_enable,
            mem: self.memory.bytes(),
            jumped: self.jumped,
            trace: self.trace_history@,
        }
    }
}

impl State {
    pub fn new() -> (r: State)
        ensures
            r@ == Image::power_on(),
    {
        State {
            a: 0,
            b: 0,
            c: 0,
            d: 0,
            e: 0,
            h: 0,
            l: 0,
            sp: 0,
            pc: 0,
            cc: Flags::new(),
            int_enable: false,
            memory: Memory::new(),
            jumped: false,
            trace_history: VecDeque::with_capacity(50),
        }
    }

    pub fn snapshot(&self) -> (r: Snapshot)
        ensures
            r == self@.snapshot(),
    {
        Snapshot {
            a: self.a,
            b: self.b,
            c: self.c,
            d: self.d,
            e: self.e,
            h: self.h,
            l: self.l,
            sp: self.sp,
            pc: self.pc,
        }
    }
    pub fn is_plus(s: &State) -> (r: bool)
        ensures
            r == !s.cc.s,
    {
        !s.cc.s
    }

    pub fn is_minus(s: &State) -> (r: bool)
        ensures
            r == s.cc.s,
    {
        s.cc.s
    }

    pub fn is_nz(s: &State) -> (r: bool)
        ensures
            r == !s.cc.z,
    {
        !s.cc.z
    }

    pub fn is_z(s: &State) -> (r: bool)
        ensures
            r == s.cc.z,
    {
        s.cc.z
    }

    pub fn is_nc(s: &State) -> (r: bool)
        ensures
            r == !s.cc.cy,
    {
        !s.cc.cy
    }

    pub fn is_c(s: &State) -> (r: bool)
        ensures
            r == s.cc.cy,
    {
        s.cc.cy
    }

    pub fn is_parity_odd(s: &State) -> (r: bool)
        ensures
            r == !s.cc.p,
    {
        !s.cc.p
    }

    pub fn is_parity_even(s: &State) -> (r: bool)
        ensures
            r == s.cc.p,
    {
        s.cc.p
    }

    pub fn unconditionally(_s: &State) -> (r: bool)
        ensures
            r,
    {
        true
    }

    /// Ends an instruction: moves `pc` past it unless the instruction
    /// redirected `pc`, and clears the mark of that.
    pub fn advance(&mut self, opcode: u8)
        ensures
            final(self)@ == old(self)@.advance(opcode),
    {
        if !self.jumped {
            self.pc = self.pc.wrapping_add(instruction_length(opcode));
        }
        self.jumped = false;
    }

    pub fn get_bc(&self) -> (r: u16)
        ensures
            r == self@.bc(),
    {
        assemble_word(self.b, self.c)
    }

    pub fn get_de(&self) -> (r: u16)
        ensures
            r == self@.de(),
    {
        assemble_word(self.d, self.e)
    }

    pub fn get_hl_address(&self) -> (r: u16)
        ensures
            r == self@.hl(),
    {
        assemble_word(self.h, self.l)
    }

    pub fn get_m(&self) -> (r: u8)
        ensures
            r == self@.m(),
    {
        self.memory.get(self.get_hl_address())
    }

    pub fn set_m(&mut self, value: u8)
        ensures
            final(self)@ == old(self)@.with_m(value),
    {
        let address = self.get_hl_address();
        self.memory.set(address, value)
    }

    pub fn set_bc(&mut self, value: u16)
        ensures
            final(self)@ == old(self)@.with_bc(value),
    {
        self.b = high_order_byte(value);
        self.c = low_order_byte(value);
    }

    pub fn set_de(&mut self, value: u16)
        ensures
            final(self)@ == old(self)@.with_de(value),
    {
        self.d = high_order_byte(value);
        self.e = low_order_byte(value);
    }

    pub fn set_hl(&mut self, value: u16)
        ensures
            final(self)@ == old(self)@.with_hl(value),
    {
        self.h = high_order_byte(value);
        self.l = low_order_byte(value);
    }

    /// The operand that bits 0 to 2 of `opcode` select.
    pub fn get_operand(&self, opcode: u8) -> (r: u8)
        ensures
            r == self@.reg(crate::opcode::low_field(opcode)),
    {
        proof {
            crate::opcode::lemma_fields(opcode);
        }
        match opcode & 0x07 {
            0x0 => self.b,
            0x1 => self.c,
            0x2 => self.d,
            0x3 => self.e,
            0x4 => self.h,
            0x5 => self.l,
            0x6 => self.get_m(),
            _ => self.a,
        }
    }

    /// Stores `val` in the destination that bits 3 to 5 of `opcode` select.
    pub fn set_register(&mut self, opcode: u8, val: u8)
        ensures
            final(self)@ == old(self)@.with_reg(crate::opcode::mid_field(opcode), val),
    {
        proof {
            crate::opcode::lemma_fields(opcode);
        }
        match (opcode >> 3) & 0x07 {
            0x0 => self.b = val,
            0x1 => self.c = val,
            0x2 => self.d = val,
            0x3 => self.e = val,
            0x4 => self.h = val,
            0x5 => self.l = val,
            0x6 => self.set_m(val),
            _ => self.a = val,
        }
    }

    /// The condition that bits 3 to 5 of `opcode` name.
    pub fn predicate_for(opcode: u8) -> (r: Condition)
        ensures
            r == Condition::of_field(crate::opcode::mid_field(opcode)),
    {
        proof {
            crate::opcode::lemma_fields(opcode);
        }
        match (opcode >> 3) & 0x07 {
            0x0 => Condition::NotZero,
            0x1 => Condition::Zero,
            0x2 => Condition::NoCarry,
            0x3 => Condition::Carry,
            0x4 => Condition::ParityOdd,
            0x5 => Condition::ParityEven,
            0x6 => Condition::Plus,
            _ => Condition::Minus,
        }
    }

    pub fn set_flags_no_carry(&mut self, result: u8)
        ensures
            final(self)@ == old(self)@.with_zsp(result),
    {
        self.cc.set_z(result);
        self.cc.set_s(result);
        self.cc.set_p(result);
    }

    pub fn set_flags(&mut self, result: u16)
        ensures
            final(self)@ == old(self)@.with_flags(result),
    {
        self.set_flags_no_carry(low_order_byte(result));
        self.cc.cy = result > 0xff;
    }

    pub fn add8(&mut self, addend: u8)
        ensures
            final(self)@ == old(self)@.add8(addend),
    {
        let result: u16 = (self.a as u16) + (addend as u16);
        self.set_flags(result);
        self.a = low_order_byte(result);
    }

    pub fn add16(&mut self, addend: u16)
        ensures
            final(self)@ == old(self)@.add16(addend),
    {
        let val = self.get_hl_address();
        let result: u32 = (val as u32) + (addend as u32);
        proof {
            crate::bytes::lemma_low_word(result);
        }
        self.cc.cy = result > 0xffff;
        self.set_hl(#[verifier::truncate] (result as u16));
    }

    pub fn adc8(&mut self, addend: u8)
        ensures
            final(self)@ == old(self)@.adc8(addend),
    {
        let carry: u16 = if self.cc.cy { 1 } else { 0 };
        let result: u16 = (self.a as u16) + (addend as u16) + carry;
        self.set_flags(result);
        self.a = low_order_byte(result);
    }

    pub fn sub8(&mut self, subtractand: u8)
        ensures
            final(self)@ == old(self)@.sub8(subtractand),
    {
        let result = self.a.wrapping_sub(subtractand);
        self.set_flags(result as u16);
        self.cc.cy = self.a < subtractand;
        self.a = result;
    }

    pub fn sbb8(&mut self, subtractand: u8)
        ensures
            final(self)@ == old(self)@.sbb8(subtractand),
    {
        let borrow: u8 = if self.cc.cy { 1 } else { 0 };
        let result = self.a.wrapping_sub(subtractand).wrapping_sub(borrow);
        self.set_flags(result as u16);
        self.cc.cy = self.a < subtractand;
        self.a = result;
    }

    pub fn and8(&mut self, operand: u8)
        ensures
            final(self)@ == old(self)@.and8(operand),
    {
        let result = self.a & operand;
        self.set_flags(result as u16);
        self.a = result;
    }

    pub fn xor8(&mut self, operand: u8)
        ensures
            final(self)@ == old(self)@.xor8(operand),
    {
        let result = self.a ^ operand;
        self.set_flags(result as u16);
        self.a = result;
    }

    pub fn or8(&mut self, operand: u8)
        ensures
            final(self)@ == old(self)@.or8(operand),
    {
        let result = self.a | operand;
        self.set_flags(result as u16);
        self.a = result;
    }

    /// Sets the flags as `sub8` does and leaves the accumulator alone.
    pub fn cmp8(&mut self, operand: u8)
        ensures
            final(self)@ == old(self)@.compare8(operand),
    {
        let result = self.a.wrapping_sub(operand);
        self.set_flags(u16::from(result));
        self.cc.cy = self.a < operand;
    }

    /// Reads the two-byte target after the opcode and, if `predicate` holds
    /// of the state, redirects `pc` to it.
    pub fn jump_if(&mut self, predicate: impl Fn(&State) -> bool)
        requires
            call_requires(predicate, (&*old(self),)),
        ensures
            exists|taken: bool| #[trigger]
                call_ensures(predicate, (&*old(self),), taken) && final(self)@ == old(
                    self,
                )@.jump_if(taken),
    {
        let new_address = assemble_word(self.get_arg(2), self.get_arg(1));
        if predicate(self) {
            self.pc = new_address;
            self.jumped = true;
        }
    }

    /// As `jump_if`, after pushing the address of the next instruction.
    pub fn call_if(&mut self, predicate: impl Fn(&State) -> bool)
        requires
            call_requires(predicate, (&*old(self),)),
        ensures
            exists|taken: bool| #[trigger]
                call_ensures(predicate, (&*old(self),), taken) && final(self)@ == old(
                    self,
                )@.call_if(taken),
    {
        let new_address = assemble_word(self.get_arg(2), self.get_arg(1));
        if predicate(self) {
            let ret = self.pc.wrapping_add(3);
            self.push16(ret);
            self.pc = new_address;
            self.jumped = true;
        }
    }

    /// Pushes the address of the next instruction and redirects `pc` to
    /// `target`.
    pub fn rst_to(&mut self, target: u16)
        ensures
            final(self)@ == old(self)@.rst_to(target),
    {
        let ret = self.pc.wrapping_add(1);
        self.push16(ret);
        self.pc = target;
        self.jumped = true;
    }

    /// If `predicate` holds of the state, pops a word and redirects `pc`
    /// to it.
    pub fn ret_if(&mut self, predicate: impl Fn(&State) -> bool)
        requires
            call_requires(predicate, (&*old(self),)),
        ensures
            exists|taken: bool| #[trigger]
                call_ensures(predicate, (&*old(self),), taken) && final(self)@ == old(
                    self,
                )@.ret_if(taken),
    {
        if predicate(self) {
            self.pc = self.pop16();
            self.jumped = true;
        }
    }

    /// The `n` bytes from the top of the stack upward, the top first.
    pub fn stack_debug(&self, n: usize) -> (r: Vec<u8>)
        ensures
            r.len() == n,
            forall|i: int|
                0 <= i < n ==> r[i] == self@.byte_at(crate::bytes::wrap16(self.sp + i)),
    {
        let mut bytes: Vec<u8> = Vec::new();
        let mut i: usize = 0;
        while i < n
            invariant
                i <= n,
                bytes.len() == i,
                forall|j: int|
                    0 <= j < i ==> bytes[j] == self@.byte_at(crate::bytes::wrap16(self.sp + j)),
            decreases n - i,
        {
            let offset: u16 = (i % 65536) as u16;
            bytes.push(self.memory.get(self.sp.wrapping_add(offset)));
            i += 1;
        }
        bytes
    }

    /// Applies the operation that bits 3 to 5 of `opcode` select to the
    /// accumulator and `operand`.
    pub fn operate8(&mut self, opcode: u8, operand: u8)
        ensures
            final(self)@ == old(self)@.alu(opcode, operand),
    {
        proof {
            crate::opcode::lemma_fields(opcode);
        }
        match (opcode >> 3) & 0x07 {
            0x0 => self.add8(operand),
            0x1 => self.adc8(operand),
            0x2 => self.sub8(operand),
            0x3 => self.sbb8(operand),
            0x4 => self.and8(operand),
            0x5 => self.xor8(operand),
            0x6 => self.or8(operand),
            _ => self.cmp8(operand),
        }
    }
}

} // verus!
