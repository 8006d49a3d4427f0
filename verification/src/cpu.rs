//! The dispatcher: decoding an opcode and carrying out its instruction,
//! and the delivery of interrupts.

use vstd::prelude::*;
use crate::bytes::{assemble_word, high_order_byte, low_order_byte};
use crate::flags::Flags;
use crate::image::Image;
use crate::machine::Machine;
use crate::opcode::opcode_timing;
use crate::program::Program;
use crate::stack::Stack;
use crate::state::State;

verus! {

/// How many snapshots the execution trace retains.
pub const TRACE_CAPACITY: usize = 50;

/// The last address at which code is expected, unless the host says otherwise.
pub const CODE_REGION_END: u16 = 0x2000;

/// Why an instruction was not executed.
#[derive(PartialEq, Eq, Structural, Debug, Clone, Copy)]
pub enum Fault {
    /// The opcode at `pc` has no modelled behaviour.
    Unimplemented { opcode: u8, pc: u16 },
    /// `pc` has left the region in which code is expected.
    PcEscape { pc: u16 },
}

/// What an instruction of the control group does to the host: OUT writes
/// the accumulator to the port that its operand names, IN reads that port
/// and gets `input`, and every other instruction leaves the host alone.
pub open spec fn host_step<M: Machine>(
    before: &M,
    image: Image,
    opcode: u8,
    input: u8,
    after: &M,
) -> bool {
    if crate::opcode::low_field(opcode) == 3 && crate::opcode::mid_field(opcode) == 2 {
        before.written(image.arg8(), image.a, after)
    } else if crate::opcode::low_field(opcode) == 3 && crate::opcode::mid_field(opcode) == 3 {
        before.answered(image.arg8(), input, after)
    } else {
        *before == *after
    }
}

impl Image {
    // Opcodes 0x00 to 0x3f.

    /// Stores and loads of the accumulator and of HL, by the field `mid`:
    /// STAX B, LDAX B, STAX D, LDAX D, SHLD, LHLD, STA, LDA.
    pub open spec fn transfer(self, mid: int) -> Image {
        let direct = self.arg16();
        let next = direct.wrapping_add(1);
        if mid == 0 {
            self.with_byte(self.bc(), self.a)
        } else if mid == 1 {
            Image { a: self.byte_at(self.bc()), ..self }
        } else if mid == 2 {
            self.with_byte(self.de(), self.a)
        } else if mid == 3 {
            Image { a: self.byte_at(self.de()), ..self }
        } else if mid == 4 {
            self.with_byte(direct, self.l).with_byte(next, self.h)
        } else if mid == 5 {
            Image { l: self.byte_at(direct), h: self.byte_at(next), ..self }
        } else if mid == 6 {
            self.with_byte(direct, self.a)
        } else {
            Image { a: self.byte_at(direct), ..self }
        }
    }

    /// Decimal adjust: six is added to a low digit above nine, and then,
    /// by an ordinary addition that sets the flags, 0x60 to a high digit
    /// above nine. Auxiliary carry plays no part.
    pub open spec fn daa(self) -> Image {
        let low_adjusted = if self.a % 16 > 9 {
            Image { a: self.a.wrapping_add(6), ..self }
        } else {
            self
        };
        if low_adjusted.a / 16 > 9 {
            low_adjusted.add8(0x60)
        } else {
            low_adjusted
        }
    }

    /// The operations on the accumulator and the carry, by the field
    /// `mid`: RLC, RRC, RAL, RAR, DAA, CMA, STC, CMC. A rotation moves
    /// every bit of the accumulator one place and puts the bit that falls
    /// out into CY; RLC and RRC bring that bit in again at the other end,
    /// RAL and RAR bring in the old CY.
    pub open spec fn accumulator_op(self, mid: int) -> Image {
        let a = self.a;
        let carry = crate::flags::bit(self.cc.cy);
        if mid == 0 {
            Image {
                a: ((2 * a) % 256 + a / 128) as u8,
                cc: Flags { cy: a >= 128, ..self.cc },
                ..self
            }
        } else if mid == 1 {
            Image {
                a: (a / 2 + 128 * (a % 2)) as u8,
                cc: Flags { cy: a % 2 == 1, ..self.cc },
                ..self
            }
        } else if mid == 2 {
            Image {
                a: ((2 * a) % 256 + carry) as u8,
                cc: Flags { cy: a >= 128, ..self.cc },
                ..self
            }
        } else if mid == 3 {
            Image {
                a: (a / 2 + 128 * carry) as u8,
                cc: Flags { cy: a % 2 == 1, ..self.cc },
                ..self
            }
        } else if mid == 4 {
            self.daa()
        } else if mid == 5 {
            Image { a: (255 - a) as u8, ..self }
        } else if mid == 6 {
            Image { cc: Flags { cy: true, ..self.cc }, ..self }
        } else {
            Image { cc: Flags { cy: !self.cc.cy, ..self.cc }, ..self }
        }
    }

    /// The instruction of opcodes 0x00 to 0x3f with the fields `low` and
    /// `mid`. The low field gives its kind and the middle field its
    /// register or register pair; where two kinds share a low field, the
    /// low bit of the middle field tells them apart.
    pub open spec fn group0_at(self, low: int, mid: int) -> Image {
        let rp = crate::opcode::pair_field(mid);
        let second = crate::opcode::odd_field(mid);
        if low == 0 {
            self  // NOP
        } else if low == 1 {
            if !second {
                self.with_pair(rp, self.arg16())  // LXI
            } else {
                self.add16(self.pair(rp))  // DAD
            }
        } else if low == 2 {
            self.transfer(mid)
        } else if low == 3 {
            if !second {
                self.with_pair(rp, self.pair(rp).wrapping_add(1))  // INX
            } else {
                self.with_pair(rp, self.pair(rp).wrapping_sub(1))  // DCX
            }
        } else if low == 4 {
            let value = self.reg(mid).wrapping_add(1);
            self.with_reg(mid, value).with_zsp(value)  // INR
        } else if low == 5 {
            let value = self.reg(mid).wrapping_sub(1);
            self.with_reg(mid, value).with_zsp(value)  // DCR
        } else if low == 6 {
            self.with_reg(mid, self.arg8())  // MVI
        } else {
            self.accumulator_op(mid)
        }
    }

    /// The instruction that the low six bits of `opcode` select.
    pub open spec fn group0(self, opcode: u8) -> Image {
        self.group0_at(crate::opcode::low_field(opcode), crate::opcode::mid_field(opcode))
    }

    // Opcodes 0xc0 to 0xff.

    /// POP PSW: the flags come off the stack first, then the accumulator.
    pub open spec fn pop_psw(self) -> Image {
        let (status, rest) = self.pop8();
        let (accumulator, rest) = rest.pop8();
        Image { a: accumulator, cc: Flags::from_psw(status), ..rest }
    }

    /// PUSH PSW: the accumulator goes on the stack first, then the flags.
    pub open spec fn push_psw(self) -> Image {
        self.push8(self.a).push8(self.cc.psw())
    }

    /// XTHL: L changes places with the byte on top of the stack, H with
    /// the byte above it.
    pub open spec fn xthl(self) -> Image {
        let above = self.sp.wrapping_add(1);
        Image {
            l: self.byte_at(self.sp),
            h: self.byte_at(above),
            mem: self.mem.update(self.sp as int, self.l).update(above as int, self.h),
            ..self
        }
    }

    /// The instruction of the control group that the low and middle fields
    /// of `opcode` select; `input` is what the host answers to IN.
    pub open spec fn group3(self, opcode: u8, input: u8) -> Image {
        let low = crate::opcode::low_field(opcode);
        let mid = crate::opcode::mid_field(opcode);
        let condition = crate::state::Condition::of_field(mid).holds(self.cc);
        if low == 0 {
            self.ret_if(condition)
        } else if low == 1 {
            if mid == 1 || mid == 3 {
                self.ret_if(true)  // RET
            } else if mid == 5 {
                self.redirected(self.hl())  // PCHL
            } else if mid == 6 {
                self.pop_psw()
            } else if mid == 7 {
                Image { sp: self.hl(), ..self }  // SPHL
            } else {
                let (word, rest) = self.pop16();
                rest.with_pair(crate::opcode::pair_field(mid), word)  // POP
            }
        } else if low == 2 {
            self.jump_if(condition)
        } else if low == 3 {
            if mid < 2 {
                self.jump_if(true)  // JMP
            } else if mid == 2 {
                self  // OUT
            } else if mid == 3 {
                Image { a: input, ..self }  // IN
            } else if mid == 4 {
                self.xthl()
            } else if mid == 5 {
                Image { d: self.h, e: self.l, h: self.d, l: self.e, ..self }  // XCHG
            } else {
                Image { int_enable: mid == 7, ..self }  // DI, EI
            }
        } else if low == 4 {
            self.call_if(condition)
        } else if low == 5 {
            if crate::opcode::odd_field(mid) {
                self.call_if(true)  // CALL
            } else if mid == 6 {
                self.push_psw()
            } else {
                self.push16(self.pair(crate::opcode::pair_field(mid)))  // PUSH
            }
        } else if low == 6 {
            self.alu(opcode, self.arg8())
        } else {
            self.rst_to((8 * mid) as u16)  // RST
        }
    }

    // Whole instructions.

    /// The image with a snapshot of itself put in front of the trace, and
    /// the trace cut to its capacity.
    pub open spec fn recorded(self) -> Image {
        let all = seq![self.snapshot()] + self.trace;
        Image {
            trace: if all.len() > TRACE_CAPACITY {
                all.subrange(0, TRACE_CAPACITY as int)
            } else {
                all
            },
            ..self
        }
    }

    /// Why the instruction at `pc` cannot be executed, if it cannot: `pc`
    /// lies beyond `bound`, or the opcode is HLT.
    pub open spec fn fault(self, bound: u16) -> Option<Fault> {
        if self.pc > bound {
            Some(Fault::PcEscape { pc: self.pc })
        } else if self.fetch(0) == 0x76 {
            Some(Fault::Unimplemented { opcode: 0x76, pc: self.pc })
        } else {
            None
        }
    }

    /// What the instruction with this opcode does, by the group that its
    /// two high bits select.
    pub open spec fn execute(self, opcode: u8, input: u8) -> Image {
        if opcode < 0x40 {
            self.group0(opcode)
        } else if opcode < 0x80 {
            self.with_reg(
                crate::opcode::mid_field(opcode),
                self.reg(crate::opcode::low_field(opcode)),
            )  // MOV
        } else if opcode < 0xc0 {
            self.alu(opcode, self.reg(crate::opcode::low_field(opcode)))
        } else {
            self.group3(opcode, input)
        }
    }

    /// One step of the machine: the instruction at `pc` is recorded in the
    /// trace and executed, and `pc` moves on.
    pub open spec fn step(self, input: u8) -> Image {
        let opcode = self.fetch(0);
        self.recorded().execute(opcode, input).advance(opcode)
    }

    /// RST n goes to address 8·n: after a step from an image whose opcode
    /// is the restart with number `n`, `pc` is 8·n.
    pub proof fn lemma_restart_vector(self, n: int, input: u8)
        requires
            0 <= n < 8,
            self.fetch(0) == 0xc7 + 8 * n,
        ensures
            self.step(input).pc == 8 * n,
    {
    }

    /// An immediate operation does to the accumulator and to Z, S, P and
    /// CY what its register form does: a step of the immediate form with
    /// the byte `v` after the opcode, and a step of the register form with
    /// a register, or the M operand, that holds `v`, give the same
    /// accumulator and the same four flags, if they start from the same
    /// accumulator and, where the operation reads the carry, from the
    /// same carry. `op` numbers the operation, ADD first, so that for `op`
    /// 0 this is ADI against ADD; `slot` names the register operand.
    pub proof fn lemma_immediate_is_register_operation(
        self,
        other: Image,
        op: int,
        slot: int,
        input: u8,
    )
        requires
            0 <= op < 8,
            0 <= slot < 8,
            self.fetch(0) == 0xc6 + 8 * op,
            other.fetch(0) == 0x80 + 8 * op + slot,
            other.reg(slot) == self.arg8(),
            other.a == self.a,
            op == 1 || op == 3 ==> other.cc.cy == self.cc.cy,
        ensures
            self.step(input).a == other.step(input).a,
            self.step(input).cc.z == other.step(input).cc.z,
            self.step(input).cc.s == other.step(input).cc.s,
            self.step(input).cc.p == other.step(input).cc.p,
            self.step(input).cc.cy == other.step(input).cc.cy,
    {
        let immediate = self.fetch(0);
        let register = other.fetch(0);
        assert(immediate / 8 == 24 + op && immediate % 8 == 6);
        assert(register / 8 == 16 + op && register % 8 == slot);
        assert(self.recorded().execute(immediate, input) == self.recorded().alu(
            immediate,
            self.arg8(),
        ));
        assert(other.recorded().execute(register, input) == other.recorded().alu(
            register,
            other.reg(slot),
        ));
    }

    /// The delivery of interrupt `n`: the current `pc` is pushed, `pc`
    /// becomes 8·n modulo 65536, and interrupts are disabled.
    pub open spec fn interrupt(self, n: u16) -> Image {
        Image { pc: n.wrapping_mul(8), int_enable: false, ..self.push16(self.pc) }
    }
}

/// A rotation to the left, in arithmetic: every bit moves up one place and
/// bit 7 comes in at bit 0.
proof fn lemma_rotate_left(x: u8)
    by (bit_vector)
    ensures
        (x << 1) | (x >> 7) == (2 * x) % 256 + x / 128,
{
}

/// A rotation to the right, in arithmetic: every bit moves down one place
/// and bit 0 comes in at bit 7.
proof fn lemma_rotate_right(x: u8)
    by (bit_vector)
    ensures
        (x >> 1) | (x << 7) == x / 2 + 128 * (x % 2),
{
}

/// A rotation to the left through the carry, whose bit is `carry`.
proof fn lemma_rotate_left_through(x: u8, carry: u8)
    by (bit_vector)
    requires
        carry < 2,
    ensures
        carry | (x << 1) == (2 * x) % 256 + carry,
{
}

/// A rotation to the right through the carry, whose bit is `carry`.
proof fn lemma_rotate_right_through(x: u8, carry: u8)
    by (bit_vector)
    requires
        carry < 2,
    ensures
        (carry << 7) | (x >> 1) == x / 2 + 128 * carry,
{
}

/// What the masks of the accumulator instructions test, in arithmetic.
proof fn lemma_accumulator_bits(x: u8)
    by (bit_vector)
    ensures
        (x & 0x80 != 0) == (x >= 128),
        (x & 0x01 == 1) == (x % 2 == 1),
        !x == (255 - x) as u8,
        ((x & 0x0f) > 9) == (x % 16 > 9),
        ((x & 0xf0) > 0x90) == (x / 16 > 9),
{
}

/// Executes the instruction that the low six bits of `opcode` select: the
/// loads, stores, increments, rotations and the other instructions of
/// opcodes 0x00 to 0x3f.
#[verifier::rlimit(100)]
pub fn emulate_group0(opcode: u8, s: &mut State)
    ensures
        final(s)@ == old(s)@.group0(opcode),
{
    proof {
        crate::opcode::lemma_fields(opcode);
    }
    match opcode & 0x3f {
        0x00 => (),  // NOP
        0x01 => {
            // LXI B,word
            let word = s.get_arg16();
            s.set_bc(word);
        },
        0x02 => {
            // STAX B
            let address = s.get_bc();
            let value = s.a;
            s.memory.set(address, value);
        },
        0x03 => {
            // INX B
            let word = s.get_bc().wrapping_add(1);
            s.set_bc(word);
        },
        0x04 => {
            // INR B
            s.b = s.b.wrapping_add(1);
            let value = s.b;
            s.set_flags_no_carry(value);
        },
        0x05 => {
            // DCR B
            s.b = s.b.wrapping_sub(1);
            let value = s.b;
            s.set_flags_no_carry(value);
        },
        0x06 => {
            // MVI B,byte
            s.b = s.get_arg8();
        },
        0x07 => {
            // RLC
            let x = s.a;
            proof {
                lemma_rotate_left(x);
                lemma_accumulator_bits(x);
            }
            s.a = (x << 1) | (x >> 7);
            s.cc.cy = (x & 0x80) != 0;
        },
        0x08 => (),  // NOP
        0x09 => {
            // DAD B
            let word = s.get_bc();
            s.add16(word);
        },
        0x0a => {
            // LDAX B
            let address = s.get_bc();
            s.a = s.memory.get(address);
        },
        0x0b => {
            // DCX B
            let word = s.get_bc().wrapping_sub(1);
            s.set_bc(word);
        },
        0x0c => {
            // INR C
            s.c = s.c.wrapping_add(1);
            let value = s.c;
            s.set_flags_no_carry(value);
        },
        0x0d => {
            // DCR C
            s.c = s.c.wrapping_sub(1);
            let value = s.c;
            s.set_flags_no_carry(value);
        },
        0x0e => {
            // MVI C,byte
            s.c = s.get_arg8();
        },
        0x0f => {
            // RRC
            let x = s.a;
            proof {
                lemma_rotate_right(x);
                lemma_accumulator_bits(x);
            }
            s.a = (x >> 1) | (x << 7);
            s.cc.cy = (x & 0x01) == 1;
        },
        0x10 => (),  // NOP
        0x11 => {
            // LXI D,word
            let word = s.get_arg16();
            s.set_de(word);
        },
        0x12 => {
            // STAX D
            let address = s.get_de();
            let value = s.a;
            s.memory.set(address, value);
        },
        0x13 => {
            // INX D
            let word = s.get_de().wrapping_add(1);
            s.set_de(word);
        },
        0x14 => {
            // INR D
            s.d = s.d.wrapping_add(1);
            let value = s.d;
            s.set_flags_no_carry(value);
        },
        0x15 => {
            // DCR D
            s.d = s.d.wrapping_sub(1);
            let value = s.d;
            s.set_flags_no_carry(value);
        },
        0x16 => {
            // MVI D,byte
            s.d = s.get_arg8();
        },
        0x17 => {
            // RAL
            let x = s.a;
            let carry: u8 = if s.cc.cy { 1 } else { 0 };
            proof {
                lemma_rotate_left_through(x, carry);
                lemma_accumulator_bits(x);
            }
            s.a = carry | (x << 1);
            s.cc.cy = (x & 0x80) != 0;
        },
        0x18 => (),  // NOP
        0x19 => {
            // DAD D
            let word = s.get_de();
            s.add16(word);
        },
        0x1a => {
            // LDAX D
            let address = s.get_de();
            s.a = s.memory.get(address);
        },
        0x1b => {
            // DCX D
            let word = s.get_de().wrapping_sub(1);
            s.set_de(word);
        },
        0x1c => {
            // INR E
            s.e = s.e.wrapping_add(1);
            let value = s.e;
            s.set_flags_no_carry(value);
        },
        0x1d => {
            // DCR E
            s.e = s.e.wrapping_sub(1);
            let value = s.e;
            s.set_flags_no_carry(value);
        },
        0x1e => {
            // MVI E,byte
            s.e = s.get_arg8();
        },
        0x1f => {
            // RAR
            let x = s.a;
            let carry: u8 = if s.cc.cy { 1 } else { 0 };
            proof {
                lemma_rotate_right_through(x, carry);
                lemma_accumulator_bits(x);
            }
            s.a = (carry << 7) | (x >> 1);
            s.cc.cy = (x & 0x01) == 1;
        },
        0x20 => (),  // NOP
        0x21 => {
            // LXI H,word
            let word = s.get_arg16();
            s.set_hl(word);
        },
        0x22 => {
            // SHLD a16
            let address = s.get_arg16();
            let l = s.l;
            let h = s.h;
            s.memory.set(address, l);
            s.memory.set(address.wrapping_add(1), h);
        },
        0x23 => {
            // INX H
            let word = s.get_hl_address().wrapping_add(1);
            s.set_hl(word);
        },
        0x24 => {
            // INR H
            s.h = s.h.wrapping_add(1);
            let value = s.h;
            s.set_flags_no_carry(value);
        },
        0x25 => {
            // DCR H
            s.h = s.h.wrapping_sub(1);
            let value = s.h;
            s.set_flags_no_carry(value);
        },
        0x26 => {
            // MVI H,byte
            s.h = s.get_arg8();
        },
        0x27 => {
            // DAA
            let x = s.a;
            proof {
                lemma_accumulator_bits(x);
            }
            if (x & 0x0f) > 9 {
                s.a = x.wrapping_add(6);
            }
            let y = s.a;
            proof {
                lemma_accumulator_bits(y);
            }
            if (y & 0xf0) > 0x90 {
                s.add8(0x60);
            }
        },
        0x28 => (),  // NOP
        0x29 => {
            // DAD H
            let word = s.get_hl_address();
            s.add16(word);
        },
        0x2a => {
            // LHLD a16
            let address = s.get_arg16();
            s.l = s.memory.get(address);
            s.h = s.memory.get(address.wrapping_add(1));
        },
        0x2b => {
            // DCX H
            let word = s.get_hl_address().wrapping_sub(1);
            s.set_hl(word);
        },
        0x2c => {
            // INR L
            s.l = s.l.wrapping_add(1);
            let value = s.l;
            s.set_flags_no_carry(value);
        },
        0x2d => {
            // DCR L
            s.l = s.l.wrapping_sub(1);
            let value = s.l;
            s.set_flags_no_carry(value);
        },
        0x2e => {
            // MVI L,byte
            s.l = s.get_arg8();
        },
        0x2f => {
            // CMA
            proof {
                lemma_accumulator_bits(s.a);
            }
            s.a = !s.a;
        },
        0x30 => (),  // NOP
        0x31 => {
            // LXI SP,word
            s.sp = s.get_arg16();
        },
        0x32 => {
            // STA a16
            let address = s.get_arg16();
            let value = s.a;
            s.memory.set(address, value);
        },
        0x33 => {
            // INX SP
            s.sp = s.sp.wrapping_add(1);
        },
        0x34 => {
            // INR M
            let new_value = s.get_m().wrapping_add(1);
            s.set_flags_no_carry(new_value);
            s.set_m(new_value);
        },
        0x35 => {
            // DCR M
            let new_value = s.get_m().wrapping_sub(1);
            s.set_flags_no_carry(new_value);
            s.set_m(new_value);
        },
        0x36 => {
            // MVI M,byte
            let value = s.get_arg8();
            s.set_m(value);
        },
        0x37 => {
            // STC
            s.cc.cy = true;
        },
        0x38 => (),  // NOP
        0x39 => {
            // DAD SP
            let word = s.sp;
            s.add16(word);
        },
        0x3a => {
            // LDA a16
            let address = s.get_arg16();
            s.a = s.memory.get(address);
        },
        0x3b => {
            // DCX SP
            s.sp = s.sp.wrapping_sub(1);
        },
        0x3c => {
            // INR A
            s.a = s.a.wrapping_add(1);
            let value = s.a;
            s.set_flags_no_carry(value);
        },
        0x3d => {
            // DCR A
            s.a = s.a.wrapping_sub(1);
            let value = s.a;
            s.set_flags_no_carry(value);
        },
        0x3e => {
            // MVI A,byte
            s.a = s.get_arg8();
        },
        _ => {
            // CMC
            s.cc.cy = !s.cc.cy;
        },
    }
}

/// Executes the instruction of the control group that the low and middle
/// fields of `opcode` select: returns, jumps and calls, the stack
/// instructions, the exchanges, immediate arithmetic, restarts and port
/// I/O. OUT hands the accumulator to the host and IN takes the
/// accumulator from it; no other instruction touches the host.
pub fn emulate_group3<M: Machine>(opcode: u8, s: &mut State, m: &mut M)
    ensures
        exists|input: u8|
            final(s)@ == #[trigger] old(s)@.group3(opcode, input) && host_step(
                old(m),
                old(s)@,
                opcode,
                input,
                final(m),
            ),
{
    let ghost mut input: u8 = 0;
    proof {
        crate::opcode::lemma_fields(opcode);
        use_type_invariant(&s.memory);
    }
    match opcode & 0x7 {
        0x0 => {
            let condition = State::predicate_for(opcode);
            let holds = |state: &State| -> (taken: bool)
                ensures
                    taken == condition.holds(state.cc),
                {
                    condition.evaluate(&state.cc)
                };
            s.ret_if(holds);
        },
        0x1 => match (opcode >> 3) & 0x7 {
            0x0 => {
                // POP B
                let val = s.pop16();
                s.set_bc(val);
            },
            0x1 => {
                // RET
                s.ret_if(State::unconditionally);
            },
            0x2 => {
                // POP D
                let new_de = s.pop16();
                s.set_de(new_de);
            },
            0x3 => {
                // RET
                s.ret_if(State::unconditionally);
            },
            0x4 => {
                // POP H
                let new_hl = s.pop16();
                s.set_hl(new_hl);
            },
            0x5 => {
                // PCHL
                s.pc = s.get_hl_address();
                s.jumped = true;
            },
            0x6 => {
                // POP PSW
                let word = s.pop16();
                proof {
                    crate::bytes::lemma_word_bytes(
                        crate::bytes::high_of(word),
                        crate::bytes::low_of(word),
                        word,
                    );
                }
                s.a = high_order_byte(word);
                s.cc.deserialize(low_order_byte(word));
            },
            _ => {
                // SPHL
                s.sp = s.get_hl_address();
            },
        },
        0x2 => {
            let condition = State::predicate_for(opcode);
            let holds = |state: &State| -> (taken: bool)
                ensures
                    taken == condition.holds(state.cc),
                {
                    condition.evaluate(&state.cc)
                };
            s.jump_if(holds);
        },
        0x3 => match (opcode >> 3) & 0x7 {
            0x0 => {
                // JMP a16
                s.jump_if(State::unconditionally);
            },
            0x1 => {
                // JMP a16
                s.jump_if(State::unconditionally);
            },
            0x2 => {
                // OUT byte
                let port = s.get_arg(1);
                m.output(port, s.a);
            },
            0x3 => {
                // IN byte
                let port = s.get_arg(1);
                let value = m.input(port);
                s.a = value;
                proof {
                    input = value;
                }
            },
            0x4 => {
                // XTHL
                let new_hl = s.pop16();
                let old_hl = s.get_hl_address();
                s.push16(old_hl);
                s.set_hl(new_hl);
                assert(s@.mem =~= old(s)@.xthl().mem);
            },
            0x5 => {
                // XCHG
                let d = s.d;
                let h = s.h;
                s.d = h;
                s.h = d;

                let e = s.e;
                let l = s.l;
                s.e = l;
                s.l = e;
            },
            0x6 => {
                // DI
                s.int_enable = false;
            },
            _ => {
                // EI
                s.int_enable = true;
            },
        },
        0x4 => {
            let condition = State::predicate_for(opcode);
            let holds = |state: &State| -> (taken: bool)
                ensures
                    taken == condition.holds(state.cc),
                {
                    condition.evaluate(&state.cc)
                };
            s.call_if(holds);
        },
        0x5 => match (opcode >> 3) & 0x7 {
            0x0 => {
                // PUSH B
                let word = s.get_bc();
                s.push16(word);
            },
            0x1 => {
                // CALL a16
                s.call_if(State::unconditionally);
            },
            0x2 => {
                // PUSH D
                let word = s.get_de();
                s.push16(word);
            },
            0x3 => {
                // CALL a16
                s.call_if(State::unconditionally);
            },
            0x4 => {
                // PUSH H
                let word = s.get_hl_address();
                s.push16(word);
            },
            0x5 => {
                // CALL a16
                s.call_if(State::unconditionally);
            },
            0x6 => {
                // PUSH PSW
                let word = assemble_word(s.a, s.cc.serialize());
                proof {
                    crate::bytes::lemma_word_bytes(s.a, s.cc.psw(), 0);
                }
                s.push16(word);
            },
            _ => {
                // CALL a16
                s.call_if(State::unconditionally);
            },
        },
        0x6 => {
            let operand = s.get_arg8();
            s.operate8(opcode, operand);
        },
        _ => {
            // RST n
            s.rst_to((opcode & 0x38) as u16);
        },
    }
    assert(s@ == old(s)@.group3(opcode, input));
}

/// Executes the instruction at `pc`, unless `pc` lies beyond `bound` or
/// the opcode is HLT, and returns the cycles it is charged. The state is
/// entered in the trace first, also where the instruction is refused.
pub fn emulate_instruction_within<M: Machine>(s: &mut State, m: &mut M, bound: u16) -> (r: Result<
    usize,
    Fault,
>)
    ensures
        match old(s)@.fault(bound) {
            Some(fault) => r == Err::<usize, Fault>(fault) && final(s)@ == old(s)@.recorded()
                && *final(m) == *old(m),
            None => r == Ok::<usize, Fault>(crate::opcode::cycles_of(old(s)@.fetch(0)))
                && exists|input: u8|
                final(s)@ == #[trigger] old(s)@.step(input) && if old(s)@.fetch(0) >= 0xc0 {
                    host_step(old(m), old(s)@, old(s)@.fetch(0), input, final(m))
                } else {
                    *final(m) == *old(m)
                },
        },
{
    let opcode = s.get_opcode();

    let snap = s.snapshot();
    s.trace_history.push_front(snap);
    s.trace_history.truncate(TRACE_CAPACITY);
    assert(s@.trace =~= old(s)@.recorded().trace);

    if s.pc > bound {
        return Err(Fault::PcEscape { pc: s.pc });
    }
    let ghost mut input: u8 = 0;
    match opcode {
        0x00..=0x3f => emulate_group0(opcode, s),
        0x76 => {
            return Err(Fault::Unimplemented { opcode, pc: s.pc });  // HLT
        },
        0x40..=0x7f => {
            let value = s.get_operand(opcode);
            s.set_register(opcode, value);
        },
        0x80..=0xbf => {
            let value = s.get_operand(opcode);
            s.operate8(opcode, value);
        },
        _ => {
            let ghost before = s@;
            emulate_group3(opcode, s, m);
            proof {
                input = choose|input: u8|
                    s@ == #[trigger] before.group3(opcode, input) && host_step(
                        old(m),
                        before,
                        opcode,
                        input,
                        m,
                    );
            }
        },
    }

    s.advance(opcode);
    assert(s@ == old(s)@.step(input));
    Ok(opcode_timing(opcode))
}

/// Executes the instruction at `pc` as `emulate_instruction_within` does,
/// with code expected up to `CODE_REGION_END`.
pub fn emulate_instruction<M: Machine>(s: &mut State, m: &mut M) -> (r: Result<usize, Fault>)
    ensures
        match old(s)@.fault(CODE_REGION_END) {
            Some(fault) => r == Err::<usize, Fault>(fault) && final(s)@ == old(s)@.recorded()
                && *final(m) == *old(m),
            None => r == Ok::<usize, Fault>(crate::opcode::cycles_of(old(s)@.fetch(0)))
                && exists|input: u8|
                final(s)@ == #[trigger] old(s)@.step(input) && if old(s)@.fetch(0) >= 0xc0 {
                    host_step(old(m), old(s)@, old(s)@.fetch(0), input, final(m))
                } else {
                    *final(m) == *old(m)
                },
        },
{
    emulate_instruction_within(s, m, CODE_REGION_END)
}

/// Delivers interrupt `n`. The host calls this between instructions, and
/// only while interrupts are enabled: that is not tested here.
pub fn trigger_interrupt(s: &mut State, n: u16)
    ensures
        final(s)@ == old(s)@.interrupt(n),
{
    let pc = s.pc;
    s.push16(pc);
    s.pc = n.wrapping_mul(0x08);
    s.int_enable = false;
}

} // verus!
