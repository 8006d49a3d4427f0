//! The mathematical model of the machine: what a `State` is, and what each
//! primitive of the register, flag and stack model makes of it.

use vstd::prelude::*;
use crate::flags::Flags;
use crate::state::Snapshot;

verus! {

/// The machine as a value: registers, pointers, flags, memory and the
/// bookkeeping of the dispatcher.
pub struct Image {
    pub a: u8,
    pub b: u8,
    pub c: u8,
    pub d: u8,
    pub e: u8,
    pub h: u8,
    pub l: u8,
    pub sp: u16,
    pub pc: u16,
    pub cc: Flags,
    pub int_enable: bool,
    /// The byte at each address, address 0 first.
    pub mem: Seq<u8>,
    /// Whether the instruction just executed set `pc` itself.
    pub jumped: bool,
    /// The snapshots retained, the latest first.
    pub trace: Seq<Snapshot>,
}

impl Image {
    /// Memory holds one byte for each 16-bit address. The image of a
    /// `State` is well formed, because its `Memory` is.
    pub open spec fn wf(self) -> bool {
        self.mem.len() == 65536
    }

    /// The machine at power-on: every register, flag and byte zero, no trace.
    pub open spec fn power_on() -> Image {
        Image {
            a: 0,
            b: 0,
            c: 0,
            d: 0,
            e: 0,
            h: 0,
            l: 0,
            sp: 0,
            pc: 0,
            cc: Flags::cleared(),
            int_enable: false,
            mem: Seq::new(65536, |i: int| 0u8),
            jumped: false,
            trace: Seq::empty(),
        }
    }

    pub open spec fn snapshot(self) -> Snapshot {
        Snapshot {
            a: self.a,
            b: self.b,
            c: self.c,
            d: self.d,
            e: self.e,
            h: self.h,
            l: self.l,
            sp: self.sp,
            pc: self.pc,
        }
    }

    // Register pairs: the first register of a pair is its high byte.

    pub open spec fn bc(self) -> u16 {
        crate::bytes::word_of(self.b, self.c)
    }

    pub open spec fn de(self) -> u16 {
        crate::bytes::word_of(self.d, self.e)
    }

    pub open spec fn hl(self) -> u16 {
        crate::bytes::word_of(self.h, self.l)
    }

    pub open spec fn with_bc(self, value: u16) -> Image {
        Image { b: crate::bytes::high_of(value), c: crate::bytes::low_of(value), ..self }
    }

    pub open spec fn with_de(self, value: u16) -> Image {
        Image { d: crate::bytes::high_of(value), e: crate::bytes::low_of(value), ..self }
    }

    pub open spec fn with_hl(self, value: u16) -> Image {
        Image { h: crate::bytes::high_of(value), l: crate::bytes::low_of(value), ..self }
    }

    /// The 16-bit operand that the two-bit field `rp` selects: BC, DE, HL, SP.
    pub open spec fn pair(self, rp: int) -> u16 {
        if rp == 0 {
            self.bc()
        } else if rp == 1 {
            self.de()
        } else if rp == 2 {
            self.hl()
        } else {
            self.sp
        }
    }

    pub open spec fn with_pair(self, rp: int, value: u16) -> Image {
        if rp == 0 {
            self.with_bc(value)
        } else if rp == 1 {
            self.with_de(value)
        } else if rp == 2 {
            self.with_hl(value)
        } else {
            Image { sp: value, ..self }
        }
    }

    // Memory.

    pub open spec fn byte_at(self, addr: u16) -> u8 {
        self.mem[addr as int]
    }

    pub open spec fn with_byte(self, addr: u16, value: u8) -> Image {
        Image { mem: self.mem.update(addr as int, value), ..self }
    }

    /// The M operand: the byte that HL addresses.
    pub open spec fn m(self) -> u8 {
        self.byte_at(self.hl())
    }

    pub open spec fn with_m(self, value: u8) -> Image {
        self.with_byte(self.hl(), value)
    }

    // Instruction fetch.

    /// The byte `offset` places after the program counter; the address
    /// wraps from 0xffff to 0.
    pub open spec fn fetch(self, offset: u16) -> u8 {
        self.byte_at(self.pc.wrapping_add(offset))
    }

    /// The one-byte operand of the instruction at the program counter.
    pub open spec fn arg8(self) -> u8 {
        self.fetch(1)
    }

    /// The two-byte operand of the instruction at the program counter,
    /// stored low byte first.
    pub open spec fn arg16(self) -> u16 {
        crate::bytes::word_of(self.fetch(2), self.fetch(1))
    }

    // The eight operand slots of an opcode: B, C, D, E, H, L, M, A.

    pub open spec fn reg(self, slot: int) -> u8 {
        if slot == 0 {
            self.b
        } else if slot == 1 {
            self.c
        } else if slot == 2 {
            self.d
        } else if slot == 3 {
            self.e
        } else if slot == 4 {
            self.h
        } else if slot == 5 {
            self.l
        } else if slot == 6 {
            self.m()
        } else {
            self.a
        }
    }

    pub open spec fn with_reg(self, slot: int, value: u8) -> Image {
        if slot == 0 {
            Image { b: value, ..self }
        } else if slot == 1 {
            Image { c: value, ..self }
        } else if slot == 2 {
            Image { d: value, ..self }
        } else if slot == 3 {
            Image { e: value, ..self }
        } else if slot == 4 {
            Image { h: value, ..self }
        } else if slot == 5 {
            Image { l: value, ..self }
        } else if slot == 6 {
            self.with_m(value)
        } else {
            Image { a: value, ..self }
        }
    }

    // Flags.

    /// Z, S and P set from the result byte; CY and AC untouched.
    pub open spec fn with_zsp(self, result: u8) -> Image {
        Image { cc: self.cc.with_zsp(result), ..self }
    }

    /// Z, S and P set from the low byte of the widened result, CY from
    /// whether it went beyond eight bits.
    pub open spec fn with_flags(self, result: u16) -> Image {
        Image {
            cc: Flags { cy: result > 0xff, ..self.cc.with_zsp(crate::bytes::low_of(result)) },
            ..self
        }
    }

    // Arithmetic and logic on the accumulator.

    /// The accumulator and flags after an addition whose exact sum is `sum`.
    pub open spec fn summed(self, sum: int) -> Image {
        let result = crate::bytes::wrap8(sum);
        Image { a: result, cc: Flags { cy: sum > 0xff, ..self.cc.with_zsp(result) }, ..self }
    }

    /// The flags after a subtraction of `operand` whose exact difference,
    /// borrow included, is `diff`: carry is set when the accumulator was
    /// below the operand itself.
    pub open spec fn borrowed(self, operand: u8, diff: int) -> Flags {
        Flags { cy: self.a < operand, ..self.cc.with_zsp(crate::bytes::wrap8(diff)) }
    }

    /// The accumulator and flags after a logical operation that gave `result`.
    pub open spec fn combined(self, result: u8) -> Image {
        Image { a: result, cc: Flags { cy: false, ..self.cc.with_zsp(result) }, ..self }
    }

    pub open spec fn add8(self, addend: u8) -> Image {
        self.summed(self.a + addend)
    }

    pub open spec fn adc8(self, addend: u8) -> Image {
        self.summed(self.a + addend + crate::flags::bit(self.cc.cy))
    }

    pub open spec fn sub8(self, operand: u8) -> Image {
        Image {
            a: crate::bytes::wrap8(self.a - operand),
            cc: self.borrowed(operand, self.a - operand),
            ..self
        }
    }

    pub open spec fn sbb8(self, operand: u8) -> Image {
        let diff = self.a - operand - crate::flags::bit(self.cc.cy);
        Image { a: crate::bytes::wrap8(diff), cc: self.borrowed(operand, diff), ..self }
    }

    pub open spec fn and8(self, operand: u8) -> Image {
        self.combined(self.a & operand)
    }

    pub open spec fn xor8(self, operand: u8) -> Image {
        self.combined(self.a ^ operand)
    }

    pub open spec fn or8(self, operand: u8) -> Image {
        self.combined(self.a | operand)
    }

    /// A subtraction for the flags alone: the accumulator keeps its value.
    pub open spec fn compare8(self, operand: u8) -> Image {
        Image { cc: self.borrowed(operand, self.a - operand), ..self }
    }

    /// A comparison sets the flags exactly as the subtraction does and
    /// changes nothing else: it is the subtraction with the accumulator
    /// put back.
    pub proof fn lemma_compare_is_subtract(self, operand: u8)
        ensures
            self.compare8(operand).cc == self.sub8(operand).cc,
            self.compare8(operand).a == self.a,
            self.compare8(operand) == (Image { a: self.a, ..self.sub8(operand) }),
    {
    }

    /// HL plus `addend`, modulo 65536; CY says whether the sum went beyond
    /// sixteen bits. Z, S and P are untouched.
    pub open spec fn add16(self, addend: u16) -> Image {
        let sum = self.hl() + addend;
        Image { cc: Flags { cy: sum > 0xffff, ..self.cc }, ..self }.with_hl(
            crate::bytes::wrap16(sum),
        )
    }

    /// The operation that bits 3 to 5 of `opcode` select, applied to the
    /// accumulator and `operand`: ADD, ADC, SUB, SBB, ANA, XRA, ORA, CMP.
    pub open spec fn alu(self, opcode: u8, operand: u8) -> Image {
        let op = crate::opcode::mid_field(opcode);
        if op == 0 {
            self.add8(operand)
        } else if op == 1 {
            self.adc8(operand)
        } else if op == 2 {
            self.sub8(operand)
        } else if op == 3 {
            self.sbb8(operand)
        } else if op == 4 {
            self.and8(operand)
        } else if op == 5 {
            self.xor8(operand)
        } else if op == 6 {
            self.or8(operand)
        } else {
            self.compare8(operand)
        }
    }

    // The stack: it grows downward, and SP addresses its top byte.

    pub open spec fn push8(self, value: u8) -> Image {
        let top = self.sp.wrapping_sub(1);
        Image { sp: top, ..self.with_byte(top, value) }
    }

    pub open spec fn pop8(self) -> (u8, Image) {
        (self.byte_at(self.sp), Image { sp: self.sp.wrapping_add(1), ..self })
    }

    /// High byte first, so that the low byte ends at the lower address.
    pub open spec fn push16(self, value: u16) -> Image {
        self.push8(crate::bytes::high_of(value)).push8(crate::bytes::low_of(value))
    }

    pub open spec fn pop16(self) -> (u16, Image) {
        let (low, rest) = self.pop8();
        let (high, rest) = rest.pop8();
        (crate::bytes::word_of(high, low), rest)
    }

    /// A word pushed is the word popped next, and the pop puts the stack
    /// pointer back where it was before the push. This holds wherever the
    /// stack lies, also across the ends of memory.
    pub proof fn lemma_push_pop(self, value: u16)
        requires
            self.wf(),
        ensures
            self.push16(value).pop16().0 == value,
            self.push16(value).pop16().1.sp == self.sp,
            self.push16(value).pop16().1 == (Image { sp: self.sp, ..self.push16(value) }),
    {
        crate::bytes::lemma_word_bytes(0, 0, value);
    }

    // Control flow.

    /// `pc` set by the instruction itself, which the advance then leaves alone.
    pub open spec fn redirected(self, target: u16) -> Image {
        Image { pc: target, jumped: true, ..self }
    }

    pub open spec fn jump_if(self, taken: bool) -> Image {
        if taken {
            self.redirected(self.arg16())
        } else {
            self
        }
    }

    /// A taken call pushes the address of the instruction after its own
    /// three bytes.
    pub open spec fn call_if(self, taken: bool) -> Image {
        if taken {
            self.push16(self.pc.wrapping_add(3)).redirected(self.arg16())
        } else {
            self
        }
    }

    pub open spec fn ret_if(self, taken: bool) -> Image {
        if taken {
            let (target, rest) = self.pop16();
            rest.redirected(target)
        } else {
            self
        }
    }

    /// A restart pushes the address of the instruction after its own byte.
    pub open spec fn rst_to(self, target: u16) -> Image {
        self.push16(self.pc.wrapping_add(1)).redirected(target)
    }

    /// The end of an instruction: `pc` moves past it unless the instruction
    /// set `pc` itself, and the mark of that is cleared.
    pub open spec fn advance(self, opcode: u8) -> Image {
        Image {
            pc: if self.jumped {
                self.pc
            } else {
                self.pc.wrapping_add(crate::opcode::length_of(opcode))
            },
            jumped: false,
            ..self
        }
    }
}

} // verus!
