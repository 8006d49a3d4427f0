//! The bit fields of an opcode, and the length and duration of each
//! instruction.

use vstd::prelude::*;

verus! {

/// Bits 0 to 2 of an opcode: the operand slot, or the kind of instruction
/// within its group.
pub open spec fn low_field(opcode: u8) -> int {
    (opcode % 8) as int
}

/// Bits 3 to 5 of an opcode: the destination slot, the operation or the
/// condition.
pub open spec fn mid_field(opcode: u8) -> int {
    ((opcode / 8) % 8) as int
}

/// Bits 1 and 2 of a middle field, a number from 0 to 3: the register
/// pair BC, DE, HL or SP.
pub open spec fn pair_field(mid: int) -> int {
    if mid < 2 {
        0
    } else if mid < 4 {
        1
    } else if mid < 6 {
        2
    } else {
        3
    }
}

/// Bit 0 of a middle field: it tells the two instructions of one kind apart.
pub open spec fn odd_field(mid: int) -> bool {
    mid == 1 || mid == 3 || mid == 5 || mid == 7
}

/// Masks and shifts read the fields that `low_field` and `mid_field` name.
pub proof fn lemma_fields(opcode: u8)
    by (bit_vector)
    ensures
        opcode & 0x07 == opcode % 8,
        (opcode >> 3) & 0x07 == (opcode / 8) % 8,
        (opcode & 0x3f) % 8 == opcode % 8,
        (opcode & 0x3f) / 8 == (opcode / 8) % 8,
        opcode & 0x38 == ((opcode / 8) % 8) * 8,
{
}

/// How many bytes the instruction with this opcode takes.
pub open spec fn length_of(opcode: u8) -> u16 {
    let low = low_field(opcode);
    let mid = mid_field(opcode);
    if opcode < 0x40 {
        if low == 1 && !odd_field(mid) {
            3  // LXI
        } else if low == 2 && mid >= 4 {
            3  // SHLD, LHLD, STA, LDA
        } else if low == 6 {
            2  // MVI
        } else {
            1
        }
    } else if opcode < 0xc0 {
        1
    } else if low == 2 || low == 4 {
        3  // conditional jump and call
    } else if low == 3 {
        if mid < 2 {
            3  // JMP
        } else if mid < 4 {
            2  // OUT, IN
        } else {
            1
        }
    } else if low == 5 {
        if odd_field(mid) {
            3  // CALL
        } else {
            1  // PUSH
        }
    } else if low == 6 {
        2  // immediate arithmetic
    } else {
        1
    }
}

pub const INSTRUCTION_LENGTH: [u16; 256] = [
    1, 3, 1, 1, 1, 1, 2, 1, 1, 1, 1, 1, 1, 1, 2, 1,
    1, 3, 1, 1, 1, 1, 2, 1, 1, 1, 1, 1, 1, 1, 2, 1,
    1, 3, 3, 1, 1, 1, 2, 1, 1, 1, 3, 1, 1, 1, 2, 1,
    1, 3, 3, 1, 1, 1, 2, 1, 1, 1, 3, 1, 1, 1, 2, 1,
    1, 1, 1, 1, 1, 1, 1, 1, 1, 1, 1, 1, 1, 1, 1, 1,
    1, 1, 1, 1, 1, 1, 1, 1, 1, 1, 1, 1, 1, 1, 1, 1,
    1, 1, 1, 1, 1, 1, 1, 1, 1, 1, 1, 1, 1, 1, 1, 1,
    1, 1, 1, 1, 1, 1, 1, 1, 1, 1, 1, 1, 1, 1, 1, 1,
    1, 1, 1, 1, 1, 1, 1, 1, 1, 1, 1, 1, 1, 1, 1, 1,
    1, 1, 1, 1, 1, 1, 1, 1, 1, 1, 1, 1, 1, 1, 1, 1,
    1, 1, 1, 1, 1, 1, 1, 1, 1, 1, 1, 1, 1, 1, 1, 1,
    1, 1, 1, 1, 1, 1, 1, 1, 1, 1, 1, 1, 1, 1, 1, 1,
    1, 1, 3, 3, 3, 1, 2, 1, 1, 1, 3, 3, 3, 3, 2, 1,
    1, 1, 3, 2, 3, 1, 2, 1, 1, 1, 3, 2, 3, 3, 2, 1,
    1, 1, 3, 1, 3, 1, 2, 1, 1, 1, 3, 1, 3, 3, 2, 1,
    1, 1, 3, 1, 3, 1, 2, 1, 1, 1, 3, 1, 3, 3, 2, 1,
];

/// The length of an instruction, from the table.
pub fn instruction_length(opcode: u8) -> (r: u16)
    ensures
        r == length_of(opcode),
{
    INSTRUCTION_LENGTH[opcode as usize]
}

/// How many clock cycles the instruction with this opcode is charged.
/// An instruction that reads or writes the M operand costs more than its
/// register form; a conditional instruction is charged as if it were taken.
pub open spec fn cycles_of(opcode: u8) -> usize {
    let low = low_field(opcode);
    let mid = mid_field(opcode);
    if opcode < 0x40 {
        if low == 0 {
            4  // NOP
        } else if low == 1 {
            10  // LXI, DAD
        } else if low == 2 {
            if mid < 4 {
                7  // STAX, LDAX
            } else if mid < 6 {
                16  // SHLD, LHLD
            } else {
                13  // STA, LDA
            }
        } else if low == 3 {
            5  // INX, DCX
        } else if low == 4 || low == 5 {
            if mid == 6 {
                10  // INR M, DCR M
            } else {
                5  // INR, DCR
            }
        } else if low == 6 {
            if mid == 6 {
                10  // MVI M
            } else {
                7  // MVI
            }
        } else {
            4  // rotates, DAA, CMA, STC, CMC
        }
    } else if opcode < 0x80 {
        if low == 6 || mid == 6 {
            7  // MOV to or from M
        } else {
            5  // MOV
        }
    } else if opcode < 0xc0 {
        if low == 6 {
            7  // arithmetic with M
        } else {
            4  // arithmetic with a register
        }
    } else if low == 0 {
        11  // conditional return
    } else if low == 1 {
        if mid == 5 || mid == 7 {
            5  // PCHL, SPHL
        } else {
            10  // POP, RET
        }
    } else if low == 2 {
        10  // conditional jump
    } else if low == 3 {
        if mid < 4 {
            10  // JMP, OUT, IN
        } else if mid == 4 {
            18  // XTHL
        } else if mid == 5 {
            5  // XCHG
        } else {
            4  // DI, EI
        }
    } else if low == 4 {
        17  // conditional call
    } else if low == 5 {
        if odd_field(mid) {
            17  // CALL
        } else {
            11  // PUSH
        }
    } else if low == 6 {
        7  // immediate arithmetic
    } else {
        11  // RST
    }
}

pub const OPCODE_TIMING: [usize; 256] = [
    4, 10, 7, 5, 5, 5, 7, 4, 4, 10, 7, 5, 5, 5, 7, 4,
    4, 10, 7, 5, 5, 5, 7, 4, 4, 10, 7, 5, 5, 5, 7, 4,
    4, 10, 16, 5, 5, 5, 7, 4, 4, 10, 16, 5, 5, 5, 7, 4,
    4, 10, 13, 5, 10, 10, 10, 4, 4, 10, 13, 5, 5, 5, 7, 4,
    5, 5, 5, 5, 5, 5, 7, 5, 5, 5, 5, 5, 5, 5, 7, 5,
    5, 5, 5, 5, 5, 5, 7, 5, 5, 5, 5, 5, 5, 5, 7, 5,
    5, 5, 5, 5, 5, 5, 7, 5, 5, 5, 5, 5, 5, 5, 7, 5,
    7, 7, 7, 7, 7, 7, 7, 7, 5, 5, 5, 5, 5, 5, 7, 5,
    4, 4, 4, 4, 4, 4, 7, 4, 4, 4, 4, 4, 4, 4, 7, 4,
    4, 4, 4, 4, 4, 4, 7, 4, 4, 4, 4, 4, 4, 4, 7, 4,
    4, 4, 4, 4, 4, 4, 7, 4, 4, 4, 4, 4, 4, 4, 7, 4,
    4, 4, 4, 4, 4, 4, 7, 4, 4, 4, 4, 4, 4, 4, 7, 4,
    11, 10, 10, 10, 17, 11, 7, 11, 11, 10, 10, 10, 17, 17, 7, 11,
    11, 10, 10, 10, 17, 11, 7, 11, 11, 10, 10, 10, 17, 17, 7, 11,
    11, 10, 10, 18, 17, 11, 7, 11, 11, 5, 10, 5, 17, 17, 7, 11,
    11, 10, 10, 4, 17, 11, 7, 11, 11, 5, 10, 4, 17, 17, 7, 11,
];

/// The cycles charged for an instruction, from the table.
pub fn opcode_timing(opcode: u8) -> (r: usize)
    ensures
        r == cycles_of(opcode),
{
    OPCODE_TIMING[opcode as usize]
}

} // verus!
