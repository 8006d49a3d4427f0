//! The condition-code register and its packing into the program status word.

use vstd::prelude::*;

verus! {

/// The five condition codes: zero, sign, parity, carry and auxiliary carry.
#[derive(PartialEq, Eq, Structural, Debug, Clone, Copy)]
pub struct Flags {
    pub z: bool,
    pub s: bool,
    pub p: bool,
    pub cy: bool,
    pub ac: bool,
}

/// How many bits of `n` are set.
pub open spec fn popcount(n: nat) -> nat
    decreases n,
{
    if n == 0 {
        0
    } else {
        n % 2 + popcount(n / 2)
    }
}

/// Whether an even number of the bits of `n` are set.
#[verifier::opaque]
pub open spec fn even_parity(n: u8) -> bool {
    popcount(n as nat) % 2 == 0
}

/// The value of one bit of the status word.
pub open spec fn bit(b: bool) -> int {
    if b {
        1
    } else {
        0
    }
}

proof fn lemma_pack(z: u8, s: u8, p: u8, cy: u8, ac: u8)
    by (bit_vector)
    requires
        z < 2,
        s < 2,
        p < 2,
        cy < 2,
        ac < 2,
    ensures
        z | s << 1 | p << 2 | cy << 3 | ac << 4 == z + 2 * s + 4 * p + 8 * cy + 16 * ac,
{
}

proof fn lemma_unpack(n: u8)
    by (bit_vector)
    ensures
        (n & 0x01 != 0) == (n % 2 == 1),
        (n & 0x02 != 0) == ((n / 2) % 2 == 1),
        (n & 0x04 != 0) == ((n / 4) % 2 == 1),
        (n & 0x08 != 0) == ((n / 8) % 2 == 1),
        (n & 0x10 != 0) == ((n / 16) % 2 == 1),
        (n & 0x80 != 0) == (n >= 128),
{
}

proof fn lemma_low_bits(n: u8)
    by (bit_vector)
    ensures
        n % 32 == n % 2 + 2 * ((n / 2) % 2) + 4 * ((n / 4) % 2) + 8 * ((n / 8) % 2) + 16 * ((n / 16)
            % 2),
{
}

impl Flags {
    /// All five codes clear.
    pub open spec fn cleared() -> Flags {
        Flags { z: false, s: false, p: false, cy: false, ac: false }
    }

    /// The status word of these codes: Z in bit 0, S in bit 1, P in bit 2,
    /// CY in bit 3, AC in bit 4, and bits 5 to 7 zero.
    pub open spec fn psw(self) -> u8 {
        (bit(self.z) + 2 * bit(self.s) + 4 * bit(self.p) + 8 * bit(self.cy) + 16 * bit(
            self.ac,
        )) as u8
    }

    /// The codes that the status word `n` holds; its bits 5 to 7 are ignored.
    pub open spec fn from_psw(n: u8) -> Flags {
        Flags {
            z: n % 2 == 1,
            s: (n / 2) % 2 == 1,
            p: (n / 4) % 2 == 1,
            cy: (n / 8) % 2 == 1,
            ac: (n / 16) % 2 == 1,
        }
    }

    /// Z, S and P as the result byte `n` sets them; CY and AC as they were.
    pub open spec fn with_zsp(self, n: u8) -> Flags {
        Flags { z: n == 0, s: n >= 128, p: even_parity(n), ..self }
    }

    /// Packing the codes and unpacking the word gives the codes back.
    pub proof fn lemma_psw_round_trip(self)
        ensures
            Flags::from_psw(self.psw()) == self,
            self.psw() < 32,
    {
    }

    /// Unpacking a word and packing the codes gives its five low bits back.
    pub proof fn lemma_psw_low_bits(n: u8)
        ensures
            Flags::from_psw(n).psw() == n % 32,
    {
        lemma_low_bits(n);
    }

    pub fn new() -> (r: Flags)
        ensures
            r == Flags::cleared(),
    {
        Flags { z: false, s: false, p: false, cy: false, ac: false }
    }

    pub fn serialize(&self) -> (r: u8)
        ensures
            r == self.psw(),
    {
        let z: u8 = if self.z { 1 } else { 0 };
        let s: u8 = if self.s { 1 } else { 0 };
        let p: u8 = if self.p { 1 } else { 0 };
        let cy: u8 = if self.cy { 1 } else { 0 };
        let ac: u8 = if self.ac { 1 } else { 0 };
        proof {
            lemma_pack(z, s, p, cy, ac);
        }
        z | s << 1 | p << 2 | cy << 3 | ac << 4
    }

    pub fn deserialize(&mut self, flags: u8)
        ensures
            *final(self) == Flags::from_psw(flags),
    {
        proof {
            lemma_unpack(flags);
        }
        self.z = (flags & 0x01) != 0;
        self.s = (flags & 0x02) != 0;
        self.p = (flags & 0x04) != 0;
        self.cy = (flags & 0x08) != 0;
        self.ac = (flags & 0x10) != 0;
    }

    pub fn set_z(&mut self, n: u8)
        ensures
            *final(self) == (Flags { z: n == 0, ..*old(self) }),
    {
        self.z = n == 0;
    }

    pub fn set_s(&mut self, n: u8)
        ensures
            *final(self) == (Flags { s: n >= 128, ..*old(self) }),
    {
        proof {
            lemma_unpack(n);
        }
        self.s = (n & 0x80) != 0;
    }

    pub fn set_p(&mut self, n: u8)
        ensures
            *final(self) == (Flags { p: even_parity(n), ..*old(self) }),
    {
        let mut rest: u8 = n;
        let mut even: bool = true;
        proof {
            reveal(even_parity);
        }
        while rest != 0
            invariant
                even_parity(n) == (even == even_parity(rest)),
            decreases rest,
        {
            proof {
                reveal(even_parity);
            }
            if rest % 2 == 1 {
                even = !even;
            }
            rest = rest / 2;
        }
        self.p = even;
    }
}

impl Default for Flags {
    fn default() -> (r: Flags)
        ensures
            r == Flags::cleared(),
    {
        Flags::new()
    }
}

} // verus!
