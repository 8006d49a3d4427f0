//! The flat 64 KiB byte store.

use vstd::prelude::*;

verus! {

/// The number of addressable bytes.
pub const MEMORY_SIZE: usize = 65536;

/// 65536 bytes, addressed by a 16-bit index.
pub struct Memory {
    m: Vec<u8>,
}

impl Memory {
    /// The bytes held, the one at address 0 first.
    pub closed spec fn bytes(&self) -> Seq<u8> {
        self.m@
    }

    /// Every memory holds exactly one byte for each 16-bit address.
    #[verifier::type_invariant]
    pub open spec fn well_formed(&self) -> bool {
        self.bytes().len() == 65536
    }

    pub fn new() -> (r: Memory)
        ensures
            r.bytes() == Seq::new(65536, |i: int| 0u8),
    {
        let m: Vec<u8> = vec![0u8; MEMORY_SIZE];
        assert(m@ =~= Seq::new(65536, |i: int| 0u8));
        Memory { m }
    }

    pub fn get(&self, addr: u16) -> (r: u8)
        ensures
            r == self.bytes()[addr as int],
    {
        proof {
            use_type_invariant(self);
        }
        self.m[addr as usize]
    }

    pub fn set(&mut self, addr: u16, data: u8)
        ensures
            final(self).bytes() == old(self).bytes().update(addr as int, data),
    {
        proof {
            use_type_invariant(&*self);
        }
        self.m[addr as usize] = data;
    }

    /// Copies `data` into memory, its first byte to `base`. The block must
    /// end at or before the last address: nothing wraps here.
    pub fn load(&mut self, base: u16, data: Vec<u8>)
        requires
            base + data.len() <= 65536,
        ensures
            final(self).bytes() == old(self).bytes().subrange(0, base as int) + data@ + old(
                self,
            ).bytes().subrange(base + data.len(), 65536),
    {
        proof {
            use_type_invariant(&*self);
        }
        let ghost before = self.m@;
        let n = data.len();
        let start = base as usize;
        let mut i: usize = 0;
        while i < n
            invariant
                n == data.len(),
                start == base,
                start + n <= 65536,
                i <= n,
                before.len() == 65536,
                self.m@ =~= before.subrange(0, start as int) + data@.subrange(0, i as int)
                    + before.subrange(start + i, 65536),
            decreases n - i,
        {
            self.m[start + i] = data[i];
            i += 1;
        }
        assert(data@.subrange(0, n as int) =~= data@);
    }

    /// The bytes from `start` to `end`, both ends included.
    pub fn view(&self, start: u16, end: u16) -> (r: &[u8])
        requires
            start <= end + 1,
        ensures
            r@ == self.bytes().subrange(start as int, end + 1),
    {
        proof {
            use_type_invariant(self);
        }
        let lo = start as usize;
        let hi = end as usize + 1;
        &self.m[lo..hi]
    }
}

} // verus!
