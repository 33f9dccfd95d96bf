use core::marker::PhantomData;
use vstd::prelude::*;

verus! {

/// The abstract content of a tagged pointer: an address whose low bit is
/// always clear, and one flag stored in that bit.
pub struct PtrView {
    pub addr: usize,
    pub bit: bool,
}

/// A tagged pointer: an aligned address and one flag, packed into one word.
pub struct Ptr<T> {
    raw: usize,
    marker: PhantomData<T>,
}

pub open spec fn aligned(a: usize) -> bool {
    a % 2 == 0
}

impl<T> Ptr<T> {
    pub closed spec fn view(&self) -> PtrView {
        PtrView { addr: self.raw & !1usize, bit: self.raw & 1usize == 1usize }
    }

    /// A tagged pointer to `addr`, with the flag clear.
    pub fn new(addr: usize) -> (r: Self)
        requires
            aligned(addr),
        ensures
            r@ == (PtrView { addr, bit: false }),
    {
        assert(addr & !1usize == addr && addr & 1usize == 0usize) by (bit_vector)
            requires
                addr % 2 == 0,
        ;
        Ptr { raw: addr, marker: PhantomData }
    }

    /// The address, with the flag masked out.
    pub fn address(&self) -> (r: usize)
        ensures
            r == self@.addr,
            aligned(r),
    {
        let raw = self.raw;
        let r = raw & !1usize;
        assert(r % 2 == 0) by (bit_vector)
            requires
                r == raw & !1usize,
        ;
        r
    }

    /// The flag.
    pub fn get_bit(&self) -> (r: bool)
        ensures
            r == self@.bit,
    {
        self.raw & 1usize == 1usize
    }

    /// Sets the flag; the address is kept.
    pub fn set_bit(&mut self, bit: bool)
        ensures
            final(self)@ == (PtrView { addr: old(self)@.addr, bit }),
    {
        let raw = self.raw;
        if bit {
            let n = raw | 1usize;
            assert(n & !1usize == raw & !1usize && n & 1usize == 1usize) by (bit_vector)
                requires
                    n == raw | 1usize,
            ;
            self.raw = n;
        } else {
            let n = raw & !1usize;
            assert(n & !1usize == raw & !1usize && n & 1usize == 0usize) by (bit_vector)
                requires
                    n == raw & !1usize,
            ;
            self.raw = n;
        }
    }
}

} // verus!
