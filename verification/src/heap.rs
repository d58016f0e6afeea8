//! A sub-allocator inside one mapping: shims use it to materialize scratch
//! structures in guest-visible memory. Allocation bumps a frontier; freeing
//! the most recent allocation rolls the frontier back, anything else leaks.

use vstd::prelude::*;

verus! {

/// `n` rounded up to the next multiple of 4.
pub open spec fn round_up4(n: u32) -> u32 {
    ((n + 3) as u32) & !3u32
}

pub proof fn lemma_round_up4(n: u32)
    requires
        n <= 0xFFFF_FFFC,
    ensures
        round_up4(n) % 4 == 0,
        n <= round_up4(n),
        round_up4(n) < n + 4,
{
    assert((((n + 3) as u32) & !3u32) % 4 == 0) by (bit_vector)
        requires
            n <= 0xFFFF_FFFCu32,
    ;
    assert(n <= (((n + 3) as u32) & !3u32)) by (bit_vector)
        requires
            n <= 0xFFFF_FFFCu32,
    ;
    assert((((n + 3) as u32) & !3u32) < n + 4) by (bit_vector)
        requires
            n <= 0xFFFF_FFFCu32,
    ;
}

/// A bump heap over the guest range `[addr, addr + size)`. `next` is the
/// allocation frontier (relative to `addr`); `last` is the most recent
/// allocation's address, or 0 when none can be rolled back.
pub struct Heap {
    pub addr: u32,
    pub size: u32,
    pub next: u32,
    pub last: u32,
}

impl Heap {
    pub open spec fn wf(&self) -> bool {
        &&& self.addr % 4 == 0
        &&& self.addr > 0
        &&& self.addr + self.size <= 0xFFFF_FFFF
        &&& self.next % 4 == 0
        &&& self.next <= self.size
        &&& (self.last == 0 || (self.addr <= self.last && self.last % 4 == 0 && self.last
            - self.addr <= self.next))
    }

    pub fn new(addr: u32, size: u32) -> (r: Heap)
        requires
            addr % 4 == 0,
            addr > 0,
            addr + size <= 0xFFFF_FFFF,
        ensures
            r.wf(),
            r.addr == addr,
            r.size == size,
            r.next == 0,
            r.last == 0,
    {
        Heap { addr, size, next: 0, last: 0 }
    }

    /// Reserve `n` bytes; the returned guest address is 4-byte aligned,
    /// nonzero, and the reserved range lies inside the heap's mapping.
    pub fn allocate(&mut self, n: u32) -> (r: u32)
        requires
            old(self).wf(),
            n <= 0xFFFF_FFFC,
            old(self).next + round_up4(n) <= old(self).size,
        ensures
            final(self).wf(),
            r == old(self).addr + old(self).next,
            r % 4 == 0,
            r > 0,
            r + n <= old(self).addr + old(self).size,
            final(self).next == old(self).next + round_up4(n),
            final(self).last == r,
            final(self).addr == old(self).addr,
            final(self).size == old(self).size,
    {
        proof {
            lemma_round_up4(n);
        }
        let r = self.addr + self.next;
        self.next = self.next + ((n + 3) & !3u32);
        self.last = r;
        r
    }

    /// Release the allocation at `a`. Only the most recent allocation is
    /// reclaimed (the frontier rolls back to it); anything else leaks.
    pub fn free(&mut self, a: u32)
        requires
            old(self).wf(),
        ensures
            final(self).wf(),
            final(self).addr == old(self).addr,
            final(self).size == old(self).size,
            a == old(self).last && a != 0 ==> final(self).next == a - old(self).addr
                && final(self).last == 0,
            !(a == old(self).last && a != 0) ==> final(self).next == old(self).next
                && final(self).last == old(self).last,
    {
        if self.last != 0 && a == self.last {
            self.next = a - self.addr;
            self.last = 0;
        }
    }
}

} // verus!
