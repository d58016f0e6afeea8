//! Flat guest memory: a byte array addressed by 32-bit guest addresses,
//! with little-endian typed loads and stores.

use vstd::prelude::*;

verus! {

/// The value of the four little-endian bytes `b0..b3`.
pub open spec fn u32_of_bytes(b0: u8, b1: u8, b2: u8, b3: u8) -> u32 {
    (b0 + b1 * 0x100 + b2 * 0x10000 + b3 * 0x1000000) as u32
}

/// The little-endian `u32` stored at offset `a` of `m`.
pub open spec fn u32_at(m: Seq<u8>, a: int) -> u32 {
    u32_of_bytes(m[a], m[a + 1], m[a + 2], m[a + 3])
}

/// The byte sequence after storing `v` little-endian at offset `a`.
pub open spec fn store_u32(m: Seq<u8>, a: int, v: u32) -> Seq<u8> {
    m.update(a, (v % 0x100) as u8).update(a + 1, (v / 0x100 % 0x100) as u8).update(
        a + 2,
        (v / 0x10000 % 0x100) as u8,
    ).update(a + 3, (v / 0x1000000) as u8)
}

pub proof fn lemma_store_u32(m: Seq<u8>, a: int, v: u32)
    requires
        0 <= a,
        a + 4 <= m.len(),
    ensures
        store_u32(m, a, v).len() == m.len(),
        u32_at(store_u32(m, a, v), a) == v,
        forall|i: int| 0 <= i < m.len() && !(a <= i < a + 4) ==> store_u32(m, a, v)[i] == m[i],
{
    lemma_u32_le_parts(v);
}

/// The byte sequence after zeroing the `n` bytes starting at `a`.
pub open spec fn zero_range(m: Seq<u8>, a: int, n: int) -> Seq<u8> {
    Seq::new(
        m.len(),
        |i: int|
            if a <= i < a + n {
                0u8
            } else {
                m[i]
            },
    )
}

/// Guest memory: a flat byte array. Address `a` is valid when `a < self@.len()`.
pub struct Mem {
    pub buf: Vec<u8>,
}

impl View for Mem {
    type V = Seq<u8>;

    open spec fn view(&self) -> Seq<u8> {
        self.buf@
    }
}

proof fn lemma_u32_le_parts(v: u32)
    ensures
        v % 0x100 + (v / 0x100 % 0x100) * 0x100 + (v / 0x10000 % 0x100) * 0x10000 + (v
            / 0x1000000) * 0x1000000 == v,
        v / 0x1000000 < 0x100,
{
    assert(v % 0x100 + (v / 0x100 % 0x100) * 0x100 + (v / 0x10000 % 0x100) * 0x10000 + (v
        / 0x1000000) * 0x1000000 == v) by (bit_vector);
    assert(v / 0x1000000 < 0x100) by (bit_vector);
}

impl Mem {
    /// A zero-filled guest memory of `size` bytes.
    pub fn new(size: usize) -> (r: Mem)
        ensures
            r@.len() == size,
            forall|i: int| 0 <= i < size ==> r@[i] == 0u8,
    {
        let mut buf: Vec<u8> = Vec::new();
        let mut i: usize = 0;
        while i < size
            invariant
                i <= size,
                buf@.len() == i,
                forall|j: int| 0 <= j < i ==> buf@[j] == 0u8,
            decreases size - i,
        {
            buf.push(0u8);
            i = i + 1;
        }
        Mem { buf }
    }

    pub fn len(&self) -> (r: usize)
        ensures
            r == self@.len(),
    {
        self.buf.len()
    }

    pub fn read_u8(&self, addr: u32) -> (r: u8)
        requires
            self@.len() <= 0x1_0000_0000,
            addr < self@.len(),
        ensures
            r == self@[addr as int],
    {
        self.buf[addr as usize]
    }

    pub fn write_u8(&mut self, addr: u32, v: u8)
        requires
            old(self)@.len() <= 0x1_0000_0000,
            addr < old(self)@.len(),
        ensures
            final(self)@ == old(self)@.update(addr as int, v),
    {
        self.buf[addr as usize] = v;
    }

    /// Load the little-endian `u32` at `addr`.
    pub fn read_u32(&self, addr: u32) -> (r: u32)
        requires
            self@.len() <= 0x1_0000_0000,
            addr + 4 <= self@.len(),
        ensures
            r == u32_at(self@, addr as int),
    {
        let b0 = self.buf[addr as usize];
        let b1 = self.buf[addr as usize + 1];
        let b2 = self.buf[addr as usize + 2];
        let b3 = self.buf[addr as usize + 3];
        (b0 as u32) + (b1 as u32) * 0x100 + (b2 as u32) * 0x10000 + (b3 as u32) * 0x1000000
    }

    /// Store `v` at `addr` as four little-endian bytes. All other bytes keep
    /// their values.
    pub fn write_u32(&mut self, addr: u32, v: u32)
        requires
            old(self)@.len() <= 0x1_0000_0000,
            addr + 4 <= old(self)@.len(),
        ensures
            final(self)@ == store_u32(old(self)@, addr as int, v),
            final(self)@.len() == old(self)@.len(),
            u32_at(final(self)@, addr as int) == v,
            forall|i: int|
                0 <= i < final(self)@.len() && !(addr <= i < addr + 4) ==> final(self)@[i]
                    == old(self)@[i],
    {
        proof {
            lemma_store_u32(self@, addr as int, v);
        }
        let b0: u8 = (v % 0x100) as u8;
        let b1: u8 = (v / 0x100 % 0x100) as u8;
        let b2: u8 = (v / 0x10000 % 0x100) as u8;
        let b3: u8 = (v / 0x1000000) as u8;
        proof {
            lemma_u32_le_parts(v);
        }
        self.buf[addr as usize] = b0;
        self.buf[addr as usize + 1] = b1;
        self.buf[addr as usize + 2] = b2;
        self.buf[addr as usize + 3] = b3;
    }

    /// Copy `n` bytes starting at `addr` out of guest memory.
    pub fn read_bytes(&self, addr: u32, n: u32) -> (r: Vec<u8>)
        requires
            self@.len() <= 0x1_0000_0000,
            addr + n <= self@.len(),
        ensures
            r@ == self@.subrange(addr as int, addr + n),
    {
        let mut r: Vec<u8> = Vec::new();
        let mut i: u32 = 0;
        while i < n
            invariant
                i <= n,
                self@.len() <= 0x1_0000_0000,
                addr + n <= self@.len(),
                r@ == self@.subrange(addr as int, addr + i),
            decreases n - i,
        {
            r.push(self.buf[(addr + i) as usize]);
            proof {
                assert(r@ =~= self@.subrange(addr as int, addr + i + 1));
            }
            i = i + 1;
        }
        r
    }

    /// Zero the `n` bytes starting at `addr`. All other bytes keep their
    /// values.
    pub fn zero_bytes(&mut self, addr: u32, n: u32)
        requires
            old(self)@.len() <= 0x1_0000_0000,
            addr + n <= old(self)@.len(),
        ensures
            final(self)@ == zero_range(old(self)@, addr as int, n as int),
    {
        let mut i: u32 = 0;
        while i < n
            invariant
                i <= n,
                self@.len() <= 0x1_0000_0000,
                addr + n <= self@.len(),
                self@.len() == old(self)@.len(),
                forall|j: int| addr <= j < addr + i ==> self@[j] == 0u8,
                forall|j: int|
                    0 <= j < self@.len() && !(addr <= j < addr + i) ==> self@[j] == old(self)@[j],
            decreases n - i,
        {
            self.buf[(addr + i) as usize] = 0u8;
            i = i + 1;
        }
        proof {
            assert(self@ =~= zero_range(old(self)@, addr as int, n as int));
        }
    }

    /// Copy `bytes` into guest memory at `addr`. All other bytes keep their
    /// values.
    pub fn write_bytes(&mut self, addr: u32, bytes: &[u8])
        requires
            old(self)@.len() <= 0x1_0000_0000,
            addr + bytes@.len() <= old(self)@.len(),
        ensures
            final(self)@.len() == old(self)@.len(),
            final(self)@.subrange(addr as int, addr + bytes@.len()) == bytes@,
            forall|i: int|
                0 <= i < final(self)@.len() && !(addr <= i < addr + bytes@.len())
                    ==> final(self)@[i] == old(self)@[i],
    {
        let n: usize = bytes.len();
        let mut i: usize = 0;
        while i < n
            invariant
                i <= n,
                n == bytes@.len(),
                self@.len() <= 0x1_0000_0000,
                addr + n <= self@.len(),
                self@.len() == old(self)@.len(),
                forall|j: int| 0 <= j < i ==> self@[addr + j] == bytes@[j],
                forall|j: int|
                    0 <= j < self@.len() && !(addr <= j < addr + n) ==> self@[j] == old(self)@[j],
            decreases n - i,
        {
            self.buf[addr as usize + i] = bytes[i];
            i = i + 1;
        }
        proof {
            assert(self@.subrange(addr as int, addr + bytes@.len()) =~= bytes@);
        }
    }
}

} // verus!
