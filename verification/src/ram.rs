//! A fixed-capacity byte memory with little-endian 8/16/32-bit accessors.

use vstd::prelude::*;

verus! {

/// What the memory holds at address `a`, read as a little-endian 16-bit
/// value: the byte at `a` plus 256 times the byte at `a + 1`.
pub open spec fn half_at(m: Seq<u8>, a: int) -> u16 {
    (m[a] + m[a + 1] * 0x100) as u16
}

/// What the memory holds at address `a`, read as a little-endian 32-bit
/// value.
pub open spec fn word_at(m: Seq<u8>, a: int) -> u32 {
    (m[a] + m[a + 1] * 0x100 + m[a + 2] * 0x1_0000 + m[a + 3] * 0x100_0000) as u32
}

/// The memory after a little-endian 16-bit store of `v` at address `a`.
pub open spec fn store_half(m: Seq<u8>, a: int, v: u16) -> Seq<u8> {
    m.update(a, (v % 0x100) as u8).update(a + 1, (v / 0x100) as u8)
}

/// The memory after a little-endian 32-bit store of `v` at address `a`.
pub open spec fn store_word(m: Seq<u8>, a: int, v: u32) -> Seq<u8> {
    m.update(a, (v % 0x100) as u8)
        .update(a + 1, ((v / 0x100) % 0x100) as u8)
        .update(a + 2, ((v / 0x1_0000) % 0x100) as u8)
        .update(a + 3, ((v / 0x100_0000) % 0x100) as u8)
}

/// The byte memory. Addresses are words, so the capacity never exceeds
/// the word range.
pub struct RAM {
    data: Vec<u8>,
}

impl View for RAM {
    type V = Seq<u8>;

    closed spec fn view(&self) -> Seq<u8> {
        self.data@
    }
}

impl RAM {
    /// A zero-filled memory of the given capacity.
    pub fn new(capacity: usize) -> (r: RAM)
        requires
            capacity <= 0xFFFF_FFFF,
        ensures
            r@.len() == capacity,
            forall|i: int| 0 <= i < capacity ==> r@[i] == 0,
    {
        let mut data: Vec<u8> = Vec::new();
        let mut i: usize = 0;
        while i < capacity
            invariant
                i <= capacity,
                data@.len() == i,
                forall|j: int| 0 <= j < i ==> data@[j] == 0,
            decreases capacity - i,
        {
            data.push(0);
            i = i + 1;
        }
        RAM { data }
    }

    /// How many bytes the memory holds.
    pub fn len(&self) -> (r: usize)
        ensures
            r == self@.len(),
    {
        self.data.len()
    }

    /// The byte at `index`.
    pub fn get_u8(&self, index: u32) -> (r: u8)
        requires
            index < self@.len(),
        ensures
            r == self@[index as int],
    {
        self.data[index as usize]
    }

    /// The little-endian 16-bit value at `index`.
    pub fn get_u16(&self, index: u32) -> (r: u16)
        requires
            index + 1 < self@.len(),
        ensures
            r == half_at(self@, index as int),
    {
        // Binding the length keeps the index arithmetic visibly in range.
        let _len = self.data.len();
        let i = index as usize;
        let b0 = self.data[i];
        let b1 = self.data[i + 1];
        b0 as u16 + b1 as u16 * 0x100
    }

    /// The little-endian 32-bit value at `index`.
    pub fn get_u32(&self, index: u32) -> (r: u32)
        requires
            index + 3 < self@.len(),
        ensures
            r == word_at(self@, index as int),
    {
        // Binding the length keeps the index arithmetic visibly in range.
        let _len = self.data.len();
        let i = index as usize;
        let b0 = self.data[i];
        let b1 = self.data[i + 1];
        let b2 = self.data[i + 2];
        let b3 = self.data[i + 3];
        b0 as u32 + b1 as u32 * 0x100 + b2 as u32 * 0x1_0000 + b3 as u32 * 0x100_0000
    }

    /// Writes one byte at `index`.
    pub fn set_u8(&mut self, index: u32, data: u8)
        requires
            index < old(self)@.len(),
        ensures
            final(self)@ == old(self)@.update(index as int, data),
    {
        self.data.set(index as usize, data);
    }

    /// Writes a 16-bit value at `index`, little-endian; the other bytes
    /// are untouched.
    pub fn set_u16(&mut self, index: u32, data: u16)
        requires
            index + 1 < old(self)@.len(),
        ensures
            final(self)@ == store_half(old(self)@, index as int, data),
    {
        // Binding the length keeps the index arithmetic visibly in range.
        let _len = self.data.len();
        let i = index as usize;
        self.data.set(i, (data % 0x100) as u8);
        self.data.set(i + 1, (data / 0x100) as u8);
    }

    /// Writes a 32-bit value at `index`, little-endian; the other bytes
    /// are untouched.
    pub fn set_u32(&mut self, index: u32, data: u32)
        requires
            index + 3 < old(self)@.len(),
        ensures
            final(self)@ == store_word(old(self)@, index as int, data),
    {
        // Binding the length keeps the index arithmetic visibly in range.
        let _len = self.data.len();
        let i = index as usize;
        self.data.set(i, (data % 0x100) as u8);
        self.data.set(i + 1, ((data / 0x100) % 0x100) as u8);
        self.data.set(i + 2, ((data / 0x1_0000) % 0x100) as u8);
        self.data.set(i + 3, ((data / 0x100_0000) % 0x100) as u8);
    }
}

/// A store followed by a load of the same width at the same address reads
/// back the stored value: exactly for words, and truncated to the stored
/// width for halves and bytes.
pub proof fn lemma_store_load(m: Seq<u8>, a: int, v: u32)
    requires
        0 <= a,
        a + 3 < m.len(),
    ensures
        word_at(store_word(m, a, v), a) == v,
        half_at(store_half(m, a, (v % 0x1_0000) as u16), a) == v % 0x1_0000,
        m.update(a, (v % 0x100) as u8)[a] == v % 0x100,
{
    assert(v % 0x100 + ((v / 0x100) % 0x100) * 0x100 + ((v / 0x1_0000) % 0x100) * 0x1_0000 + ((v
        / 0x100_0000) % 0x100) * 0x100_0000 == v) by (bit_vector);
    let h = (v % 0x1_0000) as u16;
    assert(h % 0x100 + (h / 0x100) * 0x100 == h) by (bit_vector);
}

} // verus!
