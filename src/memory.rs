//! The memory the core reads and writes: two RAM regions on a flat 32-bit
//! address space, little-endian.
use crate::utils::add32;
use vstd::prelude::*;

verus! {

/// External work RAM: 256 KiB at 0x0200_0000.
pub const EWRAM_BASE: u32 = 0x0200_0000;

pub const EWRAM_SIZE: u32 = 0x0004_0000;

/// Internal work RAM: 32 KiB at 0x0300_0000.
pub const IWRAM_BASE: u32 = 0x0300_0000;

pub const IWRAM_SIZE: u32 = 0x0000_8000;

pub open spec fn in_ewram(a: u32) -> bool {
    EWRAM_BASE <= a < EWRAM_BASE + EWRAM_SIZE
}

pub open spec fn in_iwram(a: u32) -> bool {
    IWRAM_BASE <= a < IWRAM_BASE + IWRAM_SIZE
}

/// Whether `a` is backed by storage; other addresses read as 0 and ignore writes.
pub open spec fn mapped(a: u32) -> bool {
    in_ewram(a) || in_iwram(a)
}

/// The memory as a mathematical value: the contents of the two RAM regions.
pub struct MemModel {
    pub ewram: Seq<u8>,
    pub iwram: Seq<u8>,
}

impl MemModel {
    pub open spec fn wf(self) -> bool {
        self.ewram.len() == EWRAM_SIZE && self.iwram.len() == IWRAM_SIZE
    }

    pub open spec fn byte(self, a: u32) -> u8 {
        if in_ewram(a) {
            self.ewram[a - EWRAM_BASE]
        } else if in_iwram(a) {
            self.iwram[a - IWRAM_BASE]
        } else {
            0
        }
    }

    pub open spec fn set_byte(self, a: u32, v: u8) -> MemModel {
        if in_ewram(a) {
            MemModel { ewram: self.ewram.update(a - EWRAM_BASE, v), ..self }
        } else if in_iwram(a) {
            MemModel { iwram: self.iwram.update(a - IWRAM_BASE, v), ..self }
        } else {
            self
        }
    }

    /// The little-endian half-word at `a`.
    pub open spec fn half(self, a: u32) -> u16 {
        (self.byte(a) as u16) | ((self.byte(add32(a, 1)) as u16) << 8u16)
    }

    /// The little-endian word at `a`.
    pub open spec fn word(self, a: u32) -> u32 {
        (self.byte(a) as u32) | ((self.byte(add32(a, 1)) as u32) << 8u32) | ((self.byte(
            add32(a, 2),
        ) as u32) << 16u32) | ((self.byte(add32(a, 3)) as u32) << 24u32)
    }

    pub open spec fn set_half(self, a: u32, v: u16) -> MemModel {
        self.set_byte(a, v as u8).set_byte(add32(a, 1), (v >> 8u16) as u8)
    }

    pub open spec fn set_word(self, a: u32, v: u32) -> MemModel {
        self.set_byte(a, v as u8).set_byte(add32(a, 1), (v >> 8u32) as u8).set_byte(
            add32(a, 2),
            (v >> 16u32) as u8,
        ).set_byte(add32(a, 3), (v >> 24u32) as u8)
    }

    /// Memory after reset: every byte 0.
    pub open spec fn zeroed() -> MemModel {
        MemModel {
            ewram: Seq::new(EWRAM_SIZE as nat, |i: int| 0u8),
            iwram: Seq::new(IWRAM_SIZE as nat, |i: int| 0u8),
        }
    }
}

/// The memory bus as the core sees it: byte, half-word and word access on
/// a flat 32-bit address space.
pub struct Memory {
    ewram: Vec<u8>,
    iwram: Vec<u8>,
}

impl View for Memory {
    type V = MemModel;

    closed spec fn view(&self) -> MemModel {
        MemModel { ewram: self.ewram@, iwram: self.iwram@ }
    }
}

impl Memory {
    pub open spec fn wf(&self) -> bool {
        self@.wf()
    }

    /// Memory with every byte 0.
    pub fn new() -> (r: Memory)
        ensures
            r@ == MemModel::zeroed(),
    {
        let r = Memory {
            ewram: vec![0u8; EWRAM_SIZE as usize],
            iwram: vec![0u8; IWRAM_SIZE as usize],
        };
        assert(r.ewram@ =~= Seq::new(EWRAM_SIZE as nat, |i: int| 0u8));
        assert(r.iwram@ =~= Seq::new(IWRAM_SIZE as nat, |i: int| 0u8));
        r
    }

    pub fn read_byte(&self, address: u32) -> (r: u8)
        requires
            self.wf(),
        ensures
            r == self@.byte(address),
    {
        if EWRAM_BASE <= address && address < EWRAM_BASE + EWRAM_SIZE {
            self.ewram[(address - EWRAM_BASE) as usize]
        } else if IWRAM_BASE <= address && address < IWRAM_BASE + IWRAM_SIZE {
            self.iwram[(address - IWRAM_BASE) as usize]
        } else {
            0
        }
    }

    pub fn write_byte(&mut self, address: u32, value: u8)
        requires
            old(self).wf(),
        ensures
            final(self)@ == old(self)@.set_byte(address, value),
    {
        if EWRAM_BASE <= address && address < EWRAM_BASE + EWRAM_SIZE {
            self.ewram.set((address - EWRAM_BASE) as usize, value);
        } else if IWRAM_BASE <= address && address < IWRAM_BASE + IWRAM_SIZE {
            self.iwram.set((address - IWRAM_BASE) as usize, value);
        }
    }

    pub fn read_half_word(&self, address: u32) -> (r: u16)
        requires
            self.wf(),
        ensures
            r == self@.half(address),
    {
        let b0 = self.read_byte(address);
        let b1 = self.read_byte(address.wrapping_add(1));
        (b0 as u16) | ((b1 as u16) << 8u16)
    }

    pub fn read_word(&self, address: u32) -> (r: u32)
        requires
            self.wf(),
        ensures
            r == self@.word(address),
    {
        let b0 = self.read_byte(address);
        let b1 = self.read_byte(address.wrapping_add(1));
        let b2 = self.read_byte(address.wrapping_add(2));
        let b3 = self.read_byte(address.wrapping_add(3));
        (b0 as u32) | ((b1 as u32) << 8u32) | ((b2 as u32) << 16u32) | ((b3 as u32) << 24u32)
    }

    pub fn write_half_word(&mut self, address: u32, value: u16)
        requires
            old(self).wf(),
        ensures
            final(self)@ == old(self)@.set_half(address, value),
    {
        self.write_byte(address, value as u8);
        self.write_byte(address.wrapping_add(1), (value >> 8u16) as u8);
    }

    pub fn write_word(&mut self, address: u32, value: u32)
        requires
            old(self).wf(),
        ensures
            final(self)@ == old(self)@.set_word(address, value),
    {
        self.write_byte(address, value as u8);
        self.write_byte(address.wrapping_add(1), (value >> 8u32) as u8);
        self.write_byte(address.wrapping_add(2), (value >> 16u32) as u8);
        self.write_byte(address.wrapping_add(3), (value >> 24u32) as u8);
    }
}

/// Writing a word keeps memory well formed.
pub proof fn lemma_word_frame_wf(m: MemModel, a: u32, v: u32)
    requires
        m.wf(),
    ensures
        m.set_word(a, v).wf(),
{
}

/// Writing one byte leaves every other byte as it was.
pub proof fn lemma_set_byte_frame(m: MemModel, x: u32, v: u8, y: u32)
    requires
        m.wf(),
        x != y,
    ensures
        m.set_byte(x, v).byte(y) == m.byte(y),
        m.set_byte(x, v).wf(),
{
}

/// Writing a word leaves the word at an address four or more bytes away as
/// it was.
pub proof fn lemma_set_word_frame(m: MemModel, a: u32, v: u32, b: u32)
    requires
        m.wf(),
        a + 4 <= b || b + 4 <= a,
        a + 3 <= u32::MAX,
        b + 3 <= u32::MAX,
    ensures
        m.set_word(a, v).word(b) == m.word(b),
        m.set_word(a, v).wf(),
{
    let m1 = m.set_byte(a, v as u8);
    let m2 = m1.set_byte(add32(a, 1), (v >> 8u32) as u8);
    let m3 = m2.set_byte(add32(a, 2), (v >> 16u32) as u8);
    let m4 = m3.set_byte(add32(a, 3), (v >> 24u32) as u8);
    assert forall|y: u32| b <= y <= b + 3 implies m4.byte(y) == m.byte(y) by {
        lemma_set_byte_frame(m, a, v as u8, y);
        lemma_set_byte_frame(m1, add32(a, 1), (v >> 8u32) as u8, y);
        lemma_set_byte_frame(m2, add32(a, 2), (v >> 16u32) as u8, y);
        lemma_set_byte_frame(m3, add32(a, 3), (v >> 24u32) as u8, y);
    }
    assert(add32(b, 1) == b + 1 && add32(b, 2) == b + 2 && add32(b, 3) == b + 3);
    assert(m4.byte(b) == m.byte(b));
    assert(m4.byte(add32(b, 1)) == m.byte(add32(b, 1)));
    assert(m4.byte(add32(b, 2)) == m.byte(add32(b, 2)));
    assert(m4.byte(add32(b, 3)) == m.byte(add32(b, 3)));
}

/// A word written to a word-aligned address that memory backs reads back
/// unchanged.
pub proof fn lemma_word_round_trip(m: MemModel, a: u32, w: u32)
    requires
        m.wf(),
        a % 4 == 0,
        mapped(a),
    ensures
        m.set_word(a, w).word(a) == w,
{
    let m2 = m.set_word(a, w);
    assert(add32(a, 1) == a + 1 && add32(a, 2) == a + 2 && add32(a, 3) == a + 3);
    assert(m2.byte(a) == w as u8);
    assert(m2.byte(add32(a, 1)) == (w >> 8u32) as u8);
    assert(m2.byte(add32(a, 2)) == (w >> 16u32) as u8);
    assert(m2.byte(add32(a, 3)) == (w >> 24u32) as u8);
    assert(((w as u8) as u32) | ((((w >> 8u32) as u8) as u32) << 8u32) | ((((w >> 16u32) as u8)
        as u32) << 16u32) | ((((w >> 24u32) as u8) as u32) << 24u32) == w) by (bit_vector);
}

} // verus!
