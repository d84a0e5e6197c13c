//! A contiguous byte array mapped at a fixed base address, offering 8-, 16-
//! and 32-bit and bulk reads and writes with bounds checks. Multi-byte
//! accesses are little-endian: the byte at the lowest address is the least
//! significant.

use vstd::prelude::*;

verus! {

broadcast use vstd::std_specs::vec::axiom_spec_len;

/// The mathematical model of a memory region: its base address and the
/// sequence of bytes it holds.
pub struct MemView {
    pub start: int,
    pub data: Seq<u8>,
}

/// An access to `[address, address + nb_bytes)` is valid iff it lies within
/// the region and is no longer than the region itself.
pub open spec fn mem_belongs(m: MemView, address: int, nb_bytes: int) -> bool {
    &&& m.start <= address
    &&& address + nb_bytes <= m.start + m.data.len()
    &&& nb_bytes <= m.data.len()
}

/// The byte of `m` at absolute address `address`.
pub open spec fn mem_byte(m: MemView, address: int) -> u8 {
    m.data[address - m.start]
}

/// `m` with the byte at absolute address `address` replaced by `value`.
pub open spec fn mem_store_byte(m: MemView, address: int, value: u8) -> MemView {
    MemView { start: m.start, data: m.data.update(address - m.start, value) }
}

/// The little-endian value of two bytes, `lo` at the lower address.
pub open spec fn le16(lo: u8, hi: u8) -> u16 {
    ((hi as u16) << 8u16) | (lo as u16)
}

/// The little-endian value of four bytes, `b0` at the lowest address.
pub open spec fn le32(b0: u8, b1: u8, b2: u8, b3: u8) -> u32 {
    ((b3 as u32) << 24u32) | ((b2 as u32) << 16u32) | ((b1 as u32) << 8u32) | (b0 as u32)
}

/// Byte `i` (0 = least significant) of the 32-bit value `value`.
pub open spec fn u32_byte(value: u32, i: int) -> u8
    recommends
        0 <= i < 4,
{
    if i == 0 {
        (value & 0xff) as u8
    } else if i == 1 {
        ((value >> 8u32) & 0xff) as u8
    } else if i == 2 {
        ((value >> 16u32) & 0xff) as u8
    } else {
        ((value >> 24u32) & 0xff) as u8
    }
}

/// The low byte of a 16-bit value.
pub open spec fn u16_lo(value: u16) -> u8 {
    (value & 0xff) as u8
}

/// The high byte of a 16-bit value.
pub open spec fn u16_hi(value: u16) -> u8 {
    ((value >> 8u16) & 0xff) as u8
}

/// The 16-bit little-endian read of `m` at `address`.
pub open spec fn mem_read_u16(m: MemView, address: int) -> u16 {
    le16(mem_byte(m, address), mem_byte(m, address + 1))
}

/// The 32-bit little-endian read of `m` at `address`.
pub open spec fn mem_read_u32(m: MemView, address: int) -> u32 {
    le32(
        mem_byte(m, address),
        mem_byte(m, address + 1),
        mem_byte(m, address + 2),
        mem_byte(m, address + 3),
    )
}

/// `m` after a 16-bit little-endian store of `value` at `address`.
pub open spec fn mem_store_u16(m: MemView, address: int, value: u16) -> MemView {
    mem_store_byte(mem_store_byte(m, address, u16_lo(value)), address + 1, u16_hi(value))
}

/// `m` after a 32-bit little-endian store of `value` at `address`.
pub open spec fn mem_store_u32(m: MemView, address: int, value: u32) -> MemView {
    mem_store_byte(
        mem_store_byte(
            mem_store_byte(
                mem_store_byte(m, address, u32_byte(value, 0)),
                address + 1,
                u32_byte(value, 1),
            ),
            address + 2,
            u32_byte(value, 2),
        ),
        address + 3,
        u32_byte(value, 3),
    )
}

/// The `size` bytes of `m` starting at `address`.
pub open spec fn mem_read_bytes(m: MemView, address: int, size: int) -> Seq<u8> {
    m.data.subrange(address - m.start, address - m.start + size)
}

/// `m` with the bytes starting at `address` replaced by `bytes`.
pub open spec fn mem_store_bytes(m: MemView, address: int, bytes: Seq<u8>) -> MemView {
    MemView {
        start: m.start,
        data: Seq::new(
            m.data.len(),
            |i: int|
                if address - m.start <= i < address - m.start + bytes.len() {
                    bytes[i - (address - m.start)]
                } else {
                    m.data[i]
                },
        ),
    }
}

pub struct Memory {
    start: usize,
    data: Vec<u8>,
}

impl View for Memory {
    type V = MemView;

    closed spec fn view(&self) -> MemView {
        MemView { start: self.start as int, data: self.data@ }
    }
}

impl Memory {
    pub fn new(start: usize, data: Vec<u8>) -> (r: Self)
        ensures
            r@ == (MemView { start: start as int, data: data@ }),
    {
        Self { start, data }
    }

    pub fn belongs(&self, address: usize, nb_bytes: usize) -> (r: bool)
        ensures
            r == mem_belongs(self@, address as int, nb_bytes as int),
    {
        address >= self.start && nb_bytes <= self.data.len() && address - self.start
            <= self.data.len() - nb_bytes
    }

    pub fn write_8(&mut self, address: usize, value: u8)
        requires
            mem_belongs(old(self)@, address as int, 1),
        ensures
            final(self)@ == mem_store_byte(old(self)@, address as int, value),
    {
        let offset = address - self.start;
        self.data[offset] = value;
    }

    pub fn read_u8(&self, address: usize) -> (r: u8)
        requires
            mem_belongs(self@, address as int, 1),
        ensures
            r == mem_byte(self@, address as int),
    {
        let offset = address - self.start;
        self.data[offset]
    }

    pub fn write_16(&mut self, address: usize, value: u16)
        requires
            mem_belongs(old(self)@, address as int, 2),
        ensures
            final(self)@ == mem_store_u16(old(self)@, address as int, value),
    {
        let offset = address - self.start;
        proof {
            assert(self.data@.len() == self.data.len());
            assert(value & 0xff <= 0xff && (value >> 8u16) & 0xff <= 0xff) by (bit_vector);
        }
        self.data[offset] = (value & 0xff) as u8;
        self.data[offset + 1] = ((value >> 8) & 0xff) as u8;
    }

    pub fn read_u16(&self, address: usize) -> (r: u16)
        requires
            mem_belongs(self@, address as int, 2),
        ensures
            r == mem_read_u16(self@, address as int),
    {
        let offset = address - self.start;
        proof {
            assert(self.data@.len() == self.data.len());
        }
        (self.data[offset + 1] as u16) << 8 | self.data[offset] as u16
    }

    pub fn write_u32(&mut self, address: usize, value: u32)
        requires
            mem_belongs(old(self)@, address as int, 4),
        ensures
            final(self)@ == mem_store_u32(old(self)@, address as int, value),
    {
        let offset = address - self.start;
        proof {
            assert(self.data@.len() == self.data.len());
            assert(value & 0xff <= 0xff && (value >> 8u32) & 0xff <= 0xff && (value >> 16u32)
                & 0xff <= 0xff && (value >> 24u32) & 0xff <= 0xff) by (bit_vector);
        }
        self.data[offset] = (value & 0xff) as u8;
        self.data[offset + 1] = ((value >> 8) & 0xff) as u8;
        self.data[offset + 2] = ((value >> 16) & 0xff) as u8;
        self.data[offset + 3] = ((value >> 24) & 0xff) as u8;
    }

    pub fn read_u32(&self, address: usize) -> (r: u32)
        requires
            mem_belongs(self@, address as int, 4),
        ensures
            r == mem_read_u32(self@, address as int),
    {
        let offset = address - self.start;
        proof {
            assert(self.data@.len() == self.data.len());
        }
        (self.data[offset + 3] as u32) << 24 | (self.data[offset + 2] as u32) << 16 | (self.data[
            offset + 1] as u32) << 8 | self.data[offset] as u32
    }

    pub fn write_n(&mut self, address: usize, bytes: Vec<u8>)
        requires
            mem_belongs(old(self)@, address as int, bytes@.len() as int),
        ensures
            final(self)@ == mem_store_bytes(old(self)@, address as int, bytes@),
    {
        let offset = address - self.start;
        let mut i: usize = 0;
        while i < bytes.len()
            invariant
                mem_belongs(old(self)@, address as int, bytes@.len() as int),
                offset == address - old(self)@.start,
                i <= bytes@.len(),
                self@.start == old(self)@.start,
                self@.data.len() == old(self)@.data.len(),
                forall|j: int|
                    0 <= j < self@.data.len() ==> self@.data[j] == if offset <= j < offset + i {
                        bytes@[j - offset]
                    } else {
                        old(self)@.data[j]
                    },
            decreases bytes@.len() - i,
        {
            proof {
                assert(self.data@.len() == self.data.len());
            }
            self.data[offset + i] = bytes[i];
            i = i + 1;
        }
        proof {
            assert(self@.data =~= mem_store_bytes(old(self)@, address as int, bytes@).data);
        }
    }

    pub fn read_n(&self, address: usize, size: usize) -> (r: Vec<u8>)
        requires
            mem_belongs(self@, address as int, size as int),
        ensures
            r@ == mem_read_bytes(self@, address as int, size as int),
    {
        let offset = address - self.start;
        let mut bytes: Vec<u8> = Vec::new();
        let mut i: usize = 0;
        while i < size
            invariant
                mem_belongs(self@, address as int, size as int),
                offset == address - self@.start,
                i <= size,
                bytes@.len() == i,
                forall|j: int| 0 <= j < i ==> bytes@[j] == self@.data[offset + j],
            decreases size - i,
        {
            proof {
                assert(self.data@.len() == self.data.len());
            }
            bytes.push(self.data[offset + i]);
            i = i + 1;
        }
        proof {
            assert(bytes@ =~= mem_read_bytes(self@, address as int, size as int));
        }
        bytes
    }
}

/// Reading a 32-bit word back from the address it was just stored at yields
/// the stored word: stores and loads round-trip at every valid address.
pub proof fn lemma_read_u32_after_write_u32(m: MemView, address: int, value: u32)
    requires
        mem_belongs(m, address, 4),
    ensures
        mem_read_u32(mem_store_u32(m, address, value), address) == value,
{
    let b0 = u32_byte(value, 0);
    let b1 = u32_byte(value, 1);
    let b2 = u32_byte(value, 2);
    let b3 = u32_byte(value, 3);
    assert(le32(b0, b1, b2, b3) == value) by (bit_vector)
        requires
            b0 == (value & 0xff) as u8,
            b1 == ((value >> 8u32) & 0xff) as u8,
            b2 == ((value >> 16u32) & 0xff) as u8,
            b3 == ((value >> 24u32) & 0xff) as u8,
    ;
}

/// The 16-bit analogue: a store followed by a read at the same valid address
/// yields the stored value.
pub proof fn lemma_read_u16_after_write_u16(m: MemView, address: int, value: u16)
    requires
        mem_belongs(m, address, 2),
    ensures
        mem_read_u16(mem_store_u16(m, address, value), address) == value,
{
    let lo = u16_lo(value);
    let hi = u16_hi(value);
    assert(le16(lo, hi) == value) by (bit_vector)
        requires
            lo == (value & 0xff) as u8,
            hi == ((value >> 8u16) & 0xff) as u8,
    ;
}

/// The 8-bit analogue: a store followed by a read at the same valid address
/// yields the stored byte.
pub proof fn lemma_read_u8_after_write_8(m: MemView, address: int, value: u8)
    requires
        mem_belongs(m, address, 1),
    ensures
        mem_byte(mem_store_byte(m, address, value), address) == value,
{
}

/// A 32-bit store lays its bytes out little-endian: byte `i` of the value
/// lands at `address + i`, least significant byte first.
pub proof fn lemma_write_u32_little_endian(m: MemView, address: int, value: u32, i: int)
    requires
        mem_belongs(m, address, 4),
        0 <= i < 4,
    ensures
        mem_byte(mem_store_u32(m, address, value), address + i) == u32_byte(value, i),
{
}

} // verus!
