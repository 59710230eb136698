use vstd::prelude::*;
use crate::constants::{DEFAULT_MEMORY_SIZE, MAX_MEMORY_SIZE};

verus! {

/// Why a memory access, or the construction of a memory, was refused.
#[derive(Debug, PartialEq)]
pub enum MemoryError {
    OutOfBounds { addr: u32, size: usize },
    UnalignedAccess { addr: u32, align: u32 },
}

/// The `k`-th byte (0 is the least significant) of `value`.
pub open spec fn le_byte(value: u32, k: int) -> u8 {
    if k == 0 {
        (value & 0xff) as u8
    } else if k == 1 {
        ((value >> 8) & 0xff) as u8
    } else if k == 2 {
        ((value >> 16) & 0xff) as u8
    } else {
        ((value >> 24) & 0xff) as u8
    }
}

/// The word made of four bytes, `b0` being the least significant.
pub open spec fn le_word(b0: u8, b1: u8, b2: u8, b3: u8) -> u32 {
    (b0 as u32) | ((b1 as u32) << 8) | ((b2 as u32) << 16) | ((b3 as u32) << 24)
}

/// The little-endian word that the four bytes of `bytes` from `addr` on hold.
pub open spec fn word_at(bytes: Seq<u8>, addr: int) -> u32
    recommends
        0 <= addr,
        addr + 4 <= bytes.len(),
{
    le_word(bytes[addr], bytes[addr + 1], bytes[addr + 2], bytes[addr + 3])
}

/// `bytes` with the four bytes from `addr` on replaced by `value`, little-endian.
pub open spec fn write_word(bytes: Seq<u8>, addr: int, value: u32) -> Seq<u8>
    recommends
        0 <= addr,
        addr + 4 <= bytes.len(),
{
    Seq::new(
        bytes.len(),
        |i: int|
            if addr <= i < addr + 4 {
                le_byte(value, i - addr)
            } else {
                bytes[i]
            },
    )
}

/// Whether a word access at `addr` lies outside a memory of `size` bytes.
pub open spec fn word_out_of_bounds(addr: u32, size: int) -> bool {
    addr + 4 > size
}

/// Whether a word access at `addr` is inside a memory of `size` bytes and aligned.
pub open spec fn word_access_ok(addr: u32, size: int) -> bool {
    addr + 4 <= size && addr % 4 == 0
}

/// What a word access at `addr` is refused with, where it is refused.
pub open spec fn word_access_error(addr: u32, size: nat) -> MemoryError {
    if word_out_of_bounds(addr, size as int) {
        MemoryError::OutOfBounds { addr, size: size as usize }
    } else {
        MemoryError::UnalignedAccess { addr, align: 4 }
    }
}

/// What reading a word at `addr` from a memory holding `bytes` gives.
pub open spec fn load_word_spec(bytes: Seq<u8>, addr: u32) -> Result<u32, MemoryError> {
    if word_access_ok(addr, bytes.len() as int) {
        Ok(word_at(bytes, addr as int))
    } else {
        Err(word_access_error(addr, bytes.len()))
    }
}

/// A byte-addressable memory whose size is fixed when it is made.
#[derive(Debug)]
pub struct Memory {
    data: Vec<u8>,
    size: usize,
}

impl View for Memory {
    type V = Seq<u8>;

    closed spec fn view(&self) -> Seq<u8> {
        self.data@
    }
}

impl Memory {
    #[verifier::type_invariant]
    spec fn inv(&self) -> bool {
        &&& self.data@.len() == self.size
        &&& 1 <= self.size <= MAX_MEMORY_SIZE
    }

    /// A zeroed memory of `size` bytes; refused unless `1 <= size <= MAX_MEMORY_SIZE`.
    pub fn new(size: usize) -> (r: Result<Self, MemoryError>)
        ensures
            1 <= size <= MAX_MEMORY_SIZE ==> r is Ok && r->Ok_0@ =~= Seq::new(
                size as nat,
                |i: int| 0u8,
            ),
            !(1 <= size <= MAX_MEMORY_SIZE) ==> r == Err::<Self, MemoryError>(
                MemoryError::OutOfBounds { addr: size as u32, size: MAX_MEMORY_SIZE },
            ),
    {
        if size == 0 || size > MAX_MEMORY_SIZE {
            return Err(
                MemoryError::OutOfBounds {
                    addr: #[verifier::truncate]
                    (size as u32),
                    size: MAX_MEMORY_SIZE,
                },
            );
        }
        let data: Vec<u8> = vec![0u8; size];
        Ok(Memory { data, size })
    }

    /// The number of bytes this memory holds.
    pub fn size(&self) -> (r: usize)
        ensures
            r == self@.len(),
            1 <= r <= MAX_MEMORY_SIZE,
    {
        proof {
            use_type_invariant(self);
        }
        self.size
    }

    /// Reads the instruction word at `addr`: `load_word` under another name.
    pub fn fetch(&self, addr: u32) -> (r: Result<u32, MemoryError>)
        ensures
            r == load_word_spec(self@, addr),
    {
        self.load_word(addr)
    }

    /// Reads the little-endian word at `addr`, which must be in bounds and a multiple of 4.
    pub fn load_word(&self, addr: u32) -> (r: Result<u32, MemoryError>)
        ensures
            r == load_word_spec(self@, addr),
    {
        proof {
            use_type_invariant(self);
        }
        let a: usize = addr as usize;
        if self.size < 4 || a > self.size - 4 {
            return Err(MemoryError::OutOfBounds { addr, size: self.size });
        }
        if a % 4 != 0 {
            return Err(MemoryError::UnalignedAccess { addr, align: 4 });
        }
        let b0: u8 = self.data[a];
        let b1: u8 = self.data[a + 1];
        let b2: u8 = self.data[a + 2];
        let b3: u8 = self.data[a + 3];
        let word: u32 = (b0 as u32) | ((b1 as u32) << 8) | ((b2 as u32) << 16) | ((b3 as u32)
            << 24);
        Ok(word)
    }

    /// Writes `value` at `addr`, little-endian; on a refusal nothing is changed.
    pub fn store_word(&mut self, addr: u32, value: u32) -> (r: Result<(), MemoryError>)
        ensures
            word_access_ok(addr, old(self)@.len() as int) ==> r is Ok && final(self)@
                == write_word(old(self)@, addr as int, value),
            !word_access_ok(addr, old(self)@.len() as int) ==> r == Err::<(), MemoryError>(
                word_access_error(addr, old(self)@.len()),
            ) && final(self)@ == old(self)@,
    {
        proof {
            use_type_invariant(&*self);
        }
        let a: usize = addr as usize;
        if self.size < 4 || a > self.size - 4 {
            return Err(MemoryError::OutOfBounds { addr, size: self.size });
        }
        if a % 4 != 0 {
            return Err(MemoryError::UnalignedAccess { addr, align: 4 });
        }
        let b0: u8 = (value & 0xff) as u8;
        let b1: u8 = ((value >> 8) & 0xff) as u8;
        let b2: u8 = ((value >> 16) & 0xff) as u8;
        let b3: u8 = ((value >> 24) & 0xff) as u8;
        self.data[a] = b0;
        self.data[a + 1] = b1;
        self.data[a + 2] = b2;
        self.data[a + 3] = b3;
        assert(self@ =~= write_word(old(self)@, addr as int, value));
        Ok(())
    }

    /// Reads the byte at `addr`, which must be in bounds.
    pub fn load_byte(&self, addr: u32) -> (r: Result<u8, MemoryError>)
        ensures
            addr < self@.len() ==> r == Ok::<u8, MemoryError>(self@[addr as int]),
            addr >= self@.len() ==> r == Err::<u8, MemoryError>(
                MemoryError::OutOfBounds { addr, size: self@.len() as usize },
            ),
    {
        proof {
            use_type_invariant(self);
        }
        let a: usize = addr as usize;
        if a >= self.size {
            return Err(MemoryError::OutOfBounds { addr, size: self.size });
        }
        Ok(self.data[a])
    }

    /// Writes `value` at `addr`, which must be in bounds; on a refusal nothing is changed.
    pub fn store_byte(&mut self, addr: u32, value: u8) -> (r: Result<(), MemoryError>)
        ensures
            addr < old(self)@.len() ==> r is Ok && final(self)@ == old(self)@.update(
                addr as int,
                value,
            ),
            addr >= old(self)@.len() ==> r == Err::<(), MemoryError>(
                MemoryError::OutOfBounds { addr, size: old(self)@.len() as usize },
            ) && final(self)@ == old(self)@,
    {
        proof {
            use_type_invariant(&*self);
        }
        let a: usize = addr as usize;
        if a >= self.size {
            return Err(MemoryError::OutOfBounds { addr, size: self.size });
        }
        self.data[a] = value;
        Ok(())
    }
}

impl Default for Memory {
    fn default() -> (r: Self)
        ensures
            r@ =~= Seq::new(DEFAULT_MEMORY_SIZE as nat, |i: int| 0u8),
    {
        Memory::new(DEFAULT_MEMORY_SIZE).unwrap()
    }
}

/// The four bytes of a word, put together again, give the word.
pub proof fn lemma_le_bytes_roundtrip(value: u32)
    ensures
        le_word(le_byte(value, 0), le_byte(value, 1), le_byte(value, 2), le_byte(value, 3))
            == value,
{
    assert(((value & 0xff) as u8 as u32) | ((((value >> 8) & 0xff) as u8 as u32) << 8) | ((((value
        >> 16) & 0xff) as u8 as u32) << 16) | ((((value >> 24) & 0xff) as u8 as u32) << 24)
        == value) by (bit_vector);
}

/// A word stored at an aligned address in bounds is the word that a load
/// from the same address then returns.
pub proof fn lemma_store_then_load(bytes: Seq<u8>, addr: u32, value: u32)
    requires
        word_access_ok(addr, bytes.len() as int),
    ensures
        load_word_spec(write_word(bytes, addr as int, value), addr) == Ok::<u32, MemoryError>(
            value,
        ),
{
    lemma_le_bytes_roundtrip(value);
}

/// A word access at or beyond the end of memory is refused as out of
/// bounds, whatever its alignment, with the address and the memory's size.
pub proof fn lemma_word_access_beyond_end(bytes: Seq<u8>, addr: u32)
    requires
        addr >= bytes.len(),
    ensures
        load_word_spec(bytes, addr) == Err::<u32, MemoryError>(
            MemoryError::OutOfBounds { addr, size: bytes.len() as usize },
        ),
        !word_access_ok(addr, bytes.len() as int),
        word_access_error(addr, bytes.len()) == (MemoryError::OutOfBounds {
            addr,
            size: bytes.len() as usize,
        }),
{
}

/// A word access that fits in memory but is not at a multiple of 4 is
/// refused as unaligned, with the address and the alignment 4.
pub proof fn lemma_word_access_unaligned(bytes: Seq<u8>, addr: u32)
    requires
        addr + 4 <= bytes.len(),
        addr % 4 != 0,
    ensures
        load_word_spec(bytes, addr) == Err::<u32, MemoryError>(
            MemoryError::UnalignedAccess { addr, align: 4 },
        ),
        !word_access_ok(addr, bytes.len() as int),
        word_access_error(addr, bytes.len()) == (MemoryError::UnalignedAccess {
            addr,
            align: 4,
        }),
{
}

} // verus!
