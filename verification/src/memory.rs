//! The flat, byte-addressable memory of the machine.

use vstd::prelude::*;
use simple_error::SimpleError;
use crate::error::{
    error_text, range_error, range_message, read16_error, read16_message, write16_error,
    write16_message,
};

verus! {

/// The last address.
pub const MEM_ADDR_MAX: u16 = 0xffff;

/// The number of addresses, and of bytes in memory: 64 KiB.
pub const MEM_ADDR_SPACE_SIZE: usize = 0x1_0000;

/// The 16-bit value whose low byte is `lo` and whose high byte is `hi`.
pub open spec fn word(lo: u8, hi: u8) -> u16 {
    (lo as int + 256 * (hi as int)) as u16
}

/// The low byte of `val`.
pub open spec fn low_byte(val: u16) -> u8 {
    (val % 256) as u8
}

/// The high byte of `val`.
pub open spec fn high_byte(val: u16) -> u8 {
    (val / 256) as u8
}

/// The little-endian 16-bit value that `mem` holds at `addr` and `addr + 1`.
pub open spec fn word_at(mem: Seq<u8>, addr: int) -> u16 {
    word(mem[addr], mem[addr + 1])
}

/// `mem` after `val` is stored, little-endian, at `addr` and `addr + 1`.
pub open spec fn with_word(mem: Seq<u8>, addr: int, val: u16) -> Seq<u8> {
    mem.update(addr, low_byte(val)).update(addr + 1, high_byte(val))
}

/// `mem` after `bytes` are stored one after the other from `start` on: the
/// byte at index `i` of `bytes` lands at address `start + i`, and every
/// address outside the range keeps what it held.
pub open spec fn with_range(mem: Seq<u8>, start: int, bytes: Seq<u8>) -> Seq<u8> {
    Seq::new(
        mem.len(),
        |a: int|
            if start <= a < start + bytes.len() {
                bytes[a - start]
            } else {
                mem[a]
            },
    )
}

/// A value is its high and low bytes put together again.
pub proof fn lemma_word_of_bytes(val: u16)
    ensures
        word(low_byte(val), high_byte(val)) == val,
{
}

/// A 16-bit value that was stored at an address below the last one is read
/// back from there, low byte first.
pub proof fn lemma_write16_read16(mem: Seq<u8>, addr: u16, val: u16)
    requires
        mem.len() == MEM_ADDR_SPACE_SIZE,
        addr < MEM_ADDR_MAX,
    ensures
        word_at(with_word(mem, addr as int, val), addr as int) == val,
        with_word(mem, addr as int, val)[addr as int] == low_byte(val),
        with_word(mem, addr as int, val)[addr + 1] == high_byte(val),
{
    lemma_word_of_bytes(val);
}

/// The memory of the machine: one byte at each of the 65536 addresses.
///
/// The model of a `Mem` is the sequence of its bytes by address.
pub struct Mem {
    data: [u8; MEM_ADDR_SPACE_SIZE],
}

impl View for Mem {
    type V = Seq<u8>;

    open spec fn view(&self) -> Seq<u8> {
        Seq::new(MEM_ADDR_SPACE_SIZE as nat, |a: int| self.byte(a))
    }
}

impl Mem {
    /// The byte at address `addr`.
    pub closed spec fn byte(&self, addr: int) -> u8 {
        self.data@[addr]
    }

    /// A memory that holds zero at every address.
    pub fn new() -> (mem: Mem)
        ensures
            mem@ == Seq::new(MEM_ADDR_SPACE_SIZE as nat, |a: int| 0u8),
            forall|addr: u16| #[trigger] mem@[addr as int] == 0,
    {
        let mem = Mem { data: [0;MEM_ADDR_SPACE_SIZE] };
        assert(mem@ =~= Seq::new(MEM_ADDR_SPACE_SIZE as nat, |a: int| 0u8));
        mem
    }

    /// The byte at `addr`.
    pub fn read(&self, addr: u16) -> (val: u8)
        ensures
            val == self@[addr as int],
    {
        self.data[addr as usize]
    }

    /// The little-endian 16-bit value at `addr` and `addr + 1`. Fails at the
    /// last address, where the high byte would lie outside memory.
    pub fn read16(&self, addr: u16) -> (r: Result<u16, SimpleError>)
        ensures
            r is Err <==> addr == MEM_ADDR_MAX,
            r matches Ok(val) ==> val == word_at(self@, addr as int),
            r matches Err(e) ==> error_text(e) == read16_message(MEM_ADDR_MAX),
    {
        if addr == MEM_ADDR_MAX {
            return Err(read16_error(MEM_ADDR_MAX));
        }
        let lo = self.read(addr) as u16;
        let hi = self.read(addr.wrapping_add(1)) as u16;
        assert((hi << 8) | lo == lo + 256 * hi) by (bit_vector)
            requires
                lo < 256,
                hi < 256,
        ;
        Ok((hi << 8) | lo)
    }

    /// Stores `val` at `addr`.
    pub fn write(&mut self, addr: u16, val: u8)
        ensures
            final(self)@ == old(self)@.update(addr as int, val),
    {
        self.data[addr as usize] = val;
        assert(self@ =~= old(self)@.update(addr as int, val));
    }

    /// Stores `val`, low byte first, at `addr` and `addr + 1`. Fails at the
    /// last address, and then stores nothing.
    pub fn write16(&mut self, addr: u16, val: u16) -> (r: Result<(), SimpleError>)
        ensures
            r is Err <==> addr == MEM_ADDR_MAX,
            r is Ok ==> final(self)@ == with_word(old(self)@, addr as int, val),
            r matches Err(e) ==> final(self)@ == old(self)@ && error_text(e) == write16_message(
                MEM_ADDR_MAX,
            ),
    {
        if addr == MEM_ADDR_MAX {
            return Err(write16_error(MEM_ADDR_MAX));
        }
        let lo = #[verifier::truncate] (val as u8);
        self.write(addr, lo);

        let hi = (val >> 8) as u8;
        self.write(addr.wrapping_add(1), hi);
        assert(lo == low_byte(val) && hi == high_byte(val)) by {
            assert(val as u8 == val % 256) by (bit_vector);
            assert((val >> 8) as u8 == val / 256) by (bit_vector);
        }
        Ok(())
    }

    /// Stores the bytes of `val` one after the other from `start_addr` on.
    /// Fails if they would run past the last address, and then stores
    /// nothing.
    pub fn write_range(&mut self, start_addr: u16, val: &[u8]) -> (r: Result<(), SimpleError>)
        ensures
            r is Err <==> start_addr + val@.len() > MEM_ADDR_SPACE_SIZE,
            r is Ok ==> final(self)@ == with_range(old(self)@, start_addr as int, val@),
            r matches Err(e) ==> final(self)@ == old(self)@ && error_text(e) == range_message(
                start_addr,
                val@.len(),
            ),
    {
        if val.len() > MEM_ADDR_SPACE_SIZE - start_addr as usize {
            return Err(range_error(start_addr, val.len()));
        }
        for i in 0..val.len()
            invariant
                start_addr + val@.len() <= MEM_ADDR_SPACE_SIZE,
                self@ == with_range(old(self)@, start_addr as int, val@.take(i as int)),
        {
            self.write(start_addr + (i as u16), val[i]);
        }
        assert(val@.take(val@.len() as int) =~= val@);
        Ok(())
    }
}

} // verus!
