//! The reference addressable device: a flat byte array with bounds-checked,
//! alignment-checked little-endian byte/half/word access, plus the big-endian
//! half-word read used by instruction fetch.

use vstd::prelude::*;

verus! {

/// Error taxonomy at the bus level.  Every device operation either succeeds
/// or reports one of these.
#[derive(Clone, Copy, Debug, PartialEq, Eq, Structural)]
pub enum BusError {
    AccessViolation,
    AlignmentCheck,
    InvalidAddress,
}

/// Result of reading one byte at `addr` from contents `m`: the byte itself,
/// or `InvalidAddress` past the end.
pub open spec fn mem_read_b_spec(m: Seq<u8>, addr: u32) -> Result<u8, BusError> {
    if addr as int >= m.len() {
        Err(BusError::InvalidAddress)
    } else {
        Ok(m[addr as int])
    }
}

/// Little-endian half-word read: low byte at `addr`, high byte at `addr + 1`.
/// Range is checked before alignment, as the device does.
pub open spec fn mem_read_h_spec(m: Seq<u8>, addr: u32) -> Result<u16, BusError> {
    if addr as int + 1 >= m.len() {
        Err(BusError::InvalidAddress)
    } else if addr % 2 != 0 {
        Err(BusError::AlignmentCheck)
    } else {
        Ok(((m[addr as int + 1] as u16) << 8) | (m[addr as int] as u16))
    }
}

/// Big-endian half-word read for instruction fetch: high byte at `addr`,
/// low byte at `addr + 1`.  No alignment requirement: instructions are
/// half-word aligned only by convention.
pub open spec fn mem_read_h_big_spec(m: Seq<u8>, addr: u32) -> Result<u16, BusError> {
    if addr as int + 1 >= m.len() {
        Err(BusError::InvalidAddress)
    } else {
        Ok(((m[addr as int] as u16) << 8) | (m[addr as int + 1] as u16))
    }
}

/// Little-endian word read: least-significant byte at the lowest address.
pub open spec fn mem_read_w_spec(m: Seq<u8>, addr: u32) -> Result<u32, BusError> {
    if addr as int + 3 >= m.len() {
        Err(BusError::InvalidAddress)
    } else if addr % 4 != 0 {
        Err(BusError::AlignmentCheck)
    } else {
        Ok(((m[addr as int + 3] as u32) << 24) | ((m[addr as int + 2] as u32) << 16)
            | ((m[addr as int + 1] as u32) << 8) | (m[addr as int] as u32))
    }
}

/// Byte write: the new contents on success, the untouched error otherwise.
pub open spec fn mem_write_b_spec(m: Seq<u8>, addr: u32, data: u8) -> Result<Seq<u8>, BusError> {
    if addr as int >= m.len() {
        Err(BusError::InvalidAddress)
    } else {
        Ok(m.update(addr as int, data))
    }
}

/// Little-endian half-word write.
pub open spec fn mem_write_h_spec(m: Seq<u8>, addr: u32, data: u16) -> Result<Seq<u8>, BusError> {
    if addr as int + 1 >= m.len() {
        Err(BusError::InvalidAddress)
    } else if addr % 2 != 0 {
        Err(BusError::AlignmentCheck)
    } else {
        Ok(m.update(addr as int + 1, ((data >> 8) & 0xFF) as u8).update(addr as int, (data & 0xFF) as u8))
    }
}

/// Little-endian word write.
pub open spec fn mem_write_w_spec(m: Seq<u8>, addr: u32, data: u32) -> Result<Seq<u8>, BusError> {
    if addr as int + 3 >= m.len() {
        Err(BusError::InvalidAddress)
    } else if addr % 4 != 0 {
        Err(BusError::AlignmentCheck)
    } else {
        Ok(m.update(addr as int + 3, ((data >> 24) & 0xFF) as u8)
            .update(addr as int + 2, ((data >> 16) & 0xFF) as u8)
            .update(addr as int + 1, ((data >> 8) & 0xFF) as u8)
            .update(addr as int, (data & 0xFF) as u8))
    }
}

/// The uniform six-operation device interface (plus the fetch-style
/// big-endian half read).  `contents` is the abstract byte string a device
/// presents; every operation is pinned to it.
pub trait Memory32: Sized {
    spec fn contents(&self) -> Seq<u8>;

    fn read_b(&self, addr: u32) -> (r: Result<u8, BusError>)
        ensures
            r == mem_read_b_spec(self.contents(), addr),
    ;

    fn read_h(&self, addr: u32) -> (r: Result<u16, BusError>)
        ensures
            r == mem_read_h_spec(self.contents(), addr),
    ;

    fn read_h_big(&self, addr: u32) -> (r: Result<u16, BusError>)
        ensures
            r == mem_read_h_big_spec(self.contents(), addr),
    ;

    fn read_w(&self, addr: u32) -> (r: Result<u32, BusError>)
        ensures
            r == mem_read_w_spec(self.contents(), addr),
    ;

    fn write_b(&mut self, addr: u32, data: u8) -> (r: Result<(), BusError>)
        ensures
            (match mem_write_b_spec(old(self).contents(), addr, data) {
                Ok(m2) => r is Ok && final(self).contents() == m2,
                Err(e) => r == Err::<(), BusError>(e) && final(self).contents() == old(self).contents(),
            }),
    ;

    fn write_h(&mut self, addr: u32, data: u16) -> (r: Result<(), BusError>)
        ensures
            (match mem_write_h_spec(old(self).contents(), addr, data) {
                Ok(m2) => r is Ok && final(self).contents() == m2,
                Err(e) => r == Err::<(), BusError>(e) && final(self).contents() == old(self).contents(),
            }),
    ;

    fn write_w(&mut self, addr: u32, data: u32) -> (r: Result<(), BusError>)
        ensures
            (match mem_write_w_spec(old(self).contents(), addr, data) {
                Ok(m2) => r is Ok && final(self).contents() == m2,
                Err(e) => r == Err::<(), BusError>(e) && final(self).contents() == old(self).contents(),
            }),
    ;
}

/// The reference memory device is a plain byte vector.
impl Memory32 for Vec<u8> {
    open spec fn contents(&self) -> Seq<u8> {
        self@
    }

    fn read_b(&self, addr: u32) -> (r: Result<u8, BusError>) {
        if addr as usize >= self.len() {
            Err(BusError::InvalidAddress)
        } else {
            Ok(self[addr as usize])
        }
    }

    fn read_h(&self, addr: u32) -> (r: Result<u16, BusError>) {
        if addr as u64 + 1 >= self.len() as u64 {
            Err(BusError::InvalidAddress)
        } else if addr % 2 != 0 {
            Err(BusError::AlignmentCheck)
        } else {
            Ok(((self[(addr + 1) as usize] as u16) << 8) | (self[addr as usize] as u16))
        }
    }

    fn read_h_big(&self, addr: u32) -> (r: Result<u16, BusError>) {
        if addr as u64 + 1 >= self.len() as u64 {
            Err(BusError::InvalidAddress)
        } else {
            Ok(((self[addr as usize] as u16) << 8) | (self[addr as usize + 1] as u16))
        }
    }

    fn read_w(&self, addr: u32) -> (r: Result<u32, BusError>) {
        if addr as u64 + 3 >= self.len() as u64 {
            Err(BusError::InvalidAddress)
        } else if addr % 4 != 0 {
            Err(BusError::AlignmentCheck)
        } else {
            Ok(((self[(addr + 3) as usize] as u32) << 24) | ((self[(addr + 2) as usize] as u32) << 16)
                | ((self[(addr + 1) as usize] as u32) << 8) | (self[addr as usize] as u32))
        }
    }

    fn write_b(&mut self, addr: u32, data: u8) -> (r: Result<(), BusError>) {
        if addr as usize >= self.len() {
            Err(BusError::InvalidAddress)
        } else {
            self.set(addr as usize, data);
            Ok(())
        }
    }

    fn write_h(&mut self, addr: u32, data: u16) -> (r: Result<(), BusError>) {
        if addr as u64 + 1 >= self.len() as u64 {
            Err(BusError::InvalidAddress)
        } else if addr % 2 != 0 {
            Err(BusError::AlignmentCheck)
        } else {
            self.set((addr + 1) as usize, ((data >> 8) & 0xFF) as u8);
            self.set(addr as usize, (data & 0xFF) as u8);
            Ok(())
        }
    }

    fn write_w(&mut self, addr: u32, data: u32) -> (r: Result<(), BusError>) {
        if addr as u64 + 3 >= self.len() as u64 {
            Err(BusError::InvalidAddress)
        } else if addr % 4 != 0 {
            Err(BusError::AlignmentCheck)
        } else {
            self.set((addr + 3) as usize, ((data >> 24) & 0xFF) as u8);
            self.set((addr + 2) as usize, ((data >> 16) & 0xFF) as u8);
            self.set((addr + 1) as usize, ((data >> 8) & 0xFF) as u8);
            self.set(addr as usize, (data & 0xFF) as u8);
            Ok(())
        }
    }
}

/// Writing a word `w` at an aligned address and then reading any of its four
/// bytes yields the corresponding byte of `w`: little-endian accesses are
/// consistent with each other.
pub proof fn lemma_word_bytes_consistent(m: Seq<u8>, addr: u32, w: u32, k: u32)
    requires
        mem_write_w_spec(m, addr, w) is Ok,
        k < 4,
    ensures
        mem_read_b_spec(mem_write_w_spec(m, addr, w).unwrap(), (addr + k) as u32)
            == Ok::<u8, BusError>(((w >> (8 * k)) & 0xFF) as u8),
{
    let m2 = mem_write_w_spec(m, addr, w).unwrap();
    assert(addr as int + 3 < m.len() && addr % 4 == 0);
    assert(m2.len() == m.len());
    if k == 0 {
        assert(m2[addr as int] == (w & 0xFF) as u8);
        assert((w & 0xFF) as u8 == ((w >> (8 * 0)) & 0xFF) as u8) by (bit_vector);
    } else if k == 1 {
        assert(m2[addr as int + 1] == ((w >> 8) & 0xFF) as u8);
        assert(((w >> 8) & 0xFF) as u8 == ((w >> (8 * 1)) & 0xFF) as u8) by (bit_vector);
    } else if k == 2 {
        assert(m2[addr as int + 2] == ((w >> 16) & 0xFF) as u8);
        assert(((w >> 16) & 0xFF) as u8 == ((w >> (8 * 2)) & 0xFF) as u8) by (bit_vector);
    } else {
        assert(m2[addr as int + 3] == ((w >> 24) & 0xFF) as u8);
        assert(((w >> 24) & 0xFF) as u8 == ((w >> (8 * 3)) & 0xFF) as u8) by (bit_vector);
    }
}

/// Writing bytes `hi` then `lo` at consecutive addresses composes into the
/// big-endian half-word `(hi << 8) | lo` under the fetch-style read.
pub proof fn lemma_fetch_composition(m: Seq<u8>, addr: u32, hi: u8, lo: u8)
    requires
        addr < 0xFFFFFFFFu32,
        addr as int + 1 < m.len(),
    ensures
        mem_read_h_big_spec(
            mem_write_b_spec(mem_write_b_spec(m, addr, hi).unwrap(), (addr + 1) as u32, lo).unwrap(),
            addr,
        ) == Ok::<u16, BusError>(((hi as u16) << 8) | (lo as u16)),
{
}

/// Writing a word and reading it back at the same aligned address returns the
/// word unchanged.
pub proof fn lemma_word_round_trip(m: Seq<u8>, addr: u32, w: u32)
    requires
        mem_write_w_spec(m, addr, w) is Ok,
    ensures
        mem_read_w_spec(mem_write_w_spec(m, addr, w).unwrap(), addr) == Ok::<u32, BusError>(w),
{
    let m2 = mem_write_w_spec(m, addr, w).unwrap();
    assert(m2[addr as int] == (w & 0xFF) as u8);
    assert(m2[addr as int + 1] == ((w >> 8) & 0xFF) as u8);
    assert(m2[addr as int + 2] == ((w >> 16) & 0xFF) as u8);
    assert(m2[addr as int + 3] == ((w >> 24) & 0xFF) as u8);
    assert(((((w >> 24) & 0xFF) as u8 as u32) << 24) | ((((w >> 16) & 0xFF) as u8 as u32) << 16)
        | ((((w >> 8) & 0xFF) as u8 as u32) << 8) | ((w & 0xFF) as u8 as u32) == w) by (bit_vector);
}

/// A successful word write leaves any word read over a disjoint byte range
/// unchanged.
pub proof fn lemma_mem_write_w_frame(m: Seq<u8>, a: u32, w: u32, b: u32)
    requires
        mem_write_w_spec(m, a, w) is Ok,
        b as int + 4 <= a as int || a as int + 4 <= b as int,
    ensures
        mem_read_w_spec(mem_write_w_spec(m, a, w).unwrap(), b) == mem_read_w_spec(m, b),
{
}

} // verus!
