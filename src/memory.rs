//! Guest linear memory: a flat, byte-addressed array that the host reads and
//! writes on the guest's behalf, trapping on any access out of bounds.
use vstd::prelude::*;

use crate::abi::{Store32, Trap};

verus! {

/// Whether an access of `width` bytes at `ptr` lies inside a memory of
/// `len` bytes.
pub open spec fn in_bounds(len: nat, ptr: int, width: nat) -> bool {
    0 <= ptr && ptr + width <= len
}

/// The four bytes of `v`, least significant first.
pub open spec fn le_bytes(v: u32) -> Seq<u8> {
    seq![v as u8, (v >> 8) as u8, (v >> 16) as u8, (v >> 24) as u8]
}

/// The little-endian word held in the four bytes of `m` from `ptr`.
pub open spec fn word_at(m: Seq<u8>, ptr: int) -> u32 {
    (m[ptr] as u32) | ((m[ptr + 1] as u32) << 8) | ((m[ptr + 2] as u32) << 16) | ((
    m[ptr + 3] as u32) << 24)
}

/// `m` with `bytes` written from `ptr` on; every other byte as it was.
pub open spec fn write_bytes(m: Seq<u8>, ptr: int, bytes: Seq<u8>) -> Seq<u8> {
    Seq::new(
        m.len(),
        |i: int|
            if ptr <= i < ptr + bytes.len() {
                bytes[i - ptr]
            } else {
                m[i]
            },
    )
}

/// Carries out `stores` on `m` in order. The flag is false when a store
/// fell out of bounds: the host trapped there, and the memory is left as
/// the stores before it made it.
pub open spec fn run_stores(m: Seq<u8>, stores: Seq<Store32>) -> (Seq<u8>, bool)
    decreases stores.len(),
{
    if stores.len() == 0 {
        (m, true)
    } else if !in_bounds(m.len(), stores[0].ptr as int, 4) {
        (m, false)
    } else {
        run_stores(write_bytes(m, stores[0].ptr as int, le_bytes(stores[0].value)), stores.drop_first())
    }
}

/// A guest linear memory held in a vector of bytes.
pub struct LinearMemory {
    bytes: Vec<u8>,
}

impl View for LinearMemory {
    type V = Seq<u8>;

    closed spec fn view(&self) -> Seq<u8> {
        self.bytes@
    }
}

impl LinearMemory {
    /// A memory that holds `bytes`, address 0 first.
    pub fn from_bytes(bytes: Vec<u8>) -> (r: LinearMemory)
        ensures
            r@ == bytes@,
    {
        LinearMemory { bytes }
    }

    /// The memory's size in bytes.
    pub fn len(&self) -> (r: usize)
        ensures
            r == self@.len(),
    {
        self.bytes.len()
    }

    /// The memory's contents, address 0 first.
    pub fn as_bytes(&self) -> (r: &Vec<u8>)
        ensures
            r@ == self@,
    {
        &self.bytes
    }

    fn fits(&self, ptr: usize, width: usize) -> (r: bool)
        ensures
            r == in_bounds(self@.len(), ptr as int, width as nat),
            self@.len() <= usize::MAX,
    {
        ptr <= self.bytes.len() && self.bytes.len() - ptr >= width
    }

    /// The byte at `ptr`; a trap when it lies out of bounds.
    pub fn load8(&self, ptr: usize) -> (r: Result<u8, Trap>)
        ensures
            in_bounds(self@.len(), ptr as int, 1) ==> r == Ok::<u8, Trap>(self@[ptr as int]),
            !in_bounds(self@.len(), ptr as int, 1) ==> r == Err::<u8, Trap>(Trap),
    {
        if self.fits(ptr, 1) {
            Ok(self.bytes[ptr])
        } else {
            Err(Trap)
        }
    }

    /// The little-endian word at `ptr`; a trap when any of its four bytes
    /// lies out of bounds.
    pub fn load32(&self, ptr: usize) -> (r: Result<u32, Trap>)
        ensures
            in_bounds(self@.len(), ptr as int, 4) ==> r == Ok::<u32, Trap>(word_at(self@, ptr as int)),
            !in_bounds(self@.len(), ptr as int, 4) ==> r == Err::<u32, Trap>(Trap),
    {
        if self.fits(ptr, 4) {
            let b0 = self.bytes[ptr] as u32;
            let b1 = self.bytes[ptr + 1] as u32;
            let b2 = self.bytes[ptr + 2] as u32;
            let b3 = self.bytes[ptr + 3] as u32;
            Ok(b0 | (b1 << 8) | (b2 << 16) | (b3 << 24))
        } else {
            Err(Trap)
        }
    }

    /// Writes `val` at `ptr`; a trap, with nothing written, when it lies out
    /// of bounds.
    pub fn store8(&mut self, ptr: usize, val: u8) -> (r: Result<(), Trap>)
        ensures
            in_bounds(old(self)@.len(), ptr as int, 1) ==> r is Ok && final(self)@ == old(
                self,
            )@.update(ptr as int, val),
            !in_bounds(old(self)@.len(), ptr as int, 1) ==> r is Err && final(self)@ == old(
                self,
            )@,
    {
        if self.fits(ptr, 1) {
            self.bytes.set(ptr, val);
            Ok(())
        } else {
            Err(Trap)
        }
    }

    /// Writes `val` little-endian at `ptr`; a trap, with nothing written,
    /// when any of its four bytes lies out of bounds.
    pub fn store32(&mut self, ptr: usize, val: u32) -> (r: Result<(), Trap>)
        ensures
            in_bounds(old(self)@.len(), ptr as int, 4) ==> r is Ok && final(self)@ == write_bytes(
                old(self)@,
                ptr as int,
                le_bytes(val),
            ),
            !in_bounds(old(self)@.len(), ptr as int, 4) ==> r is Err && final(self)@ == old(
                self,
            )@,
    {
        if self.fits(ptr, 4) {
            self.bytes.set(ptr, val as u8);
            self.bytes.set(ptr + 1, (val >> 8) as u8);
            self.bytes.set(ptr + 2, (val >> 16) as u8);
            self.bytes.set(ptr + 3, (val >> 24) as u8);
            assert(self@ =~= write_bytes(old(self)@, ptr as int, le_bytes(val)));
            Ok(())
        } else {
            Err(Trap)
        }
    }

    /// Carries out `stores` in order, as the host does for a reply; stops
    /// with a trap at the first store out of bounds.
    pub fn perform(&mut self, stores: &Vec<Store32>) -> (r: Result<(), Trap>)
        ensures
            r is Ok == run_stores(old(self)@, stores@).1,
            final(self)@ == run_stores(old(self)@, stores@).0,
    {
        let n = stores.len();
        let mut i: usize = 0;
        assert(stores@.skip(0) =~= stores@);
        while i < n
            invariant
                n == stores@.len(),
                0 <= i <= n,
                run_stores(old(self)@, stores@) == run_stores(self@, stores@.skip(i as int)),
            decreases n - i,
        {
            let s = stores[i];
            assert(stores@.skip(i as int).drop_first() =~= stores@.skip(i + 1));
            match self.store32(s.ptr, s.value) {
                Ok(()) => {},
                Err(t) => {
                    return Err(t);
                },
            }
            i = i + 1;
        }
        assert(stores@.skip(n as int) =~= Seq::<Store32>::empty());
        Ok(())
    }
}

} // verus!
