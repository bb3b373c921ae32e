//! A byte-exact model of one mapped page of the target's address space.
//!
//! Target addresses are arbitrary and validity is only ever decided by the
//! kernel, so the transfer semantics—what a read must place in the buffer,
//! what a write must leave in the target, and when each is owed success—are
//! stated and proved here over a model page: a contiguous mapped range of the
//! target's memory with its protection.  The model is what the capability
//! contracts promise of the real primitives; it is also directly executable,
//! so the laws proved of it can be exercised by ordinary tests.

use vstd::prelude::*;

use crate::error::{Error, KERN_INVALID_ADDRESS, KERN_PROTECTION_FAILURE};

verus! {

/// One mapped region of the target process's address space: the bytes that
/// currently sit at `base`, and whether the page protection allows writing.
/// (A mapped page is always readable here; an unmapped address is simply one
/// outside the region.)
pub struct TargetPage {
    /// The virtual address of the first mapped byte.
    pub base: usize,
    /// The bytes of the region, `bytes[i]` sitting at address `base + i`.
    pub bytes: Vec<u8>,
    /// Whether the region's protection permits writing.
    pub writable: bool,
}

impl TargetPage {
    /// The `len` bytes starting at `addr` all lie inside the mapped region.
    pub open spec fn contains_range(self, addr: usize, len: nat) -> bool {
        self.base <= addr && addr + len <= self.base + self.bytes@.len()
    }

    /// The index into `bytes` at which address `addr` sits.
    pub open spec fn offset_of(self, addr: usize) -> int {
        addr - self.base
    }

    /// Copy exactly `buf.len()` bytes starting at `addr` in the region into
    /// `buf`, or fail.
    ///
    /// The copy succeeds exactly when the requested range is mapped (a
    /// zero-byte request succeeds trivially and moves nothing); on success
    /// the buffer holds precisely the bytes sitting at that address.  On
    /// failure the buffer is left untouched—in particular, a failure never
    /// surfaces as a partially filled buffer reported as success.
    pub fn copy_address(&self, addr: usize, buf: &mut Vec<u8>) -> (r: Result<(), Error>)
        ensures
            final(buf)@.len() == old(buf)@.len(),
            r.is_ok() <==> (old(buf)@.len() == 0 || self.contains_range(addr, old(buf)@.len())),
            r.is_ok() && self.contains_range(addr, old(buf)@.len()) ==> final(buf)@ == bytes_read(
                self.bytes@,
                self.offset_of(addr),
                old(buf)@.len(),
            ),
            old(buf)@.len() == 0 ==> final(buf)@ == old(buf)@,
            r.is_err() ==> r == Err::<(), Error>(Error::OsError(KERN_INVALID_ADDRESS)),
            r.is_err() ==> final(buf)@ == old(buf)@,
    {
        let len = buf.len();
        if len == 0 {
            return Ok(());
        }
        if addr < self.base {
            return Err(Error::OsError(KERN_INVALID_ADDRESS));
        }
        let off = addr - self.base;
        if self.bytes.len() < len || off > self.bytes.len() - len {
            return Err(Error::OsError(KERN_INVALID_ADDRESS));
        }
        let mut i: usize = 0;
        while i < len
            invariant
                i <= len,
                len == old(buf)@.len(),
                buf@.len() == len,
                self.base <= addr,
                off == addr - self.base,
                off + len <= self.bytes@.len(),
                off + len <= usize::MAX,
                forall|j: int| 0 <= j < i ==> buf@[j] == self.bytes@[off + j],
            decreases len - i,
        {
            buf[i] = self.bytes[off + i];
            i += 1;
        }
        proof {
            assert(buf@ =~= bytes_read(self.bytes@, self.offset_of(addr), old(buf)@.len()));
        }
        Ok(())
    }

    /// Write exactly `buf.len()` bytes from `buf` into the region starting
    /// at `addr`, or fail.
    ///
    /// The write succeeds exactly when the requested range is mapped and the
    /// protection permits writing (a zero-byte request succeeds trivially);
    /// on success the written range holds the bytes of `buf` and every other
    /// byte of the region is untouched.  On failure the region is left
    /// unchanged: an unmapped range fails as an invalid address, a mapped
    /// but write-protected range as a protection failure.
    pub fn put_address(&mut self, addr: usize, buf: &Vec<u8>) -> (r: Result<(), Error>)
        ensures
            final(self).base == old(self).base,
            final(self).writable == old(self).writable,
            final(self).bytes@.len() == old(self).bytes@.len(),
            r.is_ok() <==> (buf@.len() == 0 || (old(self).contains_range(addr, buf@.len())
                && old(self).writable)),
            r.is_ok() && old(self).contains_range(addr, buf@.len()) ==> final(self).bytes@
                == bytes_after_write(old(self).bytes@, old(self).offset_of(addr), buf@),
            buf@.len() == 0 ==> final(self).bytes@ == old(self).bytes@,
            r.is_err() ==> final(self).bytes@ == old(self).bytes@,
            buf@.len() > 0 && !old(self).contains_range(addr, buf@.len()) ==> r == Err::<
                (),
                Error,
            >(Error::OsError(KERN_INVALID_ADDRESS)),
            buf@.len() > 0 && old(self).contains_range(addr, buf@.len()) && !old(self).writable
                ==> r == Err::<(), Error>(Error::OsError(KERN_PROTECTION_FAILURE)),
    {
        let len = buf.len();
        if len == 0 {
            return Ok(());
        }
        if addr < self.base {
            return Err(Error::OsError(KERN_INVALID_ADDRESS));
        }
        let off = addr - self.base;
        if self.bytes.len() < len || off > self.bytes.len() - len {
            return Err(Error::OsError(KERN_INVALID_ADDRESS));
        }
        if !self.writable {
            return Err(Error::OsError(KERN_PROTECTION_FAILURE));
        }
        let ghost bytes0 = self.bytes@;
        let ghost base0 = self.base;
        let ghost w0 = self.writable;
        let mut i: usize = 0;
        while i < len
            invariant
                i <= len,
                len == buf@.len(),
                self.base == base0,
                self.writable == w0,
                self.bytes@.len() == bytes0.len(),
                off + len <= bytes0.len(),
                off + len <= usize::MAX,
                forall|j: int| 0 <= j < i ==> self.bytes@[off + j] == buf@[j],
                forall|j: int|
                    0 <= j < bytes0.len() && !(off <= j < off + i) ==> self.bytes@[j] == bytes0[j],
            decreases len - i,
        {
            self.bytes[off + i] = buf[i];
            i += 1;
        }
        proof {
            assert(self.bytes@ =~= bytes_after_write(bytes0, off as int, buf@));
        }
        Ok(())
    }
}

/// The bytes a read of `len` bytes at offset `off` yields from a region
/// holding `bytes`.
pub open spec fn bytes_read(bytes: Seq<u8>, off: int, len: nat) -> Seq<u8> {
    bytes.subrange(off, off + len)
}

/// The bytes a region holding `bytes` holds after `data` is written at
/// offset `off`: the written range replaced, everything else untouched.
pub open spec fn bytes_after_write(bytes: Seq<u8>, off: int, data: Seq<u8>) -> Seq<u8> {
    bytes.subrange(0, off) + data + bytes.subrange(off + data.len(), bytes.len() as int)
}

/// Round-trip law: a successful `put_address` followed immediately by a
/// `copy_address` of the same length at the same address succeeds and yields
/// exactly the bytes just written (assuming nothing else mutates the target
/// in between).
///
/// `before` is the page as it stood when the write was issued and `after` is
/// the page the write's contract leaves behind; the conclusion is stated over
/// the same spec functions the two contracts use, so it composes directly
/// with them: the range is still mapped in `after`, hence the read is owed
/// success, and what it is owed is `data`.
pub proof fn lemma_put_then_copy_round_trip(
    before: TargetPage,
    after: TargetPage,
    addr: usize,
    data: Seq<u8>,
)
    requires
        before.writable,
        before.contains_range(addr, data.len()),
        after.base == before.base,
        after.bytes@ == bytes_after_write(before.bytes@, before.offset_of(addr), data),
    ensures
        after.bytes@.len() == before.bytes@.len(),
        after.contains_range(addr, data.len()),
        bytes_read(after.bytes@, after.offset_of(addr), data.len()) == data,
{
    assert(bytes_read(after.bytes@, after.offset_of(addr), data.len()) =~= data);
}

} // verus!
