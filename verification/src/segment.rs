//! Bookkeeping model of an OS shared-memory segment: a byte capacity that
//! only ever grows, a logical in-use length, and the pixel contents of the
//! in-use prefix.  The process-level mapping and the descriptor shared with
//! the display server are handled by the unverified shell around the
//! library; every sizing decision is made and checked here.

use vstd::prelude::*;

verus! {

/// A growable anonymously-backed memory region, used as packed pixels.
///
/// `size` is the byte capacity the segment was created with; `buffer_size`
/// is the prefix in logical use, always a whole number of four-byte pixels
/// and never more than the capacity.
#[derive(Debug)]
pub struct ShmSegment {
    size: usize,
    buffer_size: usize,
    pixels: Vec<u32>,
}

impl ShmSegment {
    /// The in-use prefix is whole pixels and fits the capacity.
    pub closed spec fn wf(self) -> bool {
        &&& self.buffer_size == self.pixels@.len() * 4
        &&& self.buffer_size <= self.size
    }

    /// Byte capacity of the segment.
    pub closed spec fn spec_size(self) -> nat {
        self.size as nat
    }

    /// Bytes of the segment in logical use.
    pub closed spec fn spec_buffer_size(self) -> nat {
        self.buffer_size as nat
    }

    /// The pixels of the in-use prefix.
    pub closed spec fn spec_pixels(self) -> Seq<u32> {
        self.pixels@
    }

    /// Create a segment of `size` bytes, `buffer_size` of them in use.
    /// A freshly created OS memory object reads as zeroes.
    pub fn new(size: usize, buffer_size: usize) -> (s: Self)
        requires
            buffer_size <= size,
            buffer_size % 4 == 0,
        ensures
            s.wf(),
            s.spec_size() == size,
            s.spec_buffer_size() == buffer_size,
            s.spec_pixels() =~= Seq::new((buffer_size / 4) as nat, |i: int| 0u32),
    {
        let count = buffer_size / 4;
        let pixels = vec![0u32; count];
        ShmSegment { size, buffer_size, pixels }
    }

    /// Byte capacity.
    pub fn size(&self) -> (r: usize)
        ensures
            r == self.spec_size(),
    {
        self.size
    }

    /// Bytes in logical use.
    pub fn buffer_size(&self) -> (r: usize)
        ensures
            r == self.spec_buffer_size(),
    {
        self.buffer_size
    }

    /// Narrow or widen the in-use prefix without reallocating.  Pixels up to
    /// the smaller of the old and new lengths are preserved; nothing is said
    /// of newly exposed pixels.
    pub fn set_buffer_size(&mut self, buffer_size: usize)
        requires
            old(self).wf(),
            buffer_size <= old(self).spec_size(),
            buffer_size % 4 == 0,
        ensures
            final(self).wf(),
            final(self).spec_size() == old(self).spec_size(),
            final(self).spec_buffer_size() == buffer_size,
            final(self).spec_pixels().len() == buffer_size / 4,
            forall|i: int|
                0 <= i < final(self).spec_pixels().len() && i < old(self).spec_pixels().len()
                    ==> final(self).spec_pixels()[i] == old(self).spec_pixels()[i],
    {
        let count = buffer_size / 4;
        self.pixels.resize(count, 0u32);
        self.buffer_size = buffer_size;
        proof {
            if count <= old(self).pixels@.len() {
                assert(self.pixels@ == old(self).pixels@.subrange(0, count as int));
            }
        }
    }

    /// The in-use pixels, read-only.
    pub fn as_ref(&self) -> (r: &[u32])
        ensures
            r@ == self.spec_pixels(),
    {
        self.pixels.as_slice()
    }

    /// The in-use pixels, writable.  The caller may overwrite them; the
    /// segment afterwards holds exactly what was written.
    pub fn as_mut(&mut self) -> (r: &mut [u32])
        requires
            old(self).wf(),
        ensures
            r@ == old(self).spec_pixels(),
            final(self).spec_pixels() == final(r)@,
            final(self).spec_size() == old(self).spec_size(),
            final(self).spec_buffer_size() == old(self).spec_buffer_size(),
            final(r)@.len() == old(self).spec_pixels().len() ==> final(self).wf(),
    {
        self.pixels.as_mut_slice()
    }

    /// What well-formedness guarantees, for callers outside this module.
    pub proof fn lemma_wf(self)
        requires
            self.wf(),
        ensures
            self.spec_buffer_size() == self.spec_pixels().len() * 4,
            self.spec_buffer_size() <= self.spec_size(),
    {
    }
}

} // verus!
