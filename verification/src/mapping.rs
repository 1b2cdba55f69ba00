//! The mapping and its backing file.
//!
//! A [`DiskFile`] holds the durable contents of the backing file — the bytes
//! a later open observes. A [`Mapping`] is the owned handle a successful
//! open returns: it pairs the mapped bytes with the access mode agreed at
//! creation, so bounds and mode travel with the address they govern. Writes
//! land in the mapping alone; they reach the file when a sub-range is
//! flushed, or when a writable mapping is torn down.

use vstd::prelude::*;

use crate::region::{copy_of, copy_range, spliced};

verus! {

/// How a mapping may be used: a private read-only view, or a shared
/// writable view whose changes reach the backing file.
#[derive(Clone, Copy, PartialEq, Eq, Structural)]
pub enum Mode {
    ReadOnly,
    ReadWrite,
}

/// The durable contents of the backing file.
pub struct DiskFile {
    pub bytes: Vec<u8>,
}

impl View for DiskFile {
    type V = Seq<u8>;

    open spec fn view(&self) -> Seq<u8> {
        self.bytes@
    }
}

/// A mapped view of a file: the bytes the view covers, together with the
/// access mode agreed when the view was created. The length is fixed for
/// the mapping's lifetime.
pub struct Mapping {
    bytes: Vec<u8>,
    mode: Mode,
}

impl View for Mapping {
    type V = Seq<u8>;

    closed spec fn view(&self) -> Seq<u8> {
        self.bytes@
    }
}

impl Mapping {
    /// The access mode agreed at creation.
    pub closed spec fn mode(&self) -> Mode {
        self.mode
    }

    /// The byte count agreed at creation.
    pub fn len(&self) -> (n: usize)
        ensures
            n == self@.len(),
    {
        self.bytes.len()
    }

    /// Whether writes through this mapping are allowed.
    pub fn is_writable(&self) -> (b: bool)
        ensures
            b == (self.mode() == Mode::ReadWrite),
    {
        match self.mode {
            Mode::ReadWrite => true,
            Mode::ReadOnly => false,
        }
    }

    /// Creates a view covering exactly the given bytes.
    pub(crate) fn map_view(bytes: &Vec<u8>, mode: Mode) -> (m: Mapping)
        ensures
            m@ == bytes@,
            m.mode() == mode,
    {
        Mapping { bytes: copy_of(bytes), mode }
    }

    /// Copies `len` bytes out of `src`, starting at its beginning, into the
    /// mapping at `offset`. The caller owns the bounds: the range must lie
    /// within the mapping and the source must hold the bytes.
    pub fn write_at(&mut self, offset: usize, src: &Vec<u8>, len: usize)
        requires
            old(self).mode() == Mode::ReadWrite,
            offset + len <= old(self)@.len(),
            len <= src@.len(),
        ensures
            final(self)@ == spliced(old(self)@, offset as int, src@.subrange(0, len as int)),
            final(self).mode() == old(self).mode(),
    {
        copy_range(&mut self.bytes, offset, src, 0, len);
    }

    /// Copies `len` bytes of the mapping, starting at `offset`, into the
    /// front of `dst`; the rest of `dst` is unchanged.
    pub fn read_at(&self, dst: &mut Vec<u8>, offset: usize, len: usize)
        requires
            offset + len <= self@.len(),
            len <= old(dst)@.len(),
        ensures
            final(dst)@ == spliced(old(dst)@, 0, self@.subrange(offset as int, offset + len)),
    {
        copy_range(dst, 0, &self.bytes, offset, len);
    }

    /// Propagates the mapping's bytes in `[offset, offset + len)` to the
    /// backing file. A read-only view is private: nothing reaches the file.
    pub fn flush_to(&self, file: &mut DiskFile, offset: usize, len: usize)
        requires
            old(file)@.len() == self@.len(),
            offset + len <= self@.len(),
        ensures
            self.mode() == Mode::ReadWrite ==> final(file)@ == spliced(
                old(file)@,
                offset as int,
                self@.subrange(offset as int, offset + len),
            ),
            self.mode() == Mode::ReadOnly ==> final(file)@ == old(file)@,
    {
        if self.is_writable() {
            copy_range(&mut file.bytes, offset, &self.bytes, offset, len);
        }
    }

    /// Tears the view down. Unmapping a writable view makes every write
    /// visible in the backing file; a read-only view leaves it untouched.
    pub fn unmap(self, file: &mut DiskFile)
        requires
            old(file)@.len() == self@.len(),
        ensures
            self.mode() == Mode::ReadWrite ==> final(file)@ == self@,
            self.mode() == Mode::ReadOnly ==> final(file)@ == old(file)@,
    {
        let Mapping { bytes, mode } = self;
        match mode {
            Mode::ReadWrite => {
                file.bytes = bytes;
            },
            Mode::ReadOnly => {},
        }
    }
}

} // verus!
