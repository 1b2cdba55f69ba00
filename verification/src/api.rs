//! The boundary surface: open, write, read, flush, close.
//!
//! Each function keeps the shape of the raw boundary it stands for: an
//! absent base address or file is an `Option` holding nothing, a failed open
//! reports an absent mapping, and the byte-moving operations report a count
//! of zero (or a failure code) on a degenerate argument instead of erroring.
//! The caller owns the bounds of every range it names, exactly as the raw
//! contract demands; here that obligation is a `requires` clause rather
//! than undefined behaviour.

use vstd::prelude::*;

use crate::mapping::{DiskFile, Mapping, Mode};
use crate::region::{spliced, zero_extend, zero_extended};
use crate::size::{compute_open_size, lemma_open_size_never_shrinks, open_size};

verus! {

/// The bytes of an optional file; a missing file reads as empty.
pub open spec fn file_bytes(file: Option<DiskFile>) -> Seq<u8> {
    match file {
        Some(f) => f@,
        None => Seq::empty(),
    }
}

/// The size of an optional file; a missing file has size zero.
pub open spec fn file_size(file: Option<DiskFile>) -> int {
    file_bytes(file).len() as int
}

/// Read-mode open: maps an existing, non-empty file as a private read-only
/// view of its whole contents. An absent or empty file yields an absent
/// mapping, and the file is never touched.
pub fn mmap_open(file: &Option<DiskFile>) -> (r: Option<Mapping>)
    ensures
        r.is_some() <==> file_size(*file) > 0,
        r matches Some(m) ==> m@ == file_bytes(*file) && m.mode() == Mode::ReadOnly,
{
    match file {
        Some(f) => {
            if f.bytes.len() == 0 {
                None
            } else {
                Some(Mapping::map_view(&f.bytes, Mode::ReadOnly))
            }
        },
        None => None,
    }
}

/// Write-mode open with an explicit request: creates the file when it is
/// missing, grows it (zero-filled) to the negotiated size — the requested
/// size when positive, else the current size, else [`crate::size::DEFAULT_SIZE`] —
/// and never shrinks it. Returns a writable mapping of the whole file.
pub fn mmap_open_write_with_size(file: &mut Option<DiskFile>, requested: usize) -> (r: Option<
    Mapping,
>)
    ensures
        r.is_some(),
        final(file).is_some(),
        file_size(*final(file)) == open_size(requested as int, file_size(*old(file))),
        file_bytes(*final(file)) == zero_extended(
            file_bytes(*old(file)),
            open_size(requested as int, file_size(*old(file))),
        ),
        r matches Some(m) ==> m@ == file_bytes(*final(file)) && m.mode() == Mode::ReadWrite,
{
    let cur: usize = match file {
        Some(f) => f.bytes.len(),
        None => 0,
    };
    let new_size = compute_open_size(requested, cur);
    proof {
        lemma_open_size_never_shrinks(requested as int, cur as int);
    }
    let taken = file.take();
    let mut bytes: Vec<u8> = match taken {
        Some(f) => f.bytes,
        None => Vec::new(),
    };
    zero_extend(&mut bytes, new_size);
    let m = Mapping::map_view(&bytes, Mode::ReadWrite);
    *file = Some(DiskFile { bytes });
    Some(m)
}

/// Write-mode open with no size request: the negotiated size is the file's
/// current size, or the default for a missing or empty file.
pub fn mmap_open_write(file: &mut Option<DiskFile>) -> (r: Option<Mapping>)
    ensures
        r.is_some(),
        final(file).is_some(),
        file_size(*final(file)) == open_size(0, file_size(*old(file))),
        file_bytes(*final(file)) == zero_extended(
            file_bytes(*old(file)),
            open_size(0, file_size(*old(file))),
        ),
        r matches Some(m) ==> m@ == file_bytes(*final(file)) && m.mode() == Mode::ReadWrite,
{
    mmap_open_write_with_size(file, 0)
}

/// Copies `len` bytes of `src` into the mapping at `offset`. Returns `0`
/// on an absent base or a zero length — and only then — leaving the base
/// untouched; otherwise returns `len` with the range written, all or
/// nothing. The caller owns the bounds and the mapping must be writable.
pub fn mmap_write(base: &mut Option<Mapping>, offset: usize, src: &Vec<u8>, len: usize) -> (n:
    usize)
    requires
        (*old(base)) matches Some(m) ==> len > 0 ==> offset + len <= m@.len() && len <= src@.len()
            && m.mode() == Mode::ReadWrite,
    ensures
        n == 0 <==> ((*old(base)).is_none() || len == 0),
        (*old(base)).is_none() || len == 0 ==> *final(base) == *old(base),
        (*old(base)) matches Some(m) ==> len > 0 ==> n == len && ((*final(base)) matches Some(m2)
            && m2@ == spliced(m@, offset as int, src@.subrange(0, len as int)) && m2.mode()
            == m.mode()),
{
    match base {
        Some(m) => {
            if len == 0 {
                0
            } else {
                m.write_at(offset, src, len);
                len
            }
        },
        None => 0,
    }
}

/// Copies `len` bytes of the mapping, starting at `offset`, into the front
/// of `dst`. Returns `0` on an absent base or a zero length — and only
/// then — leaving `dst` untouched; otherwise returns `len`. The caller
/// owns the bounds.
pub fn mmap_read(dst: &mut Vec<u8>, base: &Option<Mapping>, offset: usize, len: usize) -> (n: usize)
    requires
        (*base) matches Some(m) ==> len > 0 ==> offset + len <= m@.len() && len <= old(dst)@.len(),
    ensures
        n == 0 <==> ((*base).is_none() || len == 0),
        (*base).is_none() || len == 0 ==> final(dst)@ == old(dst)@,
        (*base) matches Some(m) ==> len > 0 ==> n == len && final(dst)@ == spliced(
            old(dst)@,
            0,
            m@.subrange(offset as int, offset + len),
        ),
{
    match base {
        Some(m) => {
            if len == 0 {
                0
            } else {
                m.read_at(dst, offset, len);
                len
            }
        },
        None => 0,
    }
}

/// Synchronizes the mapping's bytes in `[offset, offset + len)` with the
/// backing file. Returns `-1` on an absent base or a zero length — and
/// only then — leaving the file untouched; otherwise returns `0`. A
/// read-only view is private, so the file keeps its bytes either way.
pub fn mmap_flush(file: &mut DiskFile, base: &Option<Mapping>, offset: usize, len: usize) -> (rc:
    i32)
    requires
        (*base) matches Some(m) ==> len > 0 ==> old(file)@.len() == m@.len() && offset + len
            <= m@.len(),
    ensures
        rc == 0 <==> ((*base).is_some() && len > 0),
        rc == 0 || rc == -1,
        (*base).is_none() || len == 0 ==> final(file)@ == old(file)@,
        (*base) matches Some(m) ==> len > 0 ==> (m.mode() == Mode::ReadWrite ==> final(file)@
            == spliced(old(file)@, offset as int, m@.subrange(offset as int, offset + len))) && (
        m.mode() == Mode::ReadOnly ==> final(file)@ == old(file)@),
{
    match base {
        Some(m) => {
            if len == 0 {
                -1
            } else {
                m.flush_to(file, offset, len);
                0
            }
        },
        None => -1,
    }
}

/// Teardown: consumes the mapping and unmaps it, making a writable view's
/// bytes visible in the backing file. An absent base is a guaranteed
/// no-op. The length must be the one agreed at creation.
pub fn mmap_close(file: &mut DiskFile, base: Option<Mapping>, length: usize)
    requires
        base matches Some(m) ==> length == m@.len() && old(file)@.len() == m@.len(),
    ensures
        base.is_none() ==> final(file)@ == old(file)@,
        base matches Some(m) ==> (m.mode() == Mode::ReadWrite ==> final(file)@ == m@) && (m.mode()
            == Mode::ReadOnly ==> final(file)@ == old(file)@),
{
    match base {
        Some(m) => m.unmap(file),
        None => {},
    }
}

} // verus!

