//! Byte-range copy semantics.
//!
//! A mapped region, the backing file, and caller buffers are all sequences of
//! bytes; every operation of this layer is a copy of one contiguous range
//! into another. [`spliced`] is the specification of such a copy, and
//! [`copy_range`] and [`zero_extend`] are the verified executable forms.

use vstd::prelude::*;

verus! {

/// The sequence `dst` with `src` written over the range that starts at
/// `offset`; every byte outside that range is unchanged.
pub open spec fn spliced(dst: Seq<u8>, offset: int, src: Seq<u8>) -> Seq<u8>
    recommends
        0 <= offset,
        offset + src.len() <= dst.len(),
{
    Seq::new(
        dst.len(),
        |i: int|
            if offset <= i < offset + src.len() {
                src[i - offset]
            } else {
                dst[i]
            },
    )
}

/// `s` padded with zero bytes up to length `n`.
pub open spec fn zero_extended(s: Seq<u8>, n: int) -> Seq<u8>
    recommends
        s.len() <= n,
{
    Seq::new(
        n as nat,
        |i: int|
            if i < s.len() {
                s[i]
            } else {
                0u8
            },
    )
}

/// Copies `len` bytes out of `src`, starting at `src_offset`, into `dst`
/// starting at `dst_offset`.
pub fn copy_range(dst: &mut Vec<u8>, dst_offset: usize, src: &Vec<u8>, src_offset: usize, len: usize)
    requires
        dst_offset + len <= old(dst)@.len(),
        src_offset + len <= src@.len(),
    ensures
        final(dst)@ == spliced(
            old(dst)@,
            dst_offset as int,
            src@.subrange(src_offset as int, src_offset + len),
        ),
{
    let n = dst.len();
    let sn = src.len();
    let mut i: usize = 0;
    while i < len
        invariant
            i <= len,
            n == dst@.len(),
            sn == src@.len(),
            dst_offset + len <= n,
            src_offset + len <= sn,
            dst@.len() == old(dst)@.len(),
            forall|j: int| 0 <= j < i ==> #[trigger] dst@[dst_offset + j] == src@[src_offset + j],
            forall|j: int|
                0 <= j < dst@.len() && !(dst_offset <= j < dst_offset + i) ==> dst@[j] == old(
                    dst,
                )@[j],
        decreases len - i,
    {
        let b = src[src_offset + i];
        dst.set(dst_offset + i, b);
        i += 1;
    }
    proof {
        let s = src@.subrange(src_offset as int, src_offset + len);
        assert forall|k: int| 0 <= k < dst@.len() implies dst@[k] == spliced(
            old(dst)@,
            dst_offset as int,
            s,
        )[k] by {
            if dst_offset <= k < dst_offset + len {
                assert(dst@[dst_offset + (k - dst_offset)] == src@[src_offset + (k - dst_offset)]);
            }
        }
        assert(dst@ =~= spliced(old(dst)@, dst_offset as int, s));
    }
}

/// Appends zero bytes until `v` holds exactly `n` bytes.
pub fn zero_extend(v: &mut Vec<u8>, n: usize)
    requires
        old(v)@.len() <= n,
    ensures
        final(v)@ == zero_extended(old(v)@, n as int),
{
    while v.len() < n
        invariant
            old(v)@.len() <= v@.len() <= n,
            forall|j: int| 0 <= j < old(v)@.len() ==> v@[j] == old(v)@[j],
            forall|j: int| old(v)@.len() <= j < v@.len() ==> v@[j] == 0u8,
        decreases n - v@.len(),
    {
        v.push(0);
    }
    proof {
        assert(v@ =~= zero_extended(old(v)@, n as int));
    }
}

/// A fresh vector holding the same bytes as `src`.
pub fn copy_of(src: &Vec<u8>) -> (r: Vec<u8>)
    ensures
        r@ == src@,
{
    let n = src.len();
    let mut r: Vec<u8> = Vec::new();
    let mut i: usize = 0;
    while i < n
        invariant
            i <= n,
            n == src@.len(),
            r@.len() == i,
            forall|j: int| 0 <= j < i ==> r@[j] == src@[j],
        decreases n - i,
    {
        r.push(src[i]);
        i += 1;
    }
    proof {
        assert(r@ =~= src@);
    }
    r
}

/// Padding a sequence to its own length changes nothing.
pub proof fn lemma_zero_extended_noop(s: Seq<u8>)
    ensures
        zero_extended(s, s.len() as int) == s,
{
    assert(zero_extended(s, s.len() as int) =~= s);
}

/// Round trip: writing the bytes `data` into a region at `offset` and then
/// reading `data.len()` bytes back from the same `offset` into a buffer
/// yields `data` again as the buffer's prefix, whatever the region and the
/// buffer held before.
pub proof fn lemma_write_read_round_trip(region: Seq<u8>, buf: Seq<u8>, offset: int, data: Seq<u8>)
    requires
        0 <= offset,
        offset + data.len() <= region.len(),
        data.len() <= buf.len(),
    ensures
        ({
            let written = spliced(region, offset, data);
            let read_back = spliced(buf, 0, written.subrange(offset, offset + data.len()));
            read_back.subrange(0, data.len() as int) == data
        }),
{
    let written = spliced(region, offset, data);
    assert(written.subrange(offset, offset + data.len()) =~= data);
    let read_back = spliced(buf, 0, written.subrange(offset, offset + data.len()));
    assert(read_back.subrange(0, data.len() as int) =~= data);
}

} // verus!
