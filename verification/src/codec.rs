use vstd::prelude::*;

use vstd::bytes::{spec_u64_from_le_bytes, spec_u64_to_le_bytes, u64_from_le_bytes, u64_to_le_bytes};
use vstd::bytes::lemma_auto_spec_u64_to_from_le_bytes;
use vstd::slice::slice_subrange;

use crate::pubkey::{Pubkey, KEY_LEN};

verus! {

/// A run of `n` zero bytes, the shape of every reserved block.
pub open spec fn zero_bytes(n: nat) -> Seq<u8> {
    Seq::new(n, |i: int| 0u8)
}

/// Appends the little-endian bytes of `x` to `out`.
pub fn push_u64_le(out: &mut Vec<u8>, x: u64)
    ensures
        final(out)@ == old(out)@ + spec_u64_to_le_bytes(x),
{
    let bytes = u64_to_le_bytes(x);
    let mut i: usize = 0;
    while i < bytes.len()
        invariant
            i <= bytes@.len(),
            bytes@ == spec_u64_to_le_bytes(x),
            bytes@.len() == 8,
            out@ == old(out)@ + bytes@.subrange(0, i as int),
        decreases bytes@.len() - i,
    {
        out.push(bytes[i]);
        proof {
            assert(out@ =~= old(out)@ + bytes@.subrange(0, i + 1));
        }
        i = i + 1;
    }
    proof {
        assert(out@ =~= old(out)@ + bytes@);
    }
}

/// Appends all of `src` to `out`.
pub fn push_bytes(out: &mut Vec<u8>, src: &Vec<u8>)
    ensures
        final(out)@ == old(out)@ + src@,
{
    let mut i: usize = 0;
    while i < src.len()
        invariant
            i <= src@.len(),
            out@ == old(out)@ + src@.subrange(0, i as int),
        decreases src@.len() - i,
    {
        out.push(src[i]);
        proof {
            assert(out@ =~= old(out)@ + src@.subrange(0, i + 1));
        }
        i = i + 1;
    }
    proof {
        assert(out@ =~= old(out)@ + src@);
    }
}

/// Appends the bytes of a key to `out`.
pub fn push_key(out: &mut Vec<u8>, key: &Pubkey)
    ensures
        final(out)@ == old(out)@ + key@,
{
    let bytes = key.to_vec();
    push_bytes(out, &bytes);
}

/// Appends `n` zero bytes to `out`.
pub fn push_zero_bytes(out: &mut Vec<u8>, n: usize)
    ensures
        final(out)@ == old(out)@ + zero_bytes(n as nat),
{
    let mut i: usize = 0;
    while i < n
        invariant
            i <= n,
            out@ == old(out)@ + zero_bytes(i as nat),
        decreases n - i,
    {
        out.push(0u8);
        proof {
            assert(out@ =~= old(out)@ + zero_bytes((i + 1) as nat));
        }
        i = i + 1;
    }
}

/// Reads the u64 stored little-endian in `data` at `off`.
pub fn read_u64_le(data: &Vec<u8>, off: usize) -> (r: u64)
    requires
        off + 8 <= data@.len(),
    ensures
        r == spec_u64_from_le_bytes(data@.subrange(off as int, off + 8)),
{
    let n: usize = data.len();
    proof {
        assert(off + 8 <= n);
    }
    let slice = slice_subrange(data.as_slice(), off, off + 8);
    u64_from_le_bytes(slice)
}

/// Copies `len` bytes of `data`, starting at `off`, into a fresh vector.
pub fn read_vec_at(data: &Vec<u8>, off: usize, len: usize) -> (r: Vec<u8>)
    requires
        off + len <= data@.len(),
    ensures
        r@ == data@.subrange(off as int, off + len),
{
    let n: usize = data.len();
    proof {
        assert(off + len <= n);
    }
    let slice = slice_subrange(data.as_slice(), off, off + len);
    vstd::slice::slice_to_vec(slice)
}

/// Overwrites the leading record of a region's bytes with `record`,
/// keeping any over-allocated tail beyond the record's width exactly as
/// it was.
pub fn splice_record(old_data: &Vec<u8>, record: Vec<u8>) -> (r: Vec<u8>)
    requires
        record@.len() <= old_data@.len(),
    ensures
        r@ == record@ + old_data@.skip(record@.len() as int),
{
    let ghost rec: Seq<u8> = record@;
    let mut out = record;
    let start: usize = out.len();
    let n: usize = old_data.len();
    let mut i: usize = start;
    while i < n
        invariant
            start <= i <= n,
            n == old_data@.len(),
            start == rec.len(),
            out@ == rec + old_data@.subrange(start as int, i as int),
        decreases n - i,
    {
        out.push(old_data[i]);
        proof {
            assert(out@ =~= rec + old_data@.subrange(start as int, i + 1));
        }
        i = i + 1;
    }
    proof {
        assert(out@ =~= rec + old_data@.skip(start as int));
    }
    out
}

/// The round trip of the u64 codec: reading back the little-endian bytes of
/// `x` yields `x` again.
pub proof fn lemma_u64_le_roundtrip(x: u64)
    ensures
        spec_u64_to_le_bytes(x).len() == 8,
        spec_u64_from_le_bytes(spec_u64_to_le_bytes(x)) == x,
{
    lemma_auto_spec_u64_to_from_le_bytes();
}

} // verus!
