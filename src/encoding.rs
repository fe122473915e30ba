//! Big-endian byte encodings of the model's scalars, as written into the
//! payloads that transaction hashes are computed over.
use vstd::prelude::*;
use crate::primitives::{Address, H256};

verus! {

pub open spec fn be_u32(x: u32) -> Seq<u8> {
    seq![(x >> 24u32) as u8, (x >> 16u32) as u8, (x >> 8u32) as u8, x as u8]
}

pub open spec fn be_u64(x: u64) -> Seq<u8> {
    be_u32((x >> 32u64) as u32) + be_u32(x as u32)
}

pub open spec fn be_u128(x: u128) -> Seq<u8> {
    be_u64((x >> 64u128) as u64) + be_u64(x as u64)
}

pub open spec fn h256_bytes(h: H256) -> Seq<u8> {
    be_u64(h.0) + be_u64(h.1) + be_u64(h.2) + be_u64(h.3)
}

pub open spec fn address_bytes(a: Address) -> Seq<u8> {
    be_u32(a.hi) + be_u128(a.lo)
}

pub fn push_u8(out: &mut Vec<u8>, x: u8)
    ensures
        final(out)@ == old(out)@ + seq![x],
{
    out.push(x);
    assert(out@ =~= old(out)@ + seq![x]);
}

pub fn push_u32(out: &mut Vec<u8>, x: u32)
    ensures
        final(out)@ == old(out)@ + be_u32(x),
{
    out.push((x >> 24u32) as u8);
    out.push((x >> 16u32) as u8);
    out.push((x >> 8u32) as u8);
    out.push(x as u8);
    assert(out@ =~= old(out)@ + be_u32(x));
}

pub fn push_u64(out: &mut Vec<u8>, x: u64)
    ensures
        final(out)@ == old(out)@ + be_u64(x),
{
    push_u32(out, (x >> 32u64) as u32);
    push_u32(out, x as u32);
    assert(out@ =~= old(out)@ + be_u64(x));
}

pub fn push_u128(out: &mut Vec<u8>, x: u128)
    ensures
        final(out)@ == old(out)@ + be_u128(x),
{
    push_u64(out, (x >> 64u128) as u64);
    push_u64(out, x as u64);
    assert(out@ =~= old(out)@ + be_u128(x));
}

pub fn push_h256(out: &mut Vec<u8>, h: H256)
    ensures
        final(out)@ == old(out)@ + h256_bytes(h),
{
    push_u64(out, h.0);
    push_u64(out, h.1);
    push_u64(out, h.2);
    push_u64(out, h.3);
    assert(out@ =~= old(out)@ + h256_bytes(h));
}

pub fn push_address(out: &mut Vec<u8>, a: Address)
    ensures
        final(out)@ == old(out)@ + address_bytes(a),
{
    push_u32(out, a.hi);
    push_u128(out, a.lo);
    assert(out@ =~= old(out)@ + address_bytes(a));
}

} // verus!
