//! Parameter-block codec: the only channel for passing the key into a
//! kernel invocation. The wire layout is fixed: bytes `[0..4)` hold the
//! key's byte length as a big-endian unsigned 32-bit integer, bytes
//! `[4..4+len)` hold the raw key, and any remaining bytes up to the block's
//! declared total size are zero. The kernel consumes the block; the host
//! never decodes it back, so no decoder is provided.

use vstd::prelude::*;

verus! {

/// The four bytes of `n` in big-endian order.
pub open spec fn spec_be_u32(n: u32) -> Seq<u8> {
    seq![
        (n / 0x1000000) as u8,
        ((n / 0x10000) % 0x100) as u8,
        ((n / 0x100) % 0x100) as u8,
        (n % 0x100) as u8,
    ]
}

/// `n` zero bytes.
pub open spec fn spec_zero_bytes(n: nat) -> Seq<u8> {
    Seq::new(n, |i: int| 0u8)
}

/// The encoded parameter block: big-endian length prefix, key bytes, then
/// zero padding out to `declared` bytes in all.
pub open spec fn spec_parameter_block(key: Seq<u8>, declared: nat) -> Seq<u8>
    recommends
        key.len() <= u32::MAX,
        declared >= 4 + key.len(),
{
    spec_be_u32(key.len() as u32) + key + spec_zero_bytes((declared - (4 + key.len())) as nat)
}

/// Encode `key` into a parameter block of exactly `declared_size` bytes.
///
/// The block's total length always equals `declared_size`; with the
/// pipeline's declared size of `4 + key_size` the padding is empty and the
/// length is `4 + key_size` independent of the key's content.
pub fn encode_parameter_block(key: &[u8], declared_size: u64) -> (r: Vec<u8>)
    requires
        key@.len() <= u32::MAX,
        4 + key@.len() <= declared_size,
        declared_size <= usize::MAX,
    ensures
        r@.len() == declared_size,
        r@ == spec_parameter_block(key@, declared_size as nat),
{
    let n: u32 = key.len() as u32;
    let mut out: Vec<u8> = Vec::new();
    out.push((n / 0x1000000) as u8);
    out.push(((n / 0x10000) % 0x100) as u8);
    out.push(((n / 0x100) % 0x100) as u8);
    out.push((n % 0x100) as u8);
    assert(out@ =~= spec_be_u32(n));

    let mut i: usize = 0;
    while i < key.len()
        invariant
            i <= key@.len(),
            out@ =~= spec_be_u32(key@.len() as u32) + key@.take(i as int),
        decreases key@.len() - i,
    {
        out.push(key[i]);
        i = i + 1;
        assert(key@.take(i as int) =~= key@.take(i - 1) + seq![key@[i - 1]]);
    }
    assert(key@.take(key@.len() as int) =~= key@);

    while out.len() < declared_size as usize
        invariant
            key@.len() <= u32::MAX,
            4 + key@.len() <= declared_size <= usize::MAX,
            4 + key@.len() <= out@.len() <= declared_size,
            out@ =~= spec_be_u32(key@.len() as u32) + key@
                + spec_zero_bytes((out@.len() - (4 + key@.len())) as nat),
        decreases declared_size - out@.len(),
    {
        out.push(0u8);
        assert(spec_zero_bytes((out@.len() - (4 + key@.len())) as nat)
            =~= spec_zero_bytes((out@.len() - 1 - (4 + key@.len())) as nat) + seq![0u8]);
    }
    assert(out@ =~= spec_parameter_block(key@, declared_size as nat));
    out
}

/// The encoded block's total length always equals the declared size —
/// with the pipeline's declared size of `4 + key_size`, the block is
/// `4 + key_size` bytes long whatever the key's content: the length
/// depends only on the key's length, never on its bytes.
pub proof fn lemma_parameter_block_size(key: Seq<u8>, declared: nat)
    requires
        key.len() <= u32::MAX,
        declared >= 4 + key.len(),
    ensures
        spec_parameter_block(key, declared).len() == declared,
{
}

} // verus!
