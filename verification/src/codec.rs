//! Fixed-layout binary codec for the two instruction records.
//!
//! Both records use a little-endian wire layout with no padding: field
//! order, width and byte order are fixed by the protocol being modeled.
//! Decoding is strict: the input must hold exactly the record's length,
//! so both truncated and over-long inputs are rejected.

use vstd::bytes::{
    lemma_auto_spec_u64_to_from_le_bytes, spec_u64_from_le_bytes, spec_u64_to_le_bytes,
    u64_from_le_bytes, u64_to_le_bytes,
};
use vstd::prelude::*;
use vstd::slice::slice_subrange;

use crate::error::DecodeError;

verus! {

/// Exact wire length of an encoded pool-initialization record:
/// 1 + 1 + 8 + 8 + 8 bytes.
pub const POOL_INIT_WIRE_LEN: usize = 26;

/// Exact wire length of an encoded swap record: 1 + 8 + 8 bytes.
pub const SWAP_WIRE_LEN: usize = 17;

/// A pool-initialization instruction record.
#[derive(Clone, Copy, Debug, PartialEq, Eq, Structural)]
pub struct RaydiumInstruction {
    /// Selects the instruction variant.
    pub discriminator: u8,
    /// Anti-replay value, opaque to this layer.
    pub nonce: u8,
    /// Pool-open timestamp, Unix seconds.
    pub opentime: u64,
    /// Initial quote-token amount, raw integer units.
    pub init_pc_amount: u64,
    /// Initial base-token amount, raw integer units.
    pub init_coin_amount: u64,
}

/// A swap instruction record.
#[derive(Clone, Copy, Debug, PartialEq, Eq, Structural)]
pub struct SwapIxData {
    /// Selects the swap-instruction variant.
    pub discriminator: u8,
    /// Input-token amount, raw integer units.
    pub amount_in: u64,
    /// Slippage floor for the output amount.
    pub minimum_amount_out: u64,
}

/// The wire image of a pool-initialization record: the five fields in
/// declared order, integers little-endian.
pub open spec fn spec_encode_pool_init(r: RaydiumInstruction) -> Seq<u8> {
    seq![r.discriminator, r.nonce] + spec_u64_to_le_bytes(r.opentime)
        + spec_u64_to_le_bytes(r.init_pc_amount) + spec_u64_to_le_bytes(r.init_coin_amount)
}

/// Strict decoding of a pool-initialization record: exactly
/// `POOL_INIT_WIRE_LEN` bytes, read in declared field order.
pub open spec fn spec_decode_pool_init(bytes: Seq<u8>) -> Result<RaydiumInstruction, DecodeError> {
    if bytes.len() < POOL_INIT_WIRE_LEN {
        Err(DecodeError::Truncated)
    } else if bytes.len() > POOL_INIT_WIRE_LEN {
        Err(DecodeError::TrailingData)
    } else {
        Ok(
            RaydiumInstruction {
                discriminator: bytes[0],
                nonce: bytes[1],
                opentime: spec_u64_from_le_bytes(bytes.subrange(2, 10)),
                init_pc_amount: spec_u64_from_le_bytes(bytes.subrange(10, 18)),
                init_coin_amount: spec_u64_from_le_bytes(bytes.subrange(18, 26)),
            },
        )
    }
}

/// The wire image of a swap record: the three fields in declared order,
/// integers little-endian.
pub open spec fn spec_encode_swap(r: SwapIxData) -> Seq<u8> {
    seq![r.discriminator] + spec_u64_to_le_bytes(r.amount_in)
        + spec_u64_to_le_bytes(r.minimum_amount_out)
}

/// Strict decoding of a swap record: exactly `SWAP_WIRE_LEN` bytes, read
/// in declared field order.
pub open spec fn spec_decode_swap(bytes: Seq<u8>) -> Result<SwapIxData, DecodeError> {
    if bytes.len() < SWAP_WIRE_LEN {
        Err(DecodeError::Truncated)
    } else if bytes.len() > SWAP_WIRE_LEN {
        Err(DecodeError::TrailingData)
    } else {
        Ok(
            SwapIxData {
                discriminator: bytes[0],
                amount_in: spec_u64_from_le_bytes(bytes.subrange(1, 9)),
                minimum_amount_out: spec_u64_from_le_bytes(bytes.subrange(9, 17)),
            },
        )
    }
}

/// Encodes a pool-initialization record; always succeeds and produces
/// exactly `POOL_INIT_WIRE_LEN` bytes.
pub fn encode_pool_init(r: &RaydiumInstruction) -> (out: Vec<u8>)
    ensures
        out@ == spec_encode_pool_init(*r),
        out@.len() == POOL_INIT_WIRE_LEN,
{
    proof {
        lemma_auto_spec_u64_to_from_le_bytes();
    }
    let mut out: Vec<u8> = Vec::new();
    out.push(r.discriminator);
    out.push(r.nonce);
    let mut word = u64_to_le_bytes(r.opentime);
    out.append(&mut word);
    let mut word = u64_to_le_bytes(r.init_pc_amount);
    out.append(&mut word);
    let mut word = u64_to_le_bytes(r.init_coin_amount);
    out.append(&mut word);
    proof {
        assert(out@ =~= spec_encode_pool_init(*r));
    }
    out
}

/// Decodes a pool-initialization record under the strict-length policy:
/// succeeds exactly on inputs of `POOL_INIT_WIRE_LEN` bytes, reporting
/// truncation and trailing data distinctly otherwise.
pub fn decode_pool_init(bytes: &[u8]) -> (r: Result<RaydiumInstruction, DecodeError>)
    ensures
        r == spec_decode_pool_init(bytes@),
{
    if bytes.len() < POOL_INIT_WIRE_LEN {
        Err(DecodeError::Truncated)
    } else if bytes.len() > POOL_INIT_WIRE_LEN {
        Err(DecodeError::TrailingData)
    } else {
        let discriminator = *slice_subrange(bytes, 0, 1).first().unwrap();
        let nonce = *slice_subrange(bytes, 1, 2).first().unwrap();
        let opentime = u64_from_le_bytes(slice_subrange(bytes, 2, 10));
        let init_pc_amount = u64_from_le_bytes(slice_subrange(bytes, 10, 18));
        let init_coin_amount = u64_from_le_bytes(slice_subrange(bytes, 18, 26));
        Ok(RaydiumInstruction { discriminator, nonce, opentime, init_pc_amount, init_coin_amount })
    }
}

/// Encodes a swap record; always succeeds and produces exactly
/// `SWAP_WIRE_LEN` bytes.
pub fn encode_swap(r: &SwapIxData) -> (out: Vec<u8>)
    ensures
        out@ == spec_encode_swap(*r),
        out@.len() == SWAP_WIRE_LEN,
{
    proof {
        lemma_auto_spec_u64_to_from_le_bytes();
    }
    let mut out: Vec<u8> = Vec::new();
    out.push(r.discriminator);
    let mut word = u64_to_le_bytes(r.amount_in);
    out.append(&mut word);
    let mut word = u64_to_le_bytes(r.minimum_amount_out);
    out.append(&mut word);
    proof {
        assert(out@ =~= spec_encode_swap(*r));
    }
    out
}

/// Decodes a swap record under the strict-length policy: succeeds exactly
/// on inputs of `SWAP_WIRE_LEN` bytes.
pub fn decode_swap(bytes: &[u8]) -> (r: Result<SwapIxData, DecodeError>)
    ensures
        r == spec_decode_swap(bytes@),
{
    if bytes.len() < SWAP_WIRE_LEN {
        Err(DecodeError::Truncated)
    } else if bytes.len() > SWAP_WIRE_LEN {
        Err(DecodeError::TrailingData)
    } else {
        let discriminator = *slice_subrange(bytes, 0, 1).first().unwrap();
        let amount_in = u64_from_le_bytes(slice_subrange(bytes, 1, 9));
        let minimum_amount_out = u64_from_le_bytes(slice_subrange(bytes, 9, 17));
        Ok(SwapIxData { discriminator, amount_in, minimum_amount_out })
    }
}

/// Round trip: decoding the encoding of any pool-initialization record
/// yields that record back, field for field.
pub proof fn lemma_pool_init_round_trip(r: RaydiumInstruction)
    ensures
        spec_decode_pool_init(spec_encode_pool_init(r)) == Ok::<RaydiumInstruction, DecodeError>(r),
{
    lemma_auto_spec_u64_to_from_le_bytes();
    let bytes = spec_encode_pool_init(r);
    assert(bytes.subrange(2, 10) =~= spec_u64_to_le_bytes(r.opentime));
    assert(bytes.subrange(10, 18) =~= spec_u64_to_le_bytes(r.init_pc_amount));
    assert(bytes.subrange(18, 26) =~= spec_u64_to_le_bytes(r.init_coin_amount));
}

/// Round trip: decoding the encoding of any swap record yields that
/// record back, field for field.
pub proof fn lemma_swap_round_trip(r: SwapIxData)
    ensures
        spec_decode_swap(spec_encode_swap(r)) == Ok::<SwapIxData, DecodeError>(r),
{
    lemma_auto_spec_u64_to_from_le_bytes();
    let bytes = spec_encode_swap(r);
    assert(bytes.subrange(1, 9) =~= spec_u64_to_le_bytes(r.amount_in));
    assert(bytes.subrange(9, 17) =~= spec_u64_to_le_bytes(r.minimum_amount_out));
}

/// Truncation: decoding any byte sequence shorter than the
/// pool-initialization layout fails with a truncation error; no
/// partially-populated record is ever produced.
pub proof fn lemma_pool_init_truncated(bytes: Seq<u8>)
    requires
        bytes.len() < POOL_INIT_WIRE_LEN,
    ensures
        spec_decode_pool_init(bytes) == Err::<RaydiumInstruction, DecodeError>(
            DecodeError::Truncated,
        ),
{
}

/// Truncation: decoding any byte sequence shorter than the swap layout
/// fails with a truncation error.
pub proof fn lemma_swap_truncated(bytes: Seq<u8>)
    requires
        bytes.len() < SWAP_WIRE_LEN,
    ensures
        spec_decode_swap(bytes) == Err::<SwapIxData, DecodeError>(DecodeError::Truncated),
{
}

} // verus!
