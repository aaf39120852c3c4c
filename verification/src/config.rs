//! Byte-exact layout of the variable-length configuration record.
//!
//! A configuration-space transfer hands the kernel one contiguous block: a
//! fixed 8-byte header holding the byte offset and the byte length of the
//! transfer, immediately followed by a payload of exactly that length.  The
//! layout is packed — one-byte alignment, no padding — and the block's total
//! size is decided at request time, not by any compile-time structure.  The
//! builders here produce the block as a plain byte vector of exactly the
//! required size, so acquiring and releasing it is ordinary vector ownership
//! and no exit path can leak it.

use vstd::bytes::lemma_auto_spec_u32_to_from_le_bytes;
use vstd::bytes::spec_u32_from_le_bytes;
use vstd::bytes::spec_u32_to_le_bytes;
use vstd::bytes::u32_to_le_bytes;
use vstd::prelude::*;
use vstd::slice::slice_subrange;
use vstd::slice::slice_to_vec;

verus! {

/// Size in bytes of the fixed header: a `u32` byte offset followed by a
/// `u32` byte length, little-endian, packed.
pub const CONFIG_HEADER_LEN: usize = 8;

/// A sequence of `len` zero bytes: the payload region of a block prepared
/// for the read direction, before the kernel fills it.
pub open spec fn zero_bytes(len: nat) -> Seq<u8> {
    Seq::new(len, |i: int| 0u8)
}

/// The configuration record for a transfer at byte `offset` carrying
/// `data`: the two header fields, then the payload, nothing between.
pub open spec fn spec_config_block(offset: u32, data: Seq<u8>) -> Seq<u8>
    recommends
        data.len() <= u32::MAX,
{
    spec_u32_to_le_bytes(offset) + spec_u32_to_le_bytes(data.len() as u32) + data
}

/// The payload region of a block, as read back after the kernel request.
pub open spec fn spec_config_payload(block: Seq<u8>, len: nat) -> Seq<u8>
    recommends
        block.len() >= CONFIG_HEADER_LEN + len,
{
    block.subrange(CONFIG_HEADER_LEN as int, CONFIG_HEADER_LEN + len)
}

/// Builds the record for the write direction: header populated first, then
/// the caller's bytes copied into the trailing region.
pub fn build_config_block(offset: u32, data: &[u8]) -> (block: Vec<u8>)
    requires
        data@.len() <= u32::MAX,
    ensures
        block@ == spec_config_block(offset, data@),
        block@.len() == CONFIG_HEADER_LEN + data@.len(),
{
    proof {
        lemma_auto_spec_u32_to_from_le_bytes();
    }
    let mut block = u32_to_le_bytes(offset);
    let mut len_field = u32_to_le_bytes(data.len() as u32);
    block.append(&mut len_field);
    block.extend_from_slice(data);
    block
}

/// Builds the record for the read direction: header populated, trailing
/// region of `len` zero bytes for the kernel to fill.  A zero `len` is
/// legal and leaves only the header.
pub fn new_config_block(offset: u32, len: u32) -> (block: Vec<u8>)
    requires
        CONFIG_HEADER_LEN + len <= usize::MAX,
    ensures
        block@ == spec_config_block(offset, zero_bytes(len as nat)),
        block@.len() == CONFIG_HEADER_LEN + len,
{
    proof {
        lemma_auto_spec_u32_to_from_le_bytes();
    }
    let mut block = u32_to_le_bytes(offset);
    let mut len_field = u32_to_le_bytes(len);
    block.append(&mut len_field);
    let mut zeros: Vec<u8> = vec![0u8; len as usize];
    block.append(&mut zeros);
    proof {
        assert(block@ =~= spec_config_block(offset, zero_bytes(len as nat)));
    }
    block
}

/// Copies `len` bytes out of the trailing region of a block the kernel has
/// filled.
pub fn config_block_payload(block: &[u8], len: usize) -> (data: Vec<u8>)
    requires
        block@.len() >= CONFIG_HEADER_LEN + len,
    ensures
        data@ == spec_config_payload(block@, len as nat),
        data@.len() == len,
{
    proof {
        // A slice's length is bounded by usize, so the end offset fits.
        vstd::slice::axiom_spec_len(block);
    }
    let trailing = slice_subrange(block, CONFIG_HEADER_LEN, CONFIG_HEADER_LEN + len);
    slice_to_vec(trailing)
}

/// Law: a configuration transfer is a faithful round trip through the
/// record.  In the block built for offset `offset` and payload `data`, the
/// header's offset field reads back as `offset`, its length field reads
/// back as exactly `data.len()`, and the trailing region reads back as
/// `data` itself — for every payload length, zero included.
pub proof fn lemma_config_block_round_trip(offset: u32, data: Seq<u8>)
    requires
        data.len() <= u32::MAX,
    ensures
        spec_config_block(offset, data).len() == CONFIG_HEADER_LEN + data.len(),
        spec_u32_from_le_bytes(spec_config_block(offset, data).subrange(0, 4)) == offset,
        spec_u32_from_le_bytes(spec_config_block(offset, data).subrange(4, 8)) == data.len() as u32,
        spec_config_payload(spec_config_block(offset, data), data.len()) == data,
{
    lemma_auto_spec_u32_to_from_le_bytes();
    let block = spec_config_block(offset, data);
    assert(block.subrange(0, 4) =~= spec_u32_to_le_bytes(offset));
    assert(block.subrange(4, 8) =~= spec_u32_to_le_bytes(data.len() as u32));
    assert(spec_config_payload(block, data.len()) =~= data);
}

} // verus!
