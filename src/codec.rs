use vstd::prelude::*;
use crate::witness::entries_view;

verus! {

/// What the parity-codec decoding of an encoded parachain block yields:
/// its extrinsics and its witness entries, or nothing for malformed bytes.
pub uninterp spec fn block_decoding(b: Seq<u8>) -> Option<(Seq<Seq<u8>>, Seq<(Seq<u8>, Seq<u8>)>)>;

/// What the parity-codec decoding of an encoded parent header yields for its
/// block number, or nothing for malformed bytes.
pub uninterp spec fn parent_number_decoding(b: Seq<u8>) -> Option<u32>;

/// A list of byte strings as byte sequences.
pub open spec fn byte_strings_view(v: Seq<Vec<u8>>) -> Seq<Seq<u8>> {
    v.map_values(|x: Vec<u8>| x@)
}

/// Relies on parity_codec::Decode for `(Vec<Vec<u8>>, Vec<(Vec<u8>, Vec<u8>)>)`:
/// a block is its list of opaque extrinsics followed by its witness entries;
/// the result depends on the bytes alone.
#[verifier::external_body]
pub(crate) fn decode_block_parts(b: &[u8]) -> (r: Option<(Vec<Vec<u8>>, Vec<(Vec<u8>, Vec<u8>)>)>)
    ensures
        match r {
            Some(p) => block_decoding(b@) == Some((byte_strings_view(p.0@), entries_view(p.1@))),
            None => block_decoding(b@) is None,
        },
{
    <(Vec<Vec<u8>>, Vec<(Vec<u8>, Vec<u8>)>) as parity_codec::Decode>::decode(&mut &b[..])
}

/// Relies on parity_codec::Decode for `([u8; 32], Compact<u32>)`: a header
/// opens with the parent hash and then the compact block number; nothing
/// after the number is read. The result depends on the bytes alone.
#[verifier::external_body]
pub(crate) fn decode_parent_number(b: &[u8]) -> (r: Option<u32>)
    ensures
        r == parent_number_decoding(b@),
{
    <([u8; 32], parity_codec::Compact<u32>) as parity_codec::Decode>::decode(&mut &b[..]).map(|h| (h.1).0)
}

} // verus!
