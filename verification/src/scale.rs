//! The byte encodings the registry hands to the outside world.
//!
//! Integers are written little-endian at their full width, a hash as its 32
//! bytes, and a list as its length in compact form followed by its items.

use vstd::prelude::*;
use crate::hash::H256;

verus! {

/// The eight bytes of `x`, least significant first.
pub open spec fn u64_le_bytes(x: u64) -> Seq<u8> {
    seq![
        (x % 0x100) as u8,
        ((x / 0x100) % 0x100) as u8,
        ((x / 0x1_0000) % 0x100) as u8,
        ((x / 0x100_0000) % 0x100) as u8,
        ((x / 0x1_0000_0000) % 0x100) as u8,
        ((x / 0x100_0000_0000) % 0x100) as u8,
        ((x / 0x1_0000_0000_0000) % 0x100) as u8,
        ((x / 0x100_0000_0000_0000) % 0x100) as u8,
    ]
}

/// The compact form of a length.
///
/// The two low bits of the first byte tell the width. Below 2^6 the length
/// takes one byte, below 2^14 two and below 2^30 four: the length times four
/// plus 0, 1 or 2, little-endian. Any other length takes five bytes: the byte
/// 3, then the length in four bytes, little-endian.
pub open spec fn compact_u32(n: u32) -> Seq<u8> {
    if n < 0x40 {
        seq![(4 * n) as u8]
    } else if n < 0x4000 {
        let v = 4 * n + 1;
        seq![(v % 0x100) as u8, (v / 0x100) as u8]
    } else if n < 0x4000_0000 {
        let v = 4 * n + 2;
        seq![
            (v % 0x100) as u8,
            ((v / 0x100) % 0x100) as u8,
            ((v / 0x1_0000) % 0x100) as u8,
            (v / 0x100_0000) as u8,
        ]
    } else {
        seq![
            3u8,
            (n % 0x100) as u8,
            ((n / 0x100) % 0x100) as u8,
            ((n / 0x1_0000) % 0x100) as u8,
            (n / 0x100_0000) as u8,
        ]
    }
}

/// The bytes of all the hashes, one after the other.
pub open spec fn concat_hashes(hashes: Seq<H256>) -> Seq<u8>
    decreases hashes.len(),
{
    if hashes.len() == 0 {
        Seq::empty()
    } else {
        concat_hashes(hashes.drop_last()) + hashes.last()@
    }
}

/// Calls `parity_scale_codec::Encode::encode` on a `u64`. The codec writes an
/// integer of fixed width as its bytes, least significant first; the contract
/// claims exactly that.
#[verifier::external_body]
pub(crate) fn encode_u64(value: u64) -> (bytes: Vec<u8>)
    ensures
        bytes@ == u64_le_bytes(value),
{
    parity_scale_codec::Encode::encode(&value)
}

/// Calls `parity_scale_codec::Encode::encode` on a `Vec<u8>`. The codec
/// writes the length in compact form and then the bytes as they are; the
/// contract claims exactly that. The codec panics on a list of more than
/// `u32::MAX` items, so such a list is not accepted.
#[verifier::external_body]
pub(crate) fn encode_bytes(value: &Vec<u8>) -> (bytes: Vec<u8>)
    requires
        value@.len() <= u32::MAX,
    ensures
        bytes@ == compact_u32(value@.len() as u32) + value@,
{
    parity_scale_codec::Encode::encode(value)
}

/// Calls `parity_scale_codec::Encode::encode` on a `Vec<sp_core::H256>` that
/// holds the given hashes. The codec writes the length in compact form and
/// then each hash as its 32 bytes; the contract claims exactly that. The
/// codec panics on a list of more than `u32::MAX` items, so such a list is
/// not accepted.
#[verifier::external_body]
pub(crate) fn encode_hashes(value: &Vec<H256>) -> (bytes: Vec<u8>)
    requires
        value@.len() <= u32::MAX,
    ensures
        bytes@ == compact_u32(value@.len() as u32) + concat_hashes(value@),
{
    let hashes: Vec<sp_core::H256> = value.iter().map(|h| sp_core::H256(h.0)).collect();
    parity_scale_codec::Encode::encode(&hashes)
}

} // verus!
