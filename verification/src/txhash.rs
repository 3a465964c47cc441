//! The removal hash of a pending pool entry.
//!
//! The pool lists pending entries as hexadecimal strings and removes them by
//! the 32-byte digest of their raw bytes, written back as prefixed
//! hexadecimal. The digest itself comes from an outside hash; everything
//! around it — prefix stripping, decoding, rendering — is verified.

use vstd::prelude::*;

use blake2::Digest;

use crate::hexcodec::{hex_decode, hex_decoded, hex_encode, hex_of, is_valid_hex};

verus! {

/// The digest that the outside hash assigns to a byte sequence.
pub uninterp spec fn blake2s256_of(b: Seq<u8>) -> Seq<u8>;

/// Relies on `blake2::Blake2s256`: the digest is 32 bytes and depends on
/// the input bytes alone.
#[verifier::external_body]
fn blake2s256_digest(b: &[u8]) -> (r: Vec<u8>)
    ensures
        r@ == blake2s256_of(b@),
        r@.len() == 32,
{
    blake2::Blake2s256::digest(b).to_vec()
}

/// `b` without its leading `0x` marker, when it has one.
pub open spec fn spec_strip_hex_prefix(b: Seq<u8>) -> Seq<u8> {
    if b.len() >= 2 && b[0] == 48u8 && b[1] == 120u8 {
        b.skip(2)
    } else {
        b
    }
}

/// The raw bytes a listed pool entry denotes: its hexadecimal body without
/// the `0x` marker, or no bytes at all when the body is not valid
/// hexadecimal.
pub open spec fn spec_entry_bytes(b: Seq<u8>) -> Seq<u8> {
    if is_valid_hex(spec_strip_hex_prefix(b)) {
        hex_decoded(spec_strip_hex_prefix(b))
    } else {
        Seq::empty()
    }
}

/// Renders a digest as a `0x`-prefixed lowercase hexadecimal string.
pub fn removal_hash_string(digest: &Vec<u8>) -> (r: String)
    ensures
        r@ == "0x"@ + hex_of(digest@),
{
    let mut s = String::from_str("0x");
    let h = hex_encode(digest.as_slice());
    s.append(h.as_str());
    s
}

/// The removal hash of a listed pool entry: the digest of the bytes its
/// hexadecimal body denotes (of no bytes when the body is invalid), as a
/// prefixed hexadecimal string.
pub fn extrinsic_removal_hash(ext: &[u8]) -> (r: String)
    ensures
        r@ == "0x"@ + hex_of(blake2s256_of(spec_entry_bytes(ext@))),
{
    let body: &[u8] = if ext.len() >= 2 && *vstd::slice::slice_index_get(ext, 0) == 48u8
        && *vstd::slice::slice_index_get(ext, 1) == 120u8 {
        vstd::slice::slice_subrange(ext, 2, ext.len())
    } else {
        ext
    };
    proof {
        assert(body@ =~= spec_strip_hex_prefix(ext@));
    }
    let decoded: Vec<u8> = match hex_decode(body) {
        Some(v) => v,
        None => Vec::new(),
    };
    proof {
        assert(decoded@ =~= spec_entry_bytes(ext@));
    }
    let digest = blake2s256_digest(decoded.as_slice());
    removal_hash_string(&digest)
}

} // verus!
