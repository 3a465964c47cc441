//! Classifying the operator's signing seed.
//!
//! A seed starting with the `0x` marker is a raw 32-byte hexadecimal secret
//! key; anything else is a mnemonic phrase, which an outside signer parses.
//! The classification and the hexadecimal decoding are verified; only the
//! key derivation itself is outside work.

use vstd::prelude::*;

use crate::error::MigrationError;
use crate::hexcodec::{hex_decode, hex_decoded, is_valid_hex};
use crate::txhash::spec_strip_hex_prefix;

verus! {

/// What a seed string turned out to be.
#[derive(Debug, Clone, PartialEq, Eq)]
pub enum SeedKind {
    /// A raw 32-byte secret key, decoded from hexadecimal.
    HexSecret(Vec<u8>),
    /// A mnemonic phrase, to be parsed by the signer.
    Phrase,
}

/// Does the byte sequence carry the hexadecimal seed marker?
pub open spec fn spec_has_hex_marker(b: Seq<u8>) -> bool {
    b.len() >= 2 && b[0] == 48u8 && b[1] == 120u8
}

/// Classifies a seed, given as the seed string's bytes. Without the `0x`
/// marker it is a phrase. With it, the body must be valid hexadecimal
/// denoting exactly 32 bytes; the decoded secret is returned, and either
/// fault is an `InvalidSeed` error.
pub fn classify_seed(seed: &[u8]) -> (r: Result<SeedKind, MigrationError>)
    ensures
        !spec_has_hex_marker(seed@) ==> r == Ok::<SeedKind, MigrationError>(SeedKind::Phrase),
        spec_has_hex_marker(seed@) && !is_valid_hex(spec_strip_hex_prefix(seed@)) ==> {
            &&& r is Err
            &&& r->Err_0.model() == crate::error::ErrorModel::InvalidSeed(
                "seed is not valid hex"@,
            )
        },
        spec_has_hex_marker(seed@) && is_valid_hex(spec_strip_hex_prefix(seed@))
            && hex_decoded(spec_strip_hex_prefix(seed@)).len() != 32 ==> {
            &&& r is Err
            &&& r->Err_0.model() == crate::error::ErrorModel::InvalidSeed(
                "Seed must be 32 bytes"@,
            )
        },
        spec_has_hex_marker(seed@) && is_valid_hex(spec_strip_hex_prefix(seed@))
            && hex_decoded(spec_strip_hex_prefix(seed@)).len() == 32 ==> {
            &&& r is Ok
            &&& r->Ok_0 matches SeedKind::HexSecret(v) && v@ == hex_decoded(
                spec_strip_hex_prefix(seed@),
            )
        },
{
    if !(seed.len() >= 2 && *vstd::slice::slice_index_get(seed, 0) == 48u8
        && *vstd::slice::slice_index_get(seed, 1) == 120u8) {
        return Ok(SeedKind::Phrase);
    }
    let body = vstd::slice::slice_subrange(seed, 2, seed.len());
    proof {
        assert(body@ =~= spec_strip_hex_prefix(seed@));
    }
    match hex_decode(body) {
        None => Err(MigrationError::InvalidSeed(String::from_str("seed is not valid hex"))),
        Some(v) => {
            if v.len() != 32 {
                Err(MigrationError::InvalidSeed(String::from_str("Seed must be 32 bytes")))
            } else {
                Ok(SeedKind::HexSecret(v))
            }
        },
    }
}

} // verus!
