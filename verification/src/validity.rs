//! The validity-rejection sub-taxonomy and its binary decoder.
//!
//! A dry run that rejects an operation reports a raw byte buffer in a fixed
//! layout: an optional leading error marker, a byte selecting the "invalid"
//! or "unknown" family, and a byte selecting the specific reason. The decoder
//! is a total lookup table over that layout; unrecognized or truncated input
//! yields an `Other` variant carrying a diagnostic rendering, never a panic.

use vstd::prelude::*;

use crate::hexcodec::{hex_encode, hex_of};
use crate::text::{dec_digits, u128_to_dec};

verus! {

/// A structured validity rejection, decoded from a dry run's raw bytes.
#[derive(Debug, Clone, PartialEq, Eq)]
pub enum ValidityError {
    /// Nonce too low: the operation was already applied or is pending.
    Stale,
    /// Nonce too high: a previous operation has not been applied yet.
    Future,
    /// Priority too low: another queued operation conflicts.
    Priority,
    /// The account cannot pay the operation's fees.
    Payment,
    /// Bad signature or proof.
    BadProof,
    /// The operation's mortality window has expired.
    AncientBirthBlock,
    /// The operation would exhaust block resources.
    ExhaustsResources,
    /// Any other rejection, with a diagnostic description.
    Other(String),
}

/// The mathematical model of a `ValidityError`: the same variants with the
/// description as a character sequence.
pub enum ValidityModel {
    Stale,
    Future,
    Priority,
    Payment,
    BadProof,
    AncientBirthBlock,
    ExhaustsResources,
    Other(Seq<char>),
}

impl ValidityError {
    /// The model of this value.
    pub open spec fn model(self) -> ValidityModel {
        match self {
            ValidityError::Stale => ValidityModel::Stale,
            ValidityError::Future => ValidityModel::Future,
            ValidityError::Priority => ValidityModel::Priority,
            ValidityError::Payment => ValidityModel::Payment,
            ValidityError::BadProof => ValidityModel::BadProof,
            ValidityError::AncientBirthBlock => ValidityModel::AncientBirthBlock,
            ValidityError::ExhaustsResources => ValidityModel::ExhaustsResources,
            ValidityError::Other(s) => ValidityModel::Other(s@),
        }
    }
}

/// The decoder's result for the "invalid operation" family, selected by the
/// sub-reason byte; `custom` is the byte after it, or zero when absent.
pub open spec fn spec_decode_invalid(sub: u8, custom: u8) -> ValidityModel {
    if sub == 1 {
        ValidityModel::Payment
    } else if sub == 2 {
        ValidityModel::Future
    } else if sub == 3 {
        ValidityModel::Stale
    } else if sub == 4 {
        ValidityModel::BadProof
    } else if sub == 5 {
        ValidityModel::AncientBirthBlock
    } else if sub == 6 {
        ValidityModel::ExhaustsResources
    } else if sub == 0 {
        ValidityModel::Other("Invalid::Call - the call of the transaction is not expected"@)
    } else if sub == 7 {
        ValidityModel::Other("Invalid::Custom("@ + dec_digits(custom as nat) + ")"@)
    } else if sub == 8 {
        ValidityModel::Other("Invalid::BadMandatory - mandatory dispatch failed"@)
    } else if sub == 9 {
        ValidityModel::Other("Invalid::MandatoryValidation - mandatory validation failed"@)
    } else if sub == 10 {
        ValidityModel::BadProof
    } else {
        ValidityModel::Other("Invalid::Unknown("@ + dec_digits(sub as nat) + ")"@)
    }
}

/// The decoder's result for the "unknown operation" family.
pub open spec fn spec_decode_unknown(sub: u8, custom: u8) -> ValidityModel {
    if sub == 0 {
        ValidityModel::Other("Unknown::CannotLookup - could not look up information"@)
    } else if sub == 1 {
        ValidityModel::Other("Unknown::NoUnsignedValidator - no validator for unsigned tx"@)
    } else if sub == 2 {
        ValidityModel::Other("Unknown::Custom("@ + dec_digits(custom as nat) + ")"@)
    } else {
        ValidityModel::Other("Unknown::Unknown("@ + dec_digits(sub as nat) + ")"@)
    }
}

/// What the decoder returns for every byte sequence. The first byte, when it
/// equals one, is an outer error marker and is skipped; the next byte picks
/// the family; the byte after that picks the sub-reason; bytes that are
/// absent count as 255 (and as 0 for a custom code).
pub open spec fn spec_decode_validity(raw: Seq<u8>) -> ValidityModel {
    if raw.len() == 0 {
        ValidityModel::Other("empty response"@)
    } else {
        let start: int = if raw[0] == 1 {
            1
        } else {
            0
        };
        if raw.len() <= start {
            ValidityModel::Other("raw: 0x"@ + hex_of(raw))
        } else {
            let family: u8 = raw[start];
            let sub: u8 = if start + 1 < raw.len() {
                raw[start + 1]
            } else {
                255
            };
            let custom: u8 = if start + 2 < raw.len() {
                raw[start + 2]
            } else {
                0
            };
            if family == 0 {
                spec_decode_invalid(sub, custom)
            } else if family == 1 {
                spec_decode_unknown(sub, custom)
            } else {
                ValidityModel::Other(
                    "UnrecognizedError(type="@ + dec_digits(family as nat) + ", raw=0x"@ + hex_of(
                        raw,
                    ) + ")"@,
                )
            }
        }
    }
}

/// Decodes a raw validity-rejection buffer. Total over every byte sequence,
/// including empty, length-one and unrecognized input, and never panics.
pub fn decode_validity_error(raw_bytes: &[u8]) -> (r: ValidityError)
    ensures
        r.model() == spec_decode_validity(raw_bytes@),
{
    if raw_bytes.len() == 0 {
        return ValidityError::Other(String::from_str("empty response"));
    }
    let error_start: usize = if raw_bytes[0] == 1 {
        1
    } else {
        0
    };
    if raw_bytes.len() <= error_start {
        let mut s = String::from_str("raw: 0x");
        let h = hex_encode(raw_bytes);
        s.append(h.as_str());
        return ValidityError::Other(s);
    }
    let family: u8 = raw_bytes[error_start];
    let sub: u8 = if error_start + 1 < raw_bytes.len() {
        raw_bytes[error_start + 1]
    } else {
        255
    };
    let custom: u8 = if error_start + 2 < raw_bytes.len() {
        raw_bytes[error_start + 2]
    } else {
        0
    };
    if family == 0 {
        if sub == 1 {
            ValidityError::Payment
        } else if sub == 2 {
            ValidityError::Future
        } else if sub == 3 {
            ValidityError::Stale
        } else if sub == 4 {
            ValidityError::BadProof
        } else if sub == 5 {
            ValidityError::AncientBirthBlock
        } else if sub == 6 {
            ValidityError::ExhaustsResources
        } else if sub == 0 {
            ValidityError::Other(
                String::from_str("Invalid::Call - the call of the transaction is not expected"),
            )
        } else if sub == 7 {
            let mut s = String::from_str("Invalid::Custom(");
            let d = u128_to_dec(custom as u128);
            s.append(d.as_str());
            s.append(")");
            ValidityError::Other(s)
        } else if sub == 8 {
            ValidityError::Other(
                String::from_str("Invalid::BadMandatory - mandatory dispatch failed"),
            )
        } else if sub == 9 {
            ValidityError::Other(
                String::from_str("Invalid::MandatoryValidation - mandatory validation failed"),
            )
        } else if sub == 10 {
            ValidityError::BadProof
        } else {
            let mut s = String::from_str("Invalid::Unknown(");
            let d = u128_to_dec(sub as u128);
            s.append(d.as_str());
            s.append(")");
            ValidityError::Other(s)
        }
    } else if family == 1 {
        if sub == 0 {
            ValidityError::Other(
                String::from_str("Unknown::CannotLookup - could not look up information"),
            )
        } else if sub == 1 {
            ValidityError::Other(
                String::from_str("Unknown::NoUnsignedValidator - no validator for unsigned tx"),
            )
        } else if sub == 2 {
            let mut s = String::from_str("Unknown::Custom(");
            let d = u128_to_dec(custom as u128);
            s.append(d.as_str());
            s.append(")");
            ValidityError::Other(s)
        } else {
            let mut s = String::from_str("Unknown::Unknown(");
            let d = u128_to_dec(sub as u128);
            s.append(d.as_str());
            s.append(")");
            ValidityError::Other(s)
        }
    } else {
        let mut s = String::from_str("UnrecognizedError(type=");
        let d = u128_to_dec(family as u128);
        s.append(d.as_str());
        s.append(", raw=0x");
        let h = hex_encode(raw_bytes);
        s.append(h.as_str());
        s.append(")");
        ValidityError::Other(s)
    }
}

/// The description of each validity rejection.
pub open spec fn spec_validity_message(v: ValidityModel) -> Seq<char> {
    match v {
        ValidityModel::Stale => "Stale - nonce too low (transaction already applied or pending)"@,
        ValidityModel::Future => "Future - nonce too high (previous tx not yet applied)"@,
        ValidityModel::Priority => "Priority too low - pool conflict"@,
        ValidityModel::Payment => "Payment - unable to pay fees (insufficient balance)"@,
        ValidityModel::BadProof => "BadProof - invalid signature"@,
        ValidityModel::AncientBirthBlock => "AncientBirthBlock - transaction mortality expired"@,
        ValidityModel::ExhaustsResources => "ExhaustsResources - would exhaust block resources"@,
        ValidityModel::Other(s) => s,
    }
}

impl ValidityError {
    /// The human-readable description of this rejection.
    pub fn message(&self) -> (r: String)
        ensures
            r@ == spec_validity_message(self.model()),
    {
        match self {
            ValidityError::Stale => String::from_str(
                "Stale - nonce too low (transaction already applied or pending)",
            ),
            ValidityError::Future => String::from_str(
                "Future - nonce too high (previous tx not yet applied)",
            ),
            ValidityError::Priority => String::from_str("Priority too low - pool conflict"),
            ValidityError::Payment => String::from_str(
                "Payment - unable to pay fees (insufficient balance)",
            ),
            ValidityError::BadProof => String::from_str("BadProof - invalid signature"),
            ValidityError::AncientBirthBlock => String::from_str(
                "AncientBirthBlock - transaction mortality expired",
            ),
            ValidityError::ExhaustsResources => String::from_str(
                "ExhaustsResources - would exhaust block resources",
            ),
            ValidityError::Other(s) => s.clone(),
        }
    }
}

} // verus!
