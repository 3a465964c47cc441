//! The validity decoder: totality over byte layouts, and messages.

use migration_bot::validity::ValidityError;

fn decode_validity_error(bytes: &[u8]) -> ValidityError {
    migration_bot::validity::decode_validity_error(bytes)
}

#[test]
fn test_validity_error_display() {
    assert_eq!(
        ValidityError::Stale.message(),
        "Stale - nonce too low (transaction already applied or pending)"
    );
    assert_eq!(
        ValidityError::Future.message(),
        "Future - nonce too high (previous tx not yet applied)"
    );
    assert_eq!(
        ValidityError::Priority.message(),
        "Priority too low - pool conflict"
    );
    assert_eq!(
        ValidityError::Payment.message(),
        "Payment - unable to pay fees (insufficient balance)"
    );
    assert_eq!(
        ValidityError::BadProof.message(),
        "BadProof - invalid signature"
    );
    assert_eq!(
        ValidityError::AncientBirthBlock.message(),
        "AncientBirthBlock - transaction mortality expired"
    );
    assert_eq!(
        ValidityError::ExhaustsResources.message(),
        "ExhaustsResources - would exhaust block resources"
    );
    assert_eq!(
        ValidityError::Other("custom error".to_string()).message(),
        "custom error"
    );
}

#[test]
fn test_validity_error_equality() {
    assert_eq!(ValidityError::Stale, ValidityError::Stale);
    assert_ne!(ValidityError::Stale, ValidityError::Future);
    assert_eq!(
        ValidityError::Other("test".to_string()),
        ValidityError::Other("test".to_string())
    );
}

#[test]
fn test_decode_empty_bytes() {
    let result = decode_validity_error(&[]);
    assert!(matches!(result, ValidityError::Other(s) if s.contains("empty")));
}

#[test]
fn test_decode_invalid_payment() {
    // 0x01 = Err variant, 0x00 = Invalid, 0x01 = Payment
    let bytes = vec![0x01, 0x00, 0x01];
    assert_eq!(decode_validity_error(&bytes), ValidityError::Payment);
}

#[test]
fn test_decode_invalid_future() {
    // 0x01 = Err variant, 0x00 = Invalid, 0x02 = Future
    let bytes = vec![0x01, 0x00, 0x02];
    assert_eq!(decode_validity_error(&bytes), ValidityError::Future);
}

#[test]
fn test_decode_invalid_stale() {
    // 0x01 = Err variant, 0x00 = Invalid, 0x03 = Stale
    let bytes = vec![0x01, 0x00, 0x03];
    assert_eq!(decode_validity_error(&bytes), ValidityError::Stale);
}

#[test]
fn test_decode_invalid_bad_proof() {
    // 0x01 = Err variant, 0x00 = Invalid, 0x04 = BadProof
    let bytes = vec![0x01, 0x00, 0x04];
    assert_eq!(decode_validity_error(&bytes), ValidityError::BadProof);
}

#[test]
fn test_decode_invalid_ancient_birth_block() {
    // 0x01 = Err variant, 0x00 = Invalid, 0x05 = AncientBirthBlock
    let bytes = vec![0x01, 0x00, 0x05];
    assert_eq!(
        decode_validity_error(&bytes),
        ValidityError::AncientBirthBlock
    );
}

#[test]
fn test_decode_invalid_exhausts_resources() {
    // 0x01 = Err variant, 0x00 = Invalid, 0x06 = ExhaustsResources
    let bytes = vec![0x01, 0x00, 0x06];
    assert_eq!(
        decode_validity_error(&bytes),
        ValidityError::ExhaustsResources
    );
}

#[test]
fn test_decode_invalid_call() {
    // 0x01 = Err variant, 0x00 = Invalid, 0x00 = Call
    let bytes = vec![0x01, 0x00, 0x00];
    let result = decode_validity_error(&bytes);
    assert!(matches!(result, ValidityError::Other(s) if s.contains("Call")));
}

#[test]
fn test_decode_invalid_custom() {
    // 0x01 = Err variant, 0x00 = Invalid, 0x07 = Custom, 0x42 = custom value
    let bytes = vec![0x01, 0x00, 0x07, 0x42];
    let result = decode_validity_error(&bytes);
    assert!(matches!(result, ValidityError::Other(s) if s.contains("Custom(66)")));
}

#[test]
fn test_decode_invalid_bad_signer() {
    // 0x01 = Err variant, 0x00 = Invalid, 0x0a = BadSigner (maps to BadProof)
    let bytes = vec![0x01, 0x00, 0x0a];
    assert_eq!(decode_validity_error(&bytes), ValidityError::BadProof);
}

#[test]
fn test_decode_unknown_cannot_lookup() {
    // 0x01 = Err variant, 0x01 = Unknown, 0x00 = CannotLookup
    let bytes = vec![0x01, 0x01, 0x00];
    let result = decode_validity_error(&bytes);
    assert!(matches!(result, ValidityError::Other(s) if s.contains("CannotLookup")));
}

#[test]
fn test_decode_unknown_no_unsigned_validator() {
    // 0x01 = Err variant, 0x01 = Unknown, 0x01 = NoUnsignedValidator
    let bytes = vec![0x01, 0x01, 0x01];
    let result = decode_validity_error(&bytes);
    assert!(matches!(result, ValidityError::Other(s) if s.contains("NoUnsignedValidator")));
}

#[test]
fn test_decode_without_err_marker() {
    // No 0x01 prefix - start parsing from byte 0
    let bytes = vec![0x00, 0x03]; // Invalid::Stale
    assert_eq!(decode_validity_error(&bytes), ValidityError::Stale);
}

#[test]
fn test_decode_short_bytes() {
    // Only error marker, no content
    let bytes = vec![0x01];
    let result = decode_validity_error(&bytes);
    assert!(matches!(result, ValidityError::Other(_)));
}

#[test]
fn test_decode_unrecognized_family_carries_hex_dump() {
    // 0x01 = Err variant, 0x07 = unrecognized family: the diagnostic carries
    // the family code and a hex dump of the whole buffer.
    let bytes = vec![0x01, 0x07, 0xab, 0xcd];
    let result = decode_validity_error(&bytes);
    match result {
        ValidityError::Other(s) => {
            assert_eq!(s, "UnrecognizedError(type=7, raw=0x0107abcd)");
        }
        other => panic!("expected Other, got {:?}", other),
    }
}

#[test]
fn test_decode_unknown_custom_value() {
    // 0x01 = Err variant, 0x01 = Unknown, 0x02 = Custom, 0x05 = value
    let bytes = vec![0x01, 0x01, 0x02, 0x05];
    let result = decode_validity_error(&bytes);
    assert!(matches!(result, ValidityError::Other(s) if s == "Unknown::Custom(5)"));
}

#[test]
fn test_decode_truncated_invalid_family() {
    // Marker and family only: the missing sub-reason byte reads as 255.
    let bytes = vec![0x01, 0x00];
    let result = decode_validity_error(&bytes);
    assert!(matches!(result, ValidityError::Other(s) if s == "Invalid::Unknown(255)"));
}
