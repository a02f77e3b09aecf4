use sentinel::state::{
    blank_ciphertexts, ErrorCode, IdentityKey, CIPHERTEXT_LEN, RISK_STATE_WORDS,
};

#[test]
fn keys_with_the_same_bytes_are_the_same() {
    let a = IdentityKey { bytes: [7u8; 32] };
    let b = IdentityKey { bytes: [7u8; 32] };
    assert!(a.same(&b));
    assert!(a.same(&a));
}

#[test]
fn keys_that_differ_in_one_byte_differ() {
    let a = IdentityKey { bytes: [7u8; 32] };
    for i in 0..32 {
        let mut bytes = [7u8; 32];
        bytes[i] = 8;
        assert!(!a.same(&IdentityKey { bytes }));
        assert!(!IdentityKey { bytes }.same(&a));
    }
}

#[test]
fn blank_words_are_all_zero() {
    assert_eq!(blank_ciphertexts(), [[0u8; 32]; 2]);
    assert_eq!(CIPHERTEXT_LEN, 32);
    assert_eq!(RISK_STATE_WORDS, 2);
}

#[test]
fn each_error_has_its_text() {
    assert_eq!(ErrorCode::InvalidAuthority.message(), "Invalid authority");
    assert_eq!(ErrorCode::AbortedComputation.message(), "The computation was aborted");
    assert_eq!(ErrorCode::ClusterUnavailable.message(), "Cluster not set");
    assert_eq!(ErrorCode::PositionInactive.message(), "Position is not active");
}

#[test]
fn keys_compare_with_the_operators() {
    let a = IdentityKey { bytes: [7u8; 32] };
    let mut bytes = [7u8; 32];
    bytes[16] = 0;
    let b = IdentityKey { bytes };
    assert!(a == IdentityKey { bytes: [7u8; 32] });
    assert!(a != b);
    assert_eq!(a, a);
    assert_ne!(b, a);
}
