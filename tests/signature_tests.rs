use reliquary::error::CryptoError;
use reliquary::signature::{
    generate_falcon_keys, message_recovered, sign_falcon, sign_with_new_keys, verify_falcon,
};

#[test]
fn falcon_key_sizes() {
    let (pk, sk) = generate_falcon_keys();
    assert_eq!(pk.len(), 1793);
    assert_eq!(sk.len(), 2305);
}

#[test]
fn falcon_sign_then_verify() {
    let (pk, sk) = generate_falcon_keys();
    let msg = b"attest this".to_vec();
    let signed = sign_falcon(msg.clone(), sk).unwrap();
    assert_eq!(verify_falcon(msg, signed.clone(), pk.clone()), Ok(true));
    assert_eq!(verify_falcon(b"attest that".to_vec(), signed, pk), Ok(false));
}

#[test]
fn falcon_signed_message_embeds_message() {
    let (_, sk) = generate_falcon_keys();
    let msg = b"embedded".to_vec();
    let signed = sign_falcon(msg.clone(), sk).unwrap();
    assert!(signed.len() > msg.len() + 42);
    assert_eq!(signed[42..42 + msg.len()].to_vec(), msg);
}

#[test]
fn falcon_other_key_does_not_verify() {
    let (_, sk) = generate_falcon_keys();
    let (other_pk, _) = generate_falcon_keys();
    let signed = sign_falcon(b"m".to_vec(), sk).unwrap();
    assert_eq!(verify_falcon(b"m".to_vec(), signed, other_pk), Ok(false));
}

#[test]
fn falcon_garbage_signature_is_false_not_error() {
    let (pk, _) = generate_falcon_keys();
    assert_eq!(verify_falcon(b"m".to_vec(), vec![], pk.clone()), Ok(false));
    assert_eq!(verify_falcon(b"m".to_vec(), vec![0xffu8; 100], pk), Ok(false));
}

#[test]
fn falcon_tampered_signature_is_false() {
    let (pk, sk) = generate_falcon_keys();
    let mut signed = sign_falcon(b"m".to_vec(), sk).unwrap();
    let last = signed.len() - 1;
    signed[last] ^= 0x55;
    assert_eq!(verify_falcon(b"m".to_vec(), signed, pk), Ok(false));
}

#[test]
fn falcon_bad_secret_key_lengths() {
    for len in [0usize, 2304, 2306] {
        assert_eq!(sign_falcon(b"m".to_vec(), vec![0u8; len]), Err(CryptoError::InvalidSecretKeyLength));
    }
}

#[test]
fn falcon_bad_public_key_lengths() {
    for len in [0usize, 1792, 1794] {
        assert_eq!(
            verify_falcon(b"m".to_vec(), vec![0u8; 50], vec![0u8; len]),
            Err(CryptoError::InvalidPublicKeyLength)
        );
    }
}

#[test]
fn recovered_message_comparison() {
    assert!(message_recovered(b"abc", &Some(b"abc".to_vec())));
    assert!(!message_recovered(b"abc", &Some(b"abd".to_vec())));
    assert!(!message_recovered(b"abc", &Some(b"ab".to_vec())));
    assert!(!message_recovered(b"abc", &None));
    assert!(message_recovered(b"", &Some(vec![])));
}

#[test]
fn falcon_undecodable_secret_key_is_encoding_error() {
    assert_eq!(sign_falcon(b"m".to_vec(), vec![0u8; 2305]), Err(CryptoError::InvalidEncoding));
}

#[test]
fn falcon_sign_with_new_keys_verifies() {
    let msg = b"fresh pair".to_vec();
    let (pk, sk, signed) = sign_with_new_keys(msg.clone());
    assert_eq!(pk.len(), 1793);
    assert_eq!(sk.len(), 2305);
    assert_eq!(signed[42..42 + msg.len()].to_vec(), msg);
    assert_eq!(verify_falcon(msg.clone(), signed.clone(), pk.clone()), Ok(true));
    assert_eq!(verify_falcon(b"other".to_vec(), signed, pk), Ok(false));
    let again = sign_falcon(msg.clone(), sk).unwrap();
    assert_eq!(again[42..42 + msg.len()].to_vec(), msg);
}
