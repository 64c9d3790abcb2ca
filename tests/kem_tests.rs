use reliquary::error::CryptoError;
use reliquary::kem::{decapsulate_kyber, encapsulate_kyber, generate_kyber_keys};

#[test]
fn kyber_key_sizes() {
    let (pk, sk) = generate_kyber_keys();
    assert_eq!(pk.len(), 1568);
    assert_eq!(sk.len(), 3168);
}

#[test]
fn kyber_agreement() {
    let (pk, sk) = generate_kyber_keys();
    let (ss, ct) = encapsulate_kyber(pk).unwrap();
    assert_eq!(ss.len(), 32);
    assert_eq!(ct.len(), 1568);
    assert_eq!(decapsulate_kyber(ct, sk), Ok(ss));
}

#[test]
fn kyber_unrelated_key_gives_other_secret() {
    let (pk, _) = generate_kyber_keys();
    let (_, other_sk) = generate_kyber_keys();
    let (ss, ct) = encapsulate_kyber(pk).unwrap();
    let recovered = decapsulate_kyber(ct, other_sk).unwrap();
    assert_eq!(recovered.len(), 32);
    assert_ne!(recovered, ss);
}

#[test]
fn kyber_encapsulations_differ() {
    let (pk, _) = generate_kyber_keys();
    let (ss1, ct1) = encapsulate_kyber(pk.clone()).unwrap();
    let (ss2, ct2) = encapsulate_kyber(pk).unwrap();
    assert_ne!(ct1, ct2);
    assert_ne!(ss1, ss2);
}

#[test]
fn kyber_bad_public_key_lengths() {
    for len in [0usize, 1567, 1569] {
        assert_eq!(encapsulate_kyber(vec![0u8; len]), Err(CryptoError::InvalidPublicKeyLength));
    }
}

#[test]
fn kyber_bad_ciphertext_lengths() {
    for len in [0usize, 1567, 1569] {
        assert_eq!(
            decapsulate_kyber(vec![0u8; len], vec![0u8; 3168]),
            Err(CryptoError::InvalidCiphertextLength)
        );
    }
}

#[test]
fn kyber_bad_secret_key_lengths() {
    for len in [0usize, 3167, 3169] {
        assert_eq!(
            decapsulate_kyber(vec![0u8; 1568], vec![0u8; len]),
            Err(CryptoError::InvalidSecretKeyLength)
        );
    }
}

#[test]
fn kyber_decapsulation_is_deterministic() {
    let (pk, sk) = generate_kyber_keys();
    let (_, ct) = encapsulate_kyber(pk).unwrap();
    assert_eq!(decapsulate_kyber(ct.clone(), sk.clone()), decapsulate_kyber(ct, sk));
}

#[test]
fn kyber_secret_key_holds_public_key() {
    let (pk, sk) = generate_kyber_keys();
    assert_eq!(sk[1536..3104].to_vec(), pk);
}
