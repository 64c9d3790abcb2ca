use crate::error::CryptoError;
use pqcrypto_kyber::kyber1024 as kyber;
use pqcrypto_traits::kem::{Ciphertext, PublicKey, SecretKey, SharedSecret};
use vstd::prelude::*;

verus! {

/// Length in bytes of a Kyber-1024 public key.
pub const KYBER_PUBLICKEYBYTES: usize = 1568;

/// Length in bytes of a Kyber-1024 secret key.
pub const KYBER_SECRETKEYBYTES: usize = 3168;

/// Length in bytes of a Kyber-1024 ciphertext.
pub const KYBER_CIPHERTEXTBYTES: usize = 1568;

/// Length in bytes of a Kyber shared secret.
pub const KYBER_SHAREDSECRETBYTES: usize = 32;

#[verifier::external_type_specification]
#[verifier::external_body]
pub struct ExPqError(pqcrypto_traits::Error);

/// The shared secret that Kyber-1024 decapsulation recovers from `ciphertext`
/// with `secret_key`.
pub uninterp spec fn kyber_shared_secret(ciphertext: Seq<u8>, secret_key: Seq<u8>) -> Seq<u8>;

/// Offset of the public key inside a Kyber-1024 secret key.
pub const KYBER_SECRETKEY_PUBLIC_OFFSET: usize = 1536;

/// Length in bytes of the random input of key generation.
pub const KYBER_KEYPAIR_COINS: usize = 64;

/// Length in bytes of the random input of encapsulation.
pub const KYBER_ENCAPSULATION_COINS: usize = 32;

/// The (public key, secret key) pair that Kyber-1024 key generation derives
/// from `coins`.
pub uninterp spec fn kyber_keypair_from(coins: Seq<u8>) -> (Seq<u8>, Seq<u8>);

/// The (shared secret, ciphertext) pair that Kyber-1024 encapsulation derives
/// for `public_key` from `coins`.
pub uninterp spec fn kyber_encapsulation(public_key: Seq<u8>, coins: Seq<u8>) -> (Seq<u8>, Seq<u8>);

/// `(public_key, secret_key)` is the key pair derived from some 64 bytes.
pub open spec fn derived_keypair(public_key: Seq<u8>, secret_key: Seq<u8>) -> bool {
    exists|c: Seq<u8>| c.len() == KYBER_KEYPAIR_COINS && kyber_keypair_from(c) == (public_key, secret_key)
}

/// `(shared_secret, ciphertext)` is the encapsulation for `public_key` derived
/// from some 32 bytes.
pub open spec fn derived_encapsulation(public_key: Seq<u8>, shared_secret: Seq<u8>, ciphertext: Seq<u8>) -> bool {
    exists|c: Seq<u8>|
        c.len() == KYBER_ENCAPSULATION_COINS && kyber_encapsulation(public_key, c) == (shared_secret, ciphertext)
}

/// Random input from which key generation derives `(public_key, secret_key)`,
/// where there is one.
pub open spec fn keypair_coins(public_key: Seq<u8>, secret_key: Seq<u8>) -> Seq<u8> {
    choose|c: Seq<u8>| c.len() == KYBER_KEYPAIR_COINS && kyber_keypair_from(c) == (public_key, secret_key)
}

/// Random input from which encapsulation for `public_key` derives
/// `(shared_secret, ciphertext)`, where there is one.
pub open spec fn encapsulation_coins(public_key: Seq<u8>, shared_secret: Seq<u8>, ciphertext: Seq<u8>) -> Seq<u8> {
    choose|c: Seq<u8>|
        c.len() == KYBER_ENCAPSULATION_COINS && kyber_encapsulation(public_key, c) == (shared_secret, ciphertext)
}

/// Relies on `kyber1024::keypair`: it draws 64 random bytes and derives the
/// key pair from them alone; the secret key holds the public key at byte 1536.
#[verifier::external_body]
fn kyber_keypair() -> (r: (Vec<u8>, Vec<u8>))
    ensures
        r.0@.len() == KYBER_PUBLICKEYBYTES,
        r.1@.len() == KYBER_SECRETKEYBYTES,
        r.1@.subrange(KYBER_SECRETKEY_PUBLIC_OFFSET as int, KYBER_SECRETKEY_PUBLIC_OFFSET + KYBER_PUBLICKEYBYTES) == r.0@,
        keypair_coins(r.0@, r.1@).len() == KYBER_KEYPAIR_COINS,
        kyber_keypair_from(keypair_coins(r.0@, r.1@)) == (r.0@, r.1@),
{
    let (pk, sk) = kyber::keypair();
    (pk.as_bytes().to_vec(), sk.as_bytes().to_vec())
}

/// Relies on `kyber1024::PublicKey::from_bytes`, which refuses exactly the
/// inputs that are not 1568 bytes long, and on `kyber1024::encapsulate`: it
/// draws 32 random bytes and derives from them and the key alone a 32-byte
/// shared secret and the 1568-byte ciphertext that carries it.
#[verifier::external_body]
fn kyber_encapsulate(public_key: &[u8]) -> (r: Result<(Vec<u8>, Vec<u8>), pqcrypto_traits::Error>)
    ensures
        r is Ok <==> public_key@.len() == KYBER_PUBLICKEYBYTES,
        r matches Ok((ss, ct)) ==> ss@.len() == KYBER_SHAREDSECRETBYTES && ct@.len()
            == KYBER_CIPHERTEXTBYTES,
        r matches Ok((ss, ct)) ==> encapsulation_coins(public_key@, ss@, ct@).len() == KYBER_ENCAPSULATION_COINS,
        r matches Ok((ss, ct)) ==> kyber_encapsulation(public_key@, encapsulation_coins(public_key@, ss@, ct@)) == (ss@, ct@),
{
    let pk = kyber::PublicKey::from_bytes(public_key)?;
    let (ss, ct) = kyber::encapsulate(&pk);
    Ok((ss.as_bytes().to_vec(), ct.as_bytes().to_vec()))
}

/// Relies on `kyber1024::Ciphertext::from_bytes` and
/// `kyber1024::SecretKey::from_bytes`, which refuse exactly the inputs of
/// another length than 1568 and 3168 bytes, and on `kyber1024::decapsulate`:
/// a 32-byte shared secret that depends on the ciphertext and the key alone.
#[verifier::external_body]
fn kyber_decapsulate(ciphertext: &[u8], secret_key: &[u8]) -> (r: Result<Vec<u8>, pqcrypto_traits::Error>)
    ensures
        r is Ok <==> (ciphertext@.len() == KYBER_CIPHERTEXTBYTES && secret_key@.len() == KYBER_SECRETKEYBYTES),
        r matches Ok(ss) ==> ss@ == kyber_shared_secret(ciphertext@, secret_key@) && ss@.len()
            == KYBER_SHAREDSECRETBYTES,
{
    let ct = kyber::Ciphertext::from_bytes(ciphertext)?;
    let sk = kyber::SecretKey::from_bytes(secret_key)?;
    Ok(kyber::decapsulate(&ct, &sk).as_bytes().to_vec())
}

/// A fresh Kyber-1024 key pair: (public key, secret key), derived from 64
/// random bytes; the secret key holds the public key.
pub fn generate_kyber_keys() -> (r: (Vec<u8>, Vec<u8>))
    ensures
        r.0@.len() == KYBER_PUBLICKEYBYTES,
        r.1@.len() == KYBER_SECRETKEYBYTES,
        r.1@.subrange(KYBER_SECRETKEY_PUBLIC_OFFSET as int, KYBER_SECRETKEY_PUBLIC_OFFSET + KYBER_PUBLICKEYBYTES) == r.0@,
        derived_keypair(r.0@, r.1@),
{
    let keys = kyber_keypair();
    assert(derived_keypair(keys.0@, keys.1@)) by {
        let c = keypair_coins(keys.0@, keys.1@);
        assert(c.len() == KYBER_KEYPAIR_COINS && kyber_keypair_from(c) == (keys.0@, keys.1@));
    }
    keys
}

/// Encapsulates a fresh shared secret for the holder of `pk_bytes`; returns
/// (shared secret, ciphertext), derived from the key and 32 random bytes.
/// Every well-sized public key is accepted.
pub fn encapsulate_kyber(pk_bytes: Vec<u8>) -> (r: Result<(Vec<u8>, Vec<u8>), CryptoError>)
    ensures
        pk_bytes@.len() != KYBER_PUBLICKEYBYTES ==> r == Err::<(Vec<u8>, Vec<u8>), _>(
            CryptoError::InvalidPublicKeyLength,
        ),
        pk_bytes@.len() == KYBER_PUBLICKEYBYTES ==> (r matches Ok((ss, ct)) && ss@.len()
            == KYBER_SHAREDSECRETBYTES && ct@.len() == KYBER_CIPHERTEXTBYTES && derived_encapsulation(pk_bytes@, ss@, ct@)),
{
    if pk_bytes.len() != KYBER_PUBLICKEYBYTES {
        return Err(CryptoError::InvalidPublicKeyLength);
    }
    match kyber_encapsulate(pk_bytes.as_slice()) {
        Ok(pair) => {
            assert(derived_encapsulation(pk_bytes@, pair.0@, pair.1@)) by {
                let c = encapsulation_coins(pk_bytes@, pair.0@, pair.1@);
                assert(c.len() == KYBER_ENCAPSULATION_COINS && kyber_encapsulation(pk_bytes@, c) == (
                pair.0@,
                pair.1@,
                ));
            }
            Ok(pair)
        },
        Err(_) => Err(CryptoError::InvalidPublicKeyEncoding),
    }
}

/// Recovers the shared secret carried by `ct_bytes` with `sk_bytes`. A secret
/// key that does not match yields another well-formed secret, not an error.
pub fn decapsulate_kyber(ct_bytes: Vec<u8>, sk_bytes: Vec<u8>) -> (r: Result<Vec<u8>, CryptoError>)
    ensures
        ct_bytes@.len() != KYBER_CIPHERTEXTBYTES ==> r == Err::<Vec<u8>, _>(
            CryptoError::InvalidCiphertextLength,
        ),
        ct_bytes@.len() == KYBER_CIPHERTEXTBYTES && sk_bytes@.len() != KYBER_SECRETKEYBYTES ==> r
            == Err::<Vec<u8>, _>(CryptoError::InvalidSecretKeyLength),
        ct_bytes@.len() == KYBER_CIPHERTEXTBYTES && sk_bytes@.len() == KYBER_SECRETKEYBYTES ==> (r matches Ok(
            ss,
        ) && ss@ == kyber_shared_secret(ct_bytes@, sk_bytes@) && ss@.len() == KYBER_SHAREDSECRETBYTES),
{
    if ct_bytes.len() != KYBER_CIPHERTEXTBYTES {
        return Err(CryptoError::InvalidCiphertextLength);
    }
    if sk_bytes.len() != KYBER_SECRETKEYBYTES {
        return Err(CryptoError::InvalidSecretKeyLength);
    }
    match kyber_decapsulate(ct_bytes.as_slice(), sk_bytes.as_slice()) {
        Ok(ss) => Ok(ss),
        Err(_) => Err(CryptoError::InvalidEncoding),
    }
}

} // verus!
