use crate::digest::bytes_equal;
use crate::error::CryptoError;
use pqcrypto_falcon::falcon1024 as falcon;
use pqcrypto_traits::sign::{PublicKey, SecretKey, SignedMessage};
use vstd::prelude::*;

verus! {

/// Length in bytes of a Falcon-1024 public key.
pub const FALCON_PUBLICKEYBYTES: usize = 1793;

/// Length in bytes of a Falcon-1024 secret key.
pub const FALCON_SECRETKEYBYTES: usize = 2305;

/// Offset of the message inside a signed message: a two-byte signature length
/// and a 40-byte nonce come first.
pub const SIGNED_MESSAGE_OFFSET: usize = 42;

/// The message that Falcon-1024 recovers from `signed` under `public_key`, or
/// `None` where the signature does not verify.
pub uninterp spec fn falcon_opened(signed: Seq<u8>, public_key: Seq<u8>) -> Option<Seq<u8>>;

/// `signed` holds `msg` after its header.
pub open spec fn embeds_message(signed: Seq<u8>, msg: Seq<u8>) -> bool {
    signed.len() >= msg.len() + SIGNED_MESSAGE_OFFSET && signed.subrange(
        SIGNED_MESSAGE_OFFSET as int,
        SIGNED_MESSAGE_OFFSET + msg.len(),
    ) == msg
}

/// Length in bytes of the random seed of key generation.
pub const FALCON_KEYPAIR_SEED: usize = 48;

/// The (public key, secret key) pair that Falcon-1024 key generation derives
/// from `seed`.
pub uninterp spec fn falcon_keypair_from(seed: Seq<u8>) -> (Seq<u8>, Seq<u8>);

/// Seed from which key generation derives `(public_key, secret_key)`, where
/// there is one.
pub open spec fn falcon_keypair_seed(public_key: Seq<u8>, secret_key: Seq<u8>) -> Seq<u8> {
    choose|seed: Seq<u8>| seed.len() == FALCON_KEYPAIR_SEED && falcon_keypair_from(seed) == (public_key, secret_key)
}

/// `(public_key, secret_key)` is a key pair that key generation derives from
/// some seed.
pub open spec fn generated_pair(public_key: Seq<u8>, secret_key: Seq<u8>) -> bool {
    exists|seed: Seq<u8>| seed.len() == FALCON_KEYPAIR_SEED && falcon_keypair_from(seed) == (public_key, secret_key)
}

/// `signed` opens to `msg` under the public key of every generated key pair
/// whose secret key is `secret_key`.
pub open spec fn signs_for_key(signed: Seq<u8>, msg: Seq<u8>, secret_key: Seq<u8>) -> bool {
    forall|seed: Seq<u8>|
        #![trigger falcon_keypair_from(seed)]
        falcon_keypair_from(seed).1 == secret_key ==> falcon_opened(signed, falcon_keypair_from(seed).0)
            == Some(msg)
}

/// `secret_key` is the secret key of a key pair that key generation derives
/// from some seed.
pub open spec fn generated_secret_key(secret_key: Seq<u8>) -> bool {
    exists|seed: Seq<u8>| seed.len() == FALCON_KEYPAIR_SEED && falcon_keypair_from(seed).1 == secret_key
}

/// Signing with `secret_key` comes to an end: either its bytes do not decode,
/// and signing stops at once, or it is a generated secret key, whose signing
/// loop finds a short enough signature. A key that decodes but was not
/// generated (a degenerate basis) can keep signing from ever finishing.
pub open spec fn signable(secret_key: Seq<u8>) -> bool {
    secret_key.len() == FALCON_SECRETKEYBYTES && falcon_secret_key_decodes(secret_key) ==> generated_secret_key(secret_key)
}

/// Whether Falcon-1024 signing can decode `secret_key` and so sign with it.
pub uninterp spec fn falcon_secret_key_decodes(secret_key: Seq<u8>) -> bool;

/// The byte string an optional byte vector holds.
pub open spec fn opt_bytes(o: Option<Vec<u8>>) -> Option<Seq<u8>> {
    match o {
        Some(v) => Some(v@),
        None => None,
    }
}

/// Relies on `falcon1024::keypair`: it draws a 48-byte seed and derives the
/// key pair from it alone, encoded in the form that signing decodes.
#[verifier::external_body]
fn falcon_keypair() -> (r: (Vec<u8>, Vec<u8>))
    ensures
        r.0@.len() == FALCON_PUBLICKEYBYTES,
        r.1@.len() == FALCON_SECRETKEYBYTES,
        falcon_secret_key_decodes(r.1@),
        falcon_keypair_seed(r.0@, r.1@).len() == FALCON_KEYPAIR_SEED,
        falcon_keypair_from(falcon_keypair_seed(r.0@, r.1@)) == (r.0@, r.1@),
{
    let (pk, sk) = falcon::keypair();
    (pk.as_bytes().to_vec(), sk.as_bytes().to_vec())
}

/// Relies on `falcon1024::SecretKey::from_bytes`, which refuses exactly the
/// inputs that are not 2305 bytes long, and on `falcon1024::sign`, whose signed
/// message holds a two-byte length, a 40-byte nonce, the message, then the
/// signature; signing stops, leaving the signed message empty, exactly where
/// the key bytes do not decode, which depends on the key alone. Otherwise it
/// retries until the signature verifies, so that `falcon1024::open` under the
/// matching public key gives the message back. On keys that decode but were
/// not generated that loop need not end, so they are left out.
#[verifier::external_body]
fn falcon_sign(msg: &[u8], secret_key: &[u8]) -> (r: Result<Vec<u8>, pqcrypto_traits::Error>)
    requires
        signable(secret_key@),
    ensures
        r is Ok <==> secret_key@.len() == FALCON_SECRETKEYBYTES,
        r matches Ok(sm) ==> (sm@.len() == 0 <==> !falcon_secret_key_decodes(secret_key@)),
        r matches Ok(sm) ==> sm@.len() == 0 || embeds_message(sm@, msg@),
        r matches Ok(sm) ==> sm@.len() == 0 || signs_for_key(sm@, msg@, secret_key@),
{
    let sk = falcon::SecretKey::from_bytes(secret_key)?;
    Ok(falcon::sign(msg, &sk).as_bytes().to_vec())
}

/// Relies on `falcon1024::PublicKey::from_bytes`, which refuses exactly the
/// inputs that are not 1793 bytes long, on `falcon1024::SignedMessage::from_bytes`,
/// which takes any bytes, and on `falcon1024::open`, whose outcome depends on
/// the signed message and the key alone.
#[verifier::external_body]
fn falcon_open(signed: &[u8], public_key: &[u8]) -> (r: Result<Option<Vec<u8>>, pqcrypto_traits::Error>)
    ensures
        r is Ok <==> public_key@.len() == FALCON_PUBLICKEYBYTES,
        r matches Ok(o) ==> opt_bytes(o) == falcon_opened(signed@, public_key@),
{
    let pk = falcon::PublicKey::from_bytes(public_key)?;
    let sm = falcon::SignedMessage::from_bytes(signed)?;
    Ok(falcon::open(&sm, &pk).ok())
}

/// A fresh Falcon-1024 key pair: (public key, secret key); the secret key
/// can sign.
pub fn generate_falcon_keys() -> (r: (Vec<u8>, Vec<u8>))
    ensures
        r.0@.len() == FALCON_PUBLICKEYBYTES,
        r.1@.len() == FALCON_SECRETKEYBYTES,
        falcon_secret_key_decodes(r.1@),
        generated_pair(r.0@, r.1@),
{
    let keys = falcon_keypair();
    assert(generated_pair(keys.0@, keys.1@)) by {
        let seed = falcon_keypair_seed(keys.0@, keys.1@);
        assert(seed.len() == FALCON_KEYPAIR_SEED && falcon_keypair_from(seed) == (keys.0@, keys.1@));
    }
    keys
}

/// Signs `msg` with `sk_bytes`; the signed message embeds `msg` after its
/// 42-byte header. A well-sized key whose bytes do not decode yields no
/// signed message and fails with `InvalidEncoding`. A key that decodes must
/// come from key generation: with other such keys signing may never finish.
pub fn sign_falcon(msg: Vec<u8>, sk_bytes: Vec<u8>) -> (r: Result<Vec<u8>, CryptoError>)
    requires
        signable(sk_bytes@),
    ensures
        sk_bytes@.len() != FALCON_SECRETKEYBYTES ==> r == Err::<Vec<u8>, _>(
            CryptoError::InvalidSecretKeyLength,
        ),
        sk_bytes@.len() == FALCON_SECRETKEYBYTES ==> (r is Ok <==> falcon_secret_key_decodes(sk_bytes@)),
        sk_bytes@.len() == FALCON_SECRETKEYBYTES ==> (r matches Ok(sm) ==> embeds_message(sm@, msg@)),
        sk_bytes@.len() == FALCON_SECRETKEYBYTES ==> (r matches Ok(sm) ==> signs_for_key(sm@, msg@, sk_bytes@)),
        sk_bytes@.len() == FALCON_SECRETKEYBYTES ==> (r matches Err(e) ==> e == CryptoError::InvalidEncoding),
{
    if sk_bytes.len() != FALCON_SECRETKEYBYTES {
        return Err(CryptoError::InvalidSecretKeyLength);
    }
    match falcon_sign(msg.as_slice(), sk_bytes.as_slice()) {
        Ok(sm) => {
            if sm.len() == 0 {
                Err(CryptoError::InvalidEncoding)
            } else {
                Ok(sm)
            }
        },
        Err(_) => Err(CryptoError::InvalidEncoding),
    }
}

/// Signs `msg` with a fresh key pair; returns (public key, secret key, signed
/// message). The signed message opens to `msg` under the public key.
pub fn sign_with_new_keys(msg: Vec<u8>) -> (r: (Vec<u8>, Vec<u8>, Vec<u8>))
    ensures
        r.0@.len() == FALCON_PUBLICKEYBYTES,
        r.1@.len() == FALCON_SECRETKEYBYTES,
        generated_pair(r.0@, r.1@),
        embeds_message(r.2@, msg@),
        signs_for_key(r.2@, msg@, r.1@),
        falcon_opened(r.2@, r.0@) == Some(msg@),
{
    let ghost message = msg@;
    let (pk, sk) = generate_falcon_keys();
    let key = sk.clone();
    assert(key@ =~= sk@);
    assert(generated_secret_key(sk@)) by {
        let seed = falcon_keypair_seed(pk@, sk@);
        assert(seed.len() == FALCON_KEYPAIR_SEED && falcon_keypair_from(seed) == (pk@, sk@));
    }
    match sign_falcon(msg, key) {
        Ok(signed) => {
            proof {
                lemma_signature_validity(message, message, signed@, pk@, sk@);
            }
            (pk, sk, signed)
        },
        Err(_) => {
            proof {
                assert(false);
            }
            (pk, sk, Vec::new())
        },
    }
}

/// Whether verification recovered exactly `msg`: `opened` is what opening a
/// signed message gave, `None` for a signature that did not verify.
pub fn message_recovered(msg: &[u8], opened: &Option<Vec<u8>>) -> (r: bool)
    ensures
        r == (opt_bytes(*opened) == Some(msg@)),
{
    match opened {
        Some(m) => bytes_equal(m.as_slice(), msg),
        None => false,
    }
}

/// Verifies the signed message `sig_bytes` under `pk_bytes` against `msg`.
/// A signature that does not verify, or that carries another message, gives
/// `Ok(false)`; only a public key of the wrong size is an error.
pub fn verify_falcon(msg: Vec<u8>, sig_bytes: Vec<u8>, pk_bytes: Vec<u8>) -> (r: Result<bool, CryptoError>)
    ensures
        pk_bytes@.len() != FALCON_PUBLICKEYBYTES ==> r == Err::<bool, _>(
            CryptoError::InvalidPublicKeyLength,
        ),
        pk_bytes@.len() == FALCON_PUBLICKEYBYTES ==> r == Ok::<bool, CryptoError>(
            falcon_opened(sig_bytes@, pk_bytes@) == Some(msg@),
        ),
{
    if pk_bytes.len() != FALCON_PUBLICKEYBYTES {
        return Err(CryptoError::InvalidPublicKeyLength);
    }
    match falcon_open(sig_bytes.as_slice(), pk_bytes.as_slice()) {
        Ok(opened) => Ok(message_recovered(msg.as_slice(), &opened)),
        Err(_) => Err(CryptoError::InvalidPublicKeyEncoding),
    }
}

/// Signature validity: a message signed with the secret key of a generated
/// key pair opens to that message under the pair's public key, so that
/// `verify_falcon` accepts it, and it accepts no other message with it.
pub proof fn lemma_signature_validity(
    msg: Seq<u8>,
    other: Seq<u8>,
    signed: Seq<u8>,
    public_key: Seq<u8>,
    secret_key: Seq<u8>,
)
    requires
        generated_pair(public_key, secret_key),
        signs_for_key(signed, msg, secret_key),
    ensures
        falcon_opened(signed, public_key) == Some(msg),
        other != msg ==> falcon_opened(signed, public_key) != Some(other),
{
    let seed = choose|seed: Seq<u8>|
        seed.len() == FALCON_KEYPAIR_SEED && falcon_keypair_from(seed) == (public_key, secret_key);
    assert(falcon_keypair_from(seed).1 == secret_key);
}

} // verus!
