use crate::error::CryptoError;
use aes_gcm::aead::{Aead, AeadCore, KeyInit, OsRng};
use aes_gcm::{Aes256Gcm, Nonce};
use generic_array::typenum::U32;
use generic_array::GenericArray;
use vstd::prelude::*;

verus! {

/// Length in bytes of an AES-256 key.
pub const KEY_LEN: usize = 32;

/// Length in bytes of an AES-GCM nonce.
pub const NONCE_LEN: usize = 12;

/// Length in bytes of the authentication tag appended to each ciphertext.
pub const TAG_LEN: usize = 16;

/// The largest plaintext, in bytes, that AES-GCM encrypts (2^36).
pub const MAX_PLAINTEXT_LEN: u64 = 68719476736;

/// The largest plaintext, in bytes, that AES-GCM decryption returns
/// (2^36 + 16).
pub const MAX_OPENED_LEN: u64 = 68719476752;

#[verifier::external_type_specification]
#[verifier::external_body]
pub struct ExAeadError(aes_gcm::Error);

/// The ciphertext with its tag that the AES-256-GCM computation gives for
/// `plaintext` under `key` and `nonce`, with no associated data.
pub uninterp spec fn aes_gcm_sealed(key: Seq<u8>, nonce: Seq<u8>, plaintext: Seq<u8>) -> Seq<u8>;

/// The authentication tag that AES-256-GCM computes under `key` and `nonce`
/// for the encrypted body `body`, with no associated data.
pub uninterp spec fn aes_gcm_tag_of(key: Seq<u8>, nonce: Seq<u8>, body: Seq<u8>) -> Seq<u8>;

/// `ciphertext` ends in the tag of the bytes before it.
pub open spec fn tag_matches(key: Seq<u8>, nonce: Seq<u8>, ciphertext: Seq<u8>) -> bool {
    ciphertext.len() >= TAG_LEN && ciphertext.subrange(ciphertext.len() - TAG_LEN, ciphertext.len() as int)
        == aes_gcm_tag_of(key, nonce, ciphertext.subrange(0, ciphertext.len() - TAG_LEN))
}

/// `plaintext` is within the size that decryption handles, and its encryption
/// under `key` and `nonce` is `ciphertext`.
pub open spec fn seals_to(key: Seq<u8>, nonce: Seq<u8>, plaintext: Seq<u8>, ciphertext: Seq<u8>) -> bool {
    plaintext.len() <= MAX_OPENED_LEN && aes_gcm_sealed(key, nonce, plaintext) == ciphertext
}

/// What encrypting `plaintext` under `key` with `nonce` gives.
pub open spec fn encryption_outcome(plaintext: Seq<u8>, key: Seq<u8>, nonce: Seq<u8>) -> Result<Seq<u8>, CryptoError> {
    if key.len() != KEY_LEN {
        Err(CryptoError::InvalidKeyLength)
    } else if nonce.len() != NONCE_LEN {
        Err(CryptoError::InvalidNonceLength)
    } else if plaintext.len() > MAX_PLAINTEXT_LEN {
        Err(CryptoError::EncryptionFailure)
    } else {
        Ok(aes_gcm_sealed(key, nonce, plaintext))
    }
}

/// The byte strings a byte-vector result holds.
pub open spec fn bytes_result(r: Result<Vec<u8>, CryptoError>) -> Result<Seq<u8>, CryptoError> {
    match r {
        Ok(v) => Ok(v@),
        Err(e) => Err(e),
    }
}

/// Relies on `aes_gcm::Aes256Gcm::encrypt` without associated data: it fails
/// exactly on plaintexts over `MAX_PLAINTEXT_LEN` bytes, and otherwise appends
/// to a body as long as the plaintext the 16-byte tag computed over that body.
#[verifier::external_body]
fn seal(key: &[u8], nonce: &[u8], plaintext: &[u8]) -> (r: Result<Vec<u8>, aes_gcm::Error>)
    requires
        key@.len() == KEY_LEN,
        nonce@.len() == NONCE_LEN,
    ensures
        r is Ok <==> plaintext@.len() <= MAX_PLAINTEXT_LEN,
        r matches Ok(c) ==> c@ == aes_gcm_sealed(key@, nonce@, plaintext@) && c@.len()
            == plaintext@.len() + TAG_LEN,
        r matches Ok(c) ==> c@.subrange(plaintext@.len() as int, c@.len() as int) == aes_gcm_tag_of(key@, nonce@, c@.subrange(0, plaintext@.len() as int)),
{
    let cipher = Aes256Gcm::new(GenericArray::<u8, U32>::from_slice(key));
    cipher.encrypt(Nonce::from_slice(nonce), plaintext)
}

/// Relies on `aes_gcm::Aes256Gcm::decrypt` without associated data: it
/// refuses a ciphertext body over `MAX_OPENED_LEN` bytes and otherwise returns a
/// plaintext exactly when the tag verifies, that is when encrypting that
/// plaintext gives `ciphertext` back; for a given key and nonce at most one
/// plaintext does, and it is 16 bytes shorter than the ciphertext. It
/// succeeds only where the last 16 bytes equal the tag it computes over the
/// bytes before them.
#[verifier::external_body]
fn open(key: &[u8], nonce: &[u8], ciphertext: &[u8]) -> (r: Result<Vec<u8>, aes_gcm::Error>)
    requires
        key@.len() == KEY_LEN,
        nonce@.len() == NONCE_LEN,
    ensures
        r is Ok <==> exists|p: Seq<u8>| seals_to(key@, nonce@, p, ciphertext@),
        r matches Ok(q) ==> q@.len() + TAG_LEN == ciphertext@.len(),
        r matches Ok(q) ==> ciphertext@.subrange(q@.len() as int, ciphertext@.len() as int) == aes_gcm_tag_of(key@, nonce@, ciphertext@.subrange(0, q@.len() as int)),
        r matches Ok(q) ==> forall|p: Seq<u8>|
            seals_to(key@, nonce@, p, ciphertext@) <==> p == q@,
{
    let cipher = Aes256Gcm::new(GenericArray::<u8, U32>::from_slice(key));
    cipher.decrypt(Nonce::from_slice(nonce), ciphertext)
}

/// Relies on `AeadCore::generate_nonce` drawing from the operating system's
/// secure generator: a fresh nonce of 12 bytes.
#[verifier::external_body]
fn random_nonce() -> (r: Vec<u8>)
    ensures
        r@.len() == NONCE_LEN,
{
    Aes256Gcm::generate_nonce(&mut OsRng).to_vec()
}

/// Round trip: whatever `encrypt_data_with_nonce` returns for a plaintext is a
/// ciphertext that this plaintext seals to under the same key and nonce, so
/// `decrypt_data` with that key and nonce returns the plaintext.
pub proof fn lemma_round_trip(plaintext: Seq<u8>, key: Seq<u8>, nonce: Seq<u8>)
    ensures
        encryption_outcome(plaintext, key, nonce) matches Ok(c) ==> seals_to(key, nonce, plaintext, c),
{
}

/// Tamper detection on the tag: a ciphertext that keeps the body of one whose
/// tag matches and changes its tag has a tag that does not match, so that
/// `decrypt_data` fails with `AuthenticationFailure` on it.
pub proof fn lemma_tag_tamper(key: Seq<u8>, nonce: Seq<u8>, ciphertext: Seq<u8>, altered: Seq<u8>)
    requires
        tag_matches(key, nonce, ciphertext),
        altered.len() == ciphertext.len(),
        altered.subrange(0, altered.len() - TAG_LEN) == ciphertext.subrange(0, ciphertext.len() - TAG_LEN),
        altered != ciphertext,
    ensures
        !tag_matches(key, nonce, altered),
{
    let n = ciphertext.len() as int;
    let cut = n - TAG_LEN;
    if tag_matches(key, nonce, altered) {
        assert(altered.subrange(cut, n) == ciphertext.subrange(cut, n));
        assert(altered =~= altered.subrange(0, cut) + altered.subrange(cut, n));
        assert(ciphertext =~= ciphertext.subrange(0, cut) + ciphertext.subrange(cut, n));
    }
}

/// Encrypts and authenticates `data` under `key_bytes` with the caller's
/// nonce; the result is the ciphertext followed by its tag. The caller keeps
/// each nonce unique under a key.
pub fn encrypt_data_with_nonce(data: Vec<u8>, key_bytes: Vec<u8>, nonce_bytes: Vec<u8>) -> (r:
    Result<Vec<u8>, CryptoError>)
    ensures
        bytes_result(r) == encryption_outcome(data@, key_bytes@, nonce_bytes@),
        r matches Ok(c) ==> c@.len() == data@.len() + TAG_LEN,
        r matches Ok(c) ==> tag_matches(key_bytes@, nonce_bytes@, c@),
{
    if key_bytes.len() != KEY_LEN {
        return Err(CryptoError::InvalidKeyLength);
    }
    if nonce_bytes.len() != NONCE_LEN {
        return Err(CryptoError::InvalidNonceLength);
    }
    match seal(key_bytes.as_slice(), nonce_bytes.as_slice(), data.as_slice()) {
        Ok(c) => Ok(c),
        Err(_) => Err(CryptoError::EncryptionFailure),
    }
}

/// Encrypts and authenticates `data` under `key_bytes` with a fresh random
/// nonce; returns the ciphertext with its tag, and the nonce.
pub fn encrypt_data(data: Vec<u8>, key_bytes: Vec<u8>) -> (r: Result<(Vec<u8>, Vec<u8>), CryptoError>)
    ensures
        key_bytes@.len() != KEY_LEN ==> r == Err::<(Vec<u8>, Vec<u8>), _>(CryptoError::InvalidKeyLength),
        key_bytes@.len() == KEY_LEN && data@.len() > MAX_PLAINTEXT_LEN ==> r == Err::<
            (Vec<u8>, Vec<u8>),
            _,
        >(CryptoError::EncryptionFailure),
        key_bytes@.len() == KEY_LEN && data@.len() <= MAX_PLAINTEXT_LEN ==> (r matches Ok((c, n))
            && n@.len() == NONCE_LEN && c@ == aes_gcm_sealed(key_bytes@, n@, data@) && c@.len()
            == data@.len() + TAG_LEN && tag_matches(key_bytes@, n@, c@)),
{
    if key_bytes.len() != KEY_LEN {
        return Err(CryptoError::InvalidKeyLength);
    }
    let nonce = random_nonce();
    match seal(key_bytes.as_slice(), nonce.as_slice(), data.as_slice()) {
        Ok(c) => Ok((c, nonce)),
        Err(_) => Err(CryptoError::EncryptionFailure),
    }
}

/// Checks and decrypts `ciphertext_with_tag` under `key_bytes` and `nonce`.
/// A plaintext is returned only when the tag verifies, and it is then the one
/// whose encryption is exactly the given ciphertext: decrypting what
/// `encrypt_data_with_nonce` produced with the same key and nonce gives the
/// plaintext back. Any other ciphertext fails with `AuthenticationFailure`.
pub fn decrypt_data(ciphertext_with_tag: &[u8], nonce: &[u8], key_bytes: &[u8]) -> (r: Result<
    Vec<u8>,
    CryptoError,
>)
    ensures
        key_bytes@.len() != KEY_LEN ==> r == Err::<Vec<u8>, _>(CryptoError::InvalidKeyLength),
        key_bytes@.len() == KEY_LEN && nonce@.len() != NONCE_LEN ==> r == Err::<Vec<u8>, _>(
            CryptoError::InvalidNonceLength,
        ),
        key_bytes@.len() == KEY_LEN && nonce@.len() == NONCE_LEN ==> {
            &&& r is Ok <==> exists|p: Seq<u8>| seals_to(key_bytes@, nonce@, p, ciphertext_with_tag@)
            &&& r matches Ok(p) ==> seals_to(key_bytes@, nonce@, p@, ciphertext_with_tag@)
            &&& r matches Ok(p) ==> p@.len() + TAG_LEN == ciphertext_with_tag@.len()
            &&& !tag_matches(key_bytes@, nonce@, ciphertext_with_tag@) ==> r == Err::<Vec<u8>, _>(
                CryptoError::AuthenticationFailure,
            )
            &&& ciphertext_with_tag@.len() < TAG_LEN ==> r == Err::<Vec<u8>, _>(
                CryptoError::AuthenticationFailure,
            )
            &&& forall|p: Seq<u8>|
                #![trigger aes_gcm_sealed(key_bytes@, nonce@, p)]
                seals_to(key_bytes@, nonce@, p, ciphertext_with_tag@) ==> (r matches Ok(q) && q@
                    == p)
            &&& r matches Err(e) ==> e == CryptoError::AuthenticationFailure
        },
{
    if key_bytes.len() != KEY_LEN {
        return Err(CryptoError::InvalidKeyLength);
    }
    if nonce.len() != NONCE_LEN {
        return Err(CryptoError::InvalidNonceLength);
    }
    match open(key_bytes, nonce, ciphertext_with_tag) {
        Ok(p) => Ok(p),
        Err(_) => Err(CryptoError::AuthenticationFailure),
    }
}

/// `decrypt_data` with owned arguments, the key before the nonce.
pub fn decrypt_data_with_nonce(ciphertext_with_tag: Vec<u8>, key_bytes: Vec<u8>, nonce_bytes: Vec<u8>) -> (r:
    Result<Vec<u8>, CryptoError>)
    ensures
        key_bytes@.len() != KEY_LEN ==> r == Err::<Vec<u8>, _>(CryptoError::InvalidKeyLength),
        key_bytes@.len() == KEY_LEN && nonce_bytes@.len() != NONCE_LEN ==> r == Err::<Vec<u8>, _>(
            CryptoError::InvalidNonceLength,
        ),
        key_bytes@.len() == KEY_LEN && nonce_bytes@.len() == NONCE_LEN ==> {
            &&& r matches Ok(p) ==> seals_to(key_bytes@, nonce_bytes@, p@, ciphertext_with_tag@)
            &&& r matches Ok(p) ==> p@.len() + TAG_LEN == ciphertext_with_tag@.len()
            &&& !tag_matches(key_bytes@, nonce_bytes@, ciphertext_with_tag@) ==> r == Err::<Vec<u8>, _>(
                CryptoError::AuthenticationFailure,
            )
            &&& ciphertext_with_tag@.len() < TAG_LEN ==> r == Err::<Vec<u8>, _>(
                CryptoError::AuthenticationFailure,
            )
            &&& forall|p: Seq<u8>|
                #![trigger aes_gcm_sealed(key_bytes@, nonce_bytes@, p)]
                seals_to(key_bytes@, nonce_bytes@, p, ciphertext_with_tag@) ==> (r matches Ok(q)
                    && q@ == p)
            &&& r matches Err(e) ==> e == CryptoError::AuthenticationFailure
        },
{
    decrypt_data(ciphertext_with_tag.as_slice(), nonce_bytes.as_slice(), key_bytes.as_slice())
}

} // verus!
