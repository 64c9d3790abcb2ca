use vstd::prelude::*;

verus! {

/// Why an operation refused its input or could not complete.
#[derive(Debug, Clone, Copy, PartialEq, Eq, Structural)]
pub enum CryptoError {
    /// A symmetric key that is not exactly 32 bytes.
    InvalidKeyLength,
    /// A nonce that is not exactly 12 bytes.
    InvalidNonceLength,
    /// The cipher refused to encrypt (a plaintext beyond its size limit).
    EncryptionFailure,
    /// The authentication tag did not verify: wrong key, wrong nonce or altered data.
    AuthenticationFailure,
    /// A public key of the wrong size.
    InvalidPublicKeyLength,
    /// A public key of the right size that does not decode.
    InvalidPublicKeyEncoding,
    /// A secret key of the wrong size.
    InvalidSecretKeyLength,
    /// A KEM ciphertext of the wrong size.
    InvalidCiphertextLength,
    /// A key or ciphertext of the right size that does not decode.
    InvalidEncoding,
}

} // verus!
