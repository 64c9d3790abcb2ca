//! Cryptographic envelopes and integrity proofs: AES-256-GCM authenticated
//! encryption, Kyber-1024 key encapsulation, Falcon-1024 signatures, and a
//! binary SHA-256 Merkle tree.
pub mod digest;
pub mod error;
pub mod kem;
pub mod merkle;
pub mod signature;
pub mod symmetric;
