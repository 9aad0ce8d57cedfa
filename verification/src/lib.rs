//! Algorithm-tagged signatures over Ed25519, ECDSA/secp256k1 and RSA PKCS#1 v1.5,
//! with a stable one-byte-prefixed binary encoding.

/// Ed25519 signing.
pub mod ed25519;

/// Types and functions of other crates that this library builds on.
pub mod external;

/// RSA PKCS#1 v1.5 signing.
pub mod rsa;

/// ECDSA signing on secp256k1.
pub mod secp256k1;

/// Tagged signature values and their wire form.
pub mod signature;

/// Error type for signature operations.
pub mod signature_error;

/// Signing interface.
pub mod signer;

/// Supported signing algorithms and their wire ordinals.
pub mod signing_algorithm;

pub use ed25519::Ed25519Signer;
pub use rsa::RsaSigner;
pub use secp256k1::Secp256k1Signer;
pub use signature::Signature;
pub use signature_error::SignatureError;
pub use signer::Signer;
pub use signing_algorithm::SigningAlgorithm;
