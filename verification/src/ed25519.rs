use vstd::array::array_as_slice;
use vstd::prelude::*;
use vstd::slice::slice_to_vec;

use crate::signature::Signature;
use crate::signature_error::SignatureError;
use crate::signer::tagged;
use crate::signer::Produced;
use crate::signer::Signer;
use crate::signing_algorithm::SigningAlgorithm;

verus! {

/// The Ed25519 signature of `message` under the secret key `secret`, as the
/// 64 bytes R followed by s.
pub uninterp spec fn ed25519_signature(secret: Seq<u8>, message: Seq<u8>) -> Seq<u8>;

/// The 32 bytes of the Ed25519 public key that belongs to `secret`.
pub uninterp spec fn ed25519_verifying_key(secret: Seq<u8>) -> Seq<u8>;

/// `SigningKey::generate` of `ed25519_dalek` with the operating system's
/// generator, then `to_bytes`: 32 fresh random bytes. Nothing is known of
/// which bytes come back.
#[verifier::external_body]
fn generate_secret() -> (secret: [u8; 32]) {
    ed25519_dalek::SigningKey::generate(&mut rand_core::OsRng).to_bytes()
}

/// `SigningKey::verifying_key` of `ed25519_dalek` on the key made of
/// `secret`: the public key is derived from the secret key alone.
#[verifier::external_body]
fn derive_verifying_key(secret: &[u8; 32]) -> (public: [u8; 32])
    ensures
        public@ == ed25519_verifying_key(secret@),
{
    ed25519_dalek::SigningKey::from_bytes(secret).verifying_key().to_bytes()
}

/// `Signer::sign` of `ed25519_dalek` on the key made of `secret`. Ed25519
/// signing draws no randomness and never fails: the signature is determined
/// by the key and the message.
#[verifier::external_body]
fn sign_message(secret: &[u8; 32], message: &[u8]) -> (signature: [u8; 64])
    ensures
        signature@ == ed25519_signature(secret@, message@),
{
    let key = ed25519_dalek::SigningKey::from_bytes(secret);
    ed25519_dalek::Signer::sign(&key, message).to_bytes()
}

/// An Ed25519 signer. It holds the 32 bytes of an Ed25519 secret key; every
/// value of them is a key.
pub struct Ed25519Signer {
    signing_key: [u8; 32],
}

impl Ed25519Signer {
    /// The secret key that this signer holds.
    pub closed spec fn key(&self) -> Seq<u8> {
        self.signing_key@
    }

    /// Creates a new `Ed25519Signer` from an existing Ed25519 secret key.
    #[must_use]
    pub fn new(signing_key: [u8; 32]) -> (signer: Self)
        ensures
            signer.key() == signing_key@,
    {
        Self { signing_key }
    }

    /// Generates a new random Ed25519 secret key and returns a signer.
    #[must_use]
    pub fn new_random() -> (signer: Self) {
        Self { signing_key: generate_secret() }
    }

    /// Returns a reference to the secret key held by this signer.
    #[must_use]
    pub fn get_signing_key(&self) -> (signing_key: &[u8; 32])
        ensures
            signing_key@ == self.key(),
    {
        &self.signing_key
    }

    /// Returns the corresponding public key, derived anew on each call.
    #[must_use]
    pub fn get_verifying_key(&self) -> (verifying_key: [u8; 32])
        ensures
            verifying_key@ == ed25519_verifying_key(self.key()),
    {
        derive_verifying_key(&self.signing_key)
    }
}

impl Default for Ed25519Signer {
    /// Creates a default `Ed25519Signer`, with a freshly generated key.
    fn default() -> (signer: Self) {
        Self::new_random()
    }
}

impl Signer for Ed25519Signer {
    open spec fn algorithm(&self) -> SigningAlgorithm {
        SigningAlgorithm::ED25519
    }

    open spec fn produced(&self, digest: Seq<u8>) -> Produced {
        Ok(ed25519_signature(self.key(), digest))
    }

    /// Signs the provided hash and returns the resulting signature. This
    /// never fails, and the signature has 64 bytes.
    fn sign(&self, hash: &slahasher::Hash) -> (outcome: Result<Signature, SignatureError>)
        ensures
            outcome matches Ok(signature) && signature@.signature.len() == 64,
    {
        let raw = sign_message(&self.signing_key, hash.get_bytes().get_bytes());
        tagged(SigningAlgorithm::ED25519, Ok(slice_to_vec(array_as_slice(&raw))))
    }
}

} // verus!
