use vstd::array::array_as_slice;
use vstd::prelude::*;
use vstd::slice::slice_to_vec;

use crate::signature::Signature;
use crate::signature_error::SignatureError;
use crate::signer::tagged;
use crate::signer::Produced;
use crate::signer::Signer;
use crate::signing_algorithm::SigningAlgorithm;

verus! {

/// What ECDSA signing over secp256k1 yields for `message` under the secret
/// scalar `secret`: the 64 bytes r followed by s, or the text of the failure
/// (`secret` is no scalar of the curve, or the signature does not exist).
pub uninterp spec fn secp256k1_signature(secret: Seq<u8>, message: Seq<u8>) -> Produced;

/// The public key that belongs to the secret scalar `secret`, as a SEC1
/// octet string with point compression; `None` where `secret` is no scalar
/// of the curve.
pub uninterp spec fn secp256k1_verifying_key(secret: Seq<u8>) -> Option<Seq<u8>>;

/// Whether `secret` is a secret scalar of the curve, which is to say that a
/// public key belongs to it.
pub open spec fn is_secret_scalar(secret: Seq<u8>) -> bool {
    secp256k1_verifying_key(secret) is Some
}

/// What a signing call yielded, with the bytes and the text as sequences.
pub open spec fn yielded(produced: Result<[u8; 64], String>) -> Produced {
    match produced {
        Ok(signature) => Ok(signature@),
        Err(message) => Err(message@),
    }
}

/// `SigningKey::random` of `k256` with the operating system's generator,
/// then `to_bytes`: the 32 big-endian bytes of a fresh random scalar. The
/// generator draws again until the scalar is not zero, and the bytes are
/// those of a scalar below the group order, so what comes back is always a
/// secret scalar of the curve. Nothing else is known of which bytes come back.
#[verifier::external_body]
fn generate_secret() -> (secret: [u8; 32])
    ensures
        is_secret_scalar(secret@),
{
    k256::ecdsa::SigningKey::random(&mut rand_core::OsRng).to_bytes().into()
}

/// `SigningKey::verifying_key` of `k256` and `VerifyingKey::to_sec1_bytes`,
/// on the key that `SigningKey::from_bytes` makes of `secret`. The public
/// key is derived from the secret scalar alone.
#[verifier::external_body]
fn derive_verifying_key(secret: &[u8; 32]) -> (public: Option<Vec<u8>>)
    ensures
        match public {
            Some(encoded) => secp256k1_verifying_key(secret@) == Some(encoded@),
            None => secp256k1_verifying_key(secret@) is None,
        },
{
    match k256::ecdsa::SigningKey::from_bytes(&(*secret).into()) {
        Ok(key) => Some(key.verifying_key().to_sec1_bytes().into_vec()),
        Err(_) => None,
    }
}

/// `Signer::try_sign` of `k256` on the key that `SigningKey::from_bytes`
/// makes of `secret`. The nonce is derived from the key and the message
/// (RFC 6979), so the outcome is determined by the two. Bytes that are no
/// secret scalar make no key, and then there is no signature.
#[verifier::external_body]
fn sign_message(secret: &[u8; 32], message: &[u8]) -> (produced: Result<[u8; 64], String>)
    ensures
        yielded(produced) == secp256k1_signature(secret@, message@),
        !is_secret_scalar(secret@) ==> produced is Err,
{
    let key = match k256::ecdsa::SigningKey::from_bytes(&(*secret).into()) {
        Ok(key) => key,
        Err(error) => return Err(error.to_string()),
    };
    let signed: Result<k256::ecdsa::Signature, _> = k256::ecdsa::signature::Signer::try_sign(
        &key,
        message,
    );
    match signed {
        Ok(signature) => Ok(signature.to_bytes().into()),
        Err(error) => Err(error.to_string()),
    }
}

/// A Secp256k1 (ECDSA) signer. It holds the 32 big-endian bytes of a secret
/// scalar.
pub struct Secp256k1Signer {
    signing_key: [u8; 32],
}

impl Secp256k1Signer {
    /// The secret scalar that this signer holds.
    pub closed spec fn key(&self) -> Seq<u8> {
        self.signing_key@
    }

    /// Creates a new `Secp256k1Signer` from an existing secret scalar. The
    /// bytes are taken as they are: with bytes that are no scalar of the
    /// curve, signing fails and there is no verifying key.
    #[must_use]
    pub fn new(signing_key: [u8; 32]) -> (signer: Self)
        ensures
            signer.key() == signing_key@,
    {
        Self { signing_key }
    }

    /// Generates a new random Secp256k1 signing key and returns a signer. The
    /// key is a secret scalar of the curve, so the signer has a verifying key.
    #[must_use]
    pub fn new_random() -> (signer: Self)
        ensures
            is_secret_scalar(signer.key()),
    {
        Self { signing_key: generate_secret() }
    }

    /// Returns a reference to the secret scalar held by this signer.
    #[must_use]
    pub fn get_signing_key(&self) -> (signing_key: &[u8; 32])
        ensures
            signing_key@ == self.key(),
    {
        &self.signing_key
    }

    /// Returns the corresponding verifying key, derived anew on each call.
    #[must_use]
    pub fn get_verifying_key(&self) -> (verifying_key: Option<Vec<u8>>)
        ensures
            match verifying_key {
                Some(encoded) => secp256k1_verifying_key(self.key()) == Some(encoded@),
                None => secp256k1_verifying_key(self.key()) is None,
            },
    {
        derive_verifying_key(&self.signing_key)
    }
}

impl Default for Secp256k1Signer {
    /// Creates a default `Secp256k1Signer`, with a freshly generated key.
    fn default() -> (signer: Self)
        ensures
            is_secret_scalar(signer.key()),
    {
        Self::new_random()
    }
}

impl Signer for Secp256k1Signer {
    open spec fn algorithm(&self) -> SigningAlgorithm {
        SigningAlgorithm::ECDSA
    }

    open spec fn produced(&self, digest: Seq<u8>) -> Produced {
        secp256k1_signature(self.key(), digest)
    }

    /// Signs the provided hash and returns the resulting signature, which
    /// has 64 bytes. A signer whose bytes are no secret scalar of the curve
    /// signs nothing.
    fn sign(&self, hash: &slahasher::Hash) -> (outcome: Result<Signature, SignatureError>)
        ensures
            outcome matches Ok(signature) ==> signature@.signature.len() == 64,
            !is_secret_scalar(self.key()) ==> outcome is Err,
    {
        match sign_message(&self.signing_key, hash.get_bytes().get_bytes()) {
            Ok(raw) => tagged(SigningAlgorithm::ECDSA, Ok(slice_to_vec(array_as_slice(&raw)))),
            Err(message) => tagged(SigningAlgorithm::ECDSA, Err(message)),
        }
    }
}

} // verus!
