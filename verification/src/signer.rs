use vstd::prelude::*;

use crate::external::hash_bytes;
use crate::signature::Signature;
use crate::signature::SignatureView;
use crate::signature_error::SignatureError;
use crate::signing_algorithm::SigningAlgorithm;

verus! {

/// What a signing primitive yields: the raw signature bytes, or the text
/// with which it failed.
pub type Produced = Result<Seq<u8>, Seq<char>>;

/// What a signer returns for what its primitive yielded: the bytes under the
/// signer's tag, or the failure text as the error's message.
pub open spec fn tagged_view(algorithm: SigningAlgorithm, produced: Produced) -> Result<
    SignatureView,
    Seq<char>,
> {
    match produced {
        Ok(signature) => Ok(SignatureView { algorithm, signature }),
        Err(message) => Err(message),
    }
}

/// The outcome of a signing call, by the views of its two cases.
pub open spec fn outcome_view(outcome: Result<Signature, SignatureError>) -> Result<
    SignatureView,
    Seq<char>,
> {
    match outcome {
        Ok(signature) => Ok(signature@),
        Err(error) => Err(error@),
    }
}

/// Signing with one fixed algorithm and one fixed key.
pub trait Signer {
    /// The algorithm of this signer. Every signature it makes carries this tag.
    spec fn algorithm(&self) -> SigningAlgorithm;

    /// What this signer's primitive yields for `digest` under the key held.
    spec fn produced(&self, digest: Seq<u8>) -> Produced;

    /// Signs the bytes of `hash`. The caller hashes the data beforehand; the
    /// digest is signed as it is.
    ///
    /// # Errors
    ///
    /// Returns an error, with the primitive's own text, if the signing
    /// operation fails.
    fn sign(&self, hash: &slahasher::Hash) -> (outcome: Result<Signature, SignatureError>)
        ensures
            outcome_view(outcome) == tagged_view(
                self.algorithm(),
                self.produced(hash_bytes(*hash)),
            ),
    ;
}

/// Puts what a signing primitive yielded under a signer's tag: the bytes
/// become a signature of `algorithm`, a failure text becomes the error.
pub fn tagged(algorithm: SigningAlgorithm, produced: Result<Vec<u8>, String>) -> (outcome: Result<
    Signature,
    SignatureError,
>)
    ensures
        outcome_view(outcome) == tagged_view(
            algorithm,
            match produced {
                Ok(bytes) => Ok(bytes@),
                Err(message) => Err(message@),
            },
        ),
{
    match produced {
        Ok(bytes) => Ok(Signature::new_with_algorithm(algorithm, bytes)),
        Err(message) => Err(SignatureError::new(message)),
    }
}

/// On success a signer's tag is its own algorithm, whatever the digest.
pub proof fn lemma_tag_is_signers<S: Signer>(
    signer: S,
    digest: Seq<u8>,
)
    ensures
        tagged_view(signer.algorithm(), signer.produced(digest)) matches Ok(signature)
            ==> signature.algorithm == signer.algorithm(),
        tagged_view(signer.algorithm(), signer.produced(digest)) is Ok <==> signer.produced(
            digest,
        ) is Ok,
{
}

/// Signing is a function of the signer and the digest: whatever two calls
/// with the same digest return, they return the same.
pub proof fn lemma_sign_deterministic<S: Signer>(
    signer: S,
    digest: Seq<u8>,
    first: Result<Signature, SignatureError>,
    second: Result<Signature, SignatureError>,
)
    requires
        outcome_view(first) == tagged_view(signer.algorithm(), signer.produced(digest)),
        outcome_view(second) == tagged_view(signer.algorithm(), signer.produced(digest)),
    ensures
        outcome_view(first) == outcome_view(second),
        first is Ok <==> second is Ok,
{
}

} // verus!
