use vstd::prelude::*;

verus! {

/// `base_xx::SerialiseError`, the error of the byte-container crate. Opaque here.
#[verifier::external_type_specification]
#[verifier::external_body]
pub struct ExSerialiseError(base_xx::SerialiseError);

/// `base_xx::ByteVec`, an immutable container of bytes.
#[verifier::external_type_specification]
#[verifier::external_body]
pub struct ExByteVec(base_xx::ByteVec);

/// `slahasher::Hash`, a digest together with the algorithm that produced it.
#[verifier::external_type_specification]
#[verifier::external_body]
pub struct ExHash(slahasher::Hash);

/// The error value that `base_xx::SerialiseError::new` builds from a message.
pub uninterp spec fn serialise_error(message: Seq<char>) -> base_xx::SerialiseError;

/// The digest bytes that a `slahasher::Hash` holds, in order.
pub uninterp spec fn hash_bytes(hash: slahasher::Hash) -> Seq<u8>;

/// The bytes that a `base_xx::ByteVec` holds, in order.
pub uninterp spec fn byte_vec_bytes(container: base_xx::ByteVec) -> Seq<u8>;

/// `SerialiseError::new` stores the message and does nothing else, so the
/// error is determined by the message's text.
pub assume_specification[ base_xx::SerialiseError::new ](message: String) -> (error:
    base_xx::SerialiseError)
    ensures
        error == serialise_error(message@),
;

/// `ByteVec::new` takes ownership of the bytes unchanged.
pub assume_specification[ base_xx::ByteVec::new ](bytes: Vec<u8>) -> (container: base_xx::ByteVec)
    ensures
        byte_vec_bytes(container) == bytes@,
;

/// `ByteVec::get_bytes` borrows the bytes it holds.
pub assume_specification[ base_xx::ByteVec::get_bytes ](container: &base_xx::ByteVec) -> (bytes:
    &[u8])
    ensures
        bytes@ == byte_vec_bytes(*container),
;

/// `Hash::get_bytes` borrows the container that holds the digest, so the
/// container's bytes are the digest's.
pub assume_specification[ slahasher::Hash::get_bytes ](hash: &slahasher::Hash) -> (digest:
    &base_xx::ByteVec)
    ensures
        byte_vec_bytes(*digest) == hash_bytes(*hash),
;

} // verus!
