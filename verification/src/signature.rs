use base_xx::ByteVec;
use base_xx::SerialiseError;
use vstd::prelude::*;
use vstd::slice::slice_subrange;
use vstd::slice::slice_to_vec;
use vstd::std_specs::convert::TryFromSpecImpl;

use crate::external::byte_vec_bytes;
use crate::external::serialise_error;
use crate::signing_algorithm::invalid_algorithm_message;
use crate::signing_algorithm::SigningAlgorithm;

verus! {

/// A cryptographic signature along with its associated signing algorithm.
#[derive(Debug)]
pub struct Signature {
    algorithm: SigningAlgorithm,
    signature: Vec<u8>,
}

/// What a [`Signature`] is: an algorithm tag and the raw signature bytes.
pub struct SignatureView {
    /// The algorithm that the signature was made with.
    pub algorithm: SigningAlgorithm,
    /// The raw signature bytes.
    pub signature: Seq<u8>,
}

/// The wire form of a signature: the algorithm's ordinal, then the raw
/// signature bytes unchanged. There is no length field.
pub open spec fn encode(value: SignatureView) -> Seq<u8> {
    seq![value.algorithm.ordinal()] + value.signature
}

/// The message of the error that rejects an empty wire form.
pub open spec fn empty_input_message() -> Seq<char> {
    "Empty input"@
}

/// What reading a wire form yields. Byte 0 is the algorithm's ordinal and the
/// rest is the raw signature. An empty input and an unknown ordinal are errors.
pub open spec fn decode(bytes: Seq<u8>) -> Result<SignatureView, SerialiseError> {
    if bytes.len() == 0 {
        Err(serialise_error(empty_input_message()))
    } else {
        match SigningAlgorithm::decode_ordinal(bytes[0]) {
            Ok(algorithm) => Ok(SignatureView { algorithm, signature: bytes.skip(1) }),
            Err(error) => Err(error),
        }
    }
}

/// Whether `decoded` is what [`decode`] yields on `bytes`.
pub open spec fn is_decoding_of(decoded: Result<Signature, SerialiseError>, bytes: Seq<u8>) -> bool {
    match decode(bytes) {
        Ok(value) => decoded matches Ok(signature) && signature@ == value,
        Err(error) => decoded == Err::<Signature, SerialiseError>(error),
    }
}

impl View for Signature {
    type V = SignatureView;

    closed spec fn view(&self) -> SignatureView {
        SignatureView { algorithm: self.algorithm, signature: self.signature@ }
    }
}

impl Default for Signature {
    /// The placeholder value: tagged Ed25519, with 64 zero bytes. It is not the
    /// output of any signer.
    fn default() -> (placeholder: Self)
        ensures
            placeholder@ == (SignatureView {
                algorithm: SigningAlgorithm::ED25519,
                signature: Seq::new(64, |i: int| 0u8),
            }),
    {
        let signature = vec![0u8; 64];
        assert(signature@ =~= Seq::new(64, |i: int| 0u8));
        Self { algorithm: SigningAlgorithm::ED25519, signature }
    }
}

impl Signature {
    /// Creates a new Ed25519 signature wrapper from raw signature bytes.
    #[must_use]
    pub fn new(signature: Vec<u8>) -> (created: Self)
        ensures
            created@ == (SignatureView {
                algorithm: SigningAlgorithm::ED25519,
                signature: signature@,
            }),
    {
        Self { algorithm: SigningAlgorithm::ED25519, signature }
    }

    /// Creates a new signature wrapper from raw signature bytes and an explicit algorithm.
    #[must_use]
    pub fn new_with_algorithm(algorithm: SigningAlgorithm, signature: Vec<u8>) -> (created: Self)
        ensures
            created@ == (SignatureView { algorithm, signature: signature@ }),
    {
        Self { algorithm, signature }
    }

    /// Returns the raw signature bytes.
    #[must_use]
    pub fn get_signature(&self) -> (bytes: &Vec<u8>)
        ensures
            bytes@ == self@.signature,
    {
        &self.signature
    }

    /// Returns the algorithm used for this signature.
    #[must_use]
    pub fn get_algorithm(&self) -> (algorithm: SigningAlgorithm)
        ensures
            algorithm == self@.algorithm,
    {
        self.algorithm
    }

    /// Serialises this signature: one byte for the algorithm, then the raw
    /// signature bytes.
    #[must_use]
    pub fn to_bytes(&self) -> (bytes: Vec<u8>)
        ensures
            bytes@ == encode(self@),
    {
        let mut bytes: Vec<u8> = Vec::new();
        bytes.push(self.algorithm.ord());
        bytes.extend_from_slice(self.signature.as_slice());
        assert(bytes@ =~= encode(self@));
        bytes
    }

    /// Reads a serialised signature. An empty input is rejected, and so is a
    /// first byte that is no algorithm's ordinal; everything after the first
    /// byte is taken as the raw signature.
    pub fn from_bytes(bytes: &[u8]) -> (decoded: Result<Self, SerialiseError>)
        ensures
            is_decoding_of(decoded, bytes@),
    {
        if bytes.len() == 0 {
            return Err(SerialiseError::new(String::from_str("Empty input")));
        }
        match SigningAlgorithm::from_ordinal(bytes[0]) {
            Ok(algorithm) => {
                let rest = slice_to_vec(slice_subrange(bytes, 1, bytes.len()));
                assert(rest@ =~= bytes@.skip(1));
                Ok(Self::new_with_algorithm(algorithm, rest))
            },
            Err(error) => Err(error),
        }
    }
}

impl TryFrom<&Signature> for ByteVec {
    type Error = SerialiseError;

    /// Puts the wire form of a signature into a byte container. This never fails.
    fn try_from(value: &Signature) -> (container: Result<Self, SerialiseError>)
        ensures
            container matches Ok(filled) && byte_vec_bytes(filled) == encode(value@),
    {
        Ok(ByteVec::new(value.to_bytes()))
    }
}

/// What the conversion yields is stated on `try_from` itself, over the bytes
/// that the container holds.
impl TryFromSpecImpl<&Signature> for ByteVec {
    open spec fn obeys_try_from_spec() -> bool {
        false
    }

    open spec fn try_from_spec(value: &Signature) -> Result<Self, SerialiseError> {
        arbitrary()
    }
}

impl TryFrom<ByteVec> for Signature {
    type Error = SerialiseError;

    /// Reads a signature from the wire form held in a byte container.
    fn try_from(value: ByteVec) -> (decoded: Result<Self, SerialiseError>)
        ensures
            is_decoding_of(decoded, byte_vec_bytes(value)),
    {
        Self::from_bytes(value.get_bytes())
    }
}

/// What the conversion yields is stated on `try_from` itself, over the view
/// of the signature read.
impl TryFromSpecImpl<ByteVec> for Signature {
    open spec fn obeys_try_from_spec() -> bool {
        false
    }

    open spec fn try_from_spec(value: ByteVec) -> Result<Self, SerialiseError> {
        arbitrary()
    }
}

/// Text encodings of a signature's wire form, as `base_xx` provides them for
/// every type that converts into a byte container.
impl base_xx::byte_vec::Encodable for Signature {}

/// Round trip: reading the wire form of any tagged signature gives that
/// signature back, whatever the algorithm and whatever the bytes.
pub proof fn lemma_round_trip(value: SignatureView)
    ensures
        decode(encode(value)) == Ok::<SignatureView, SerialiseError>(value),
{
    let bytes = encode(value);
    assert(bytes[0] == value.algorithm.ordinal());
    assert(bytes.skip(1) =~= value.signature);
}

/// The other way round: what is read from a wire form writes that wire form.
pub proof fn lemma_encode_of_decoded(bytes: Seq<u8>)
    ensures
        decode(bytes) matches Ok(value) ==> encode(value) == bytes,
{
    match decode(bytes) {
        Ok(value) => {
            assert(encode(value) =~= bytes);
        },
        Err(_) => {},
    }
}

/// Exactly the empty input and the inputs whose first byte is none of 100,
/// 101 and 102 are rejected. The empty input is rejected with an error of its
/// own, and a wrong first byte with the error that names the byte.
pub proof fn lemma_decode_rejects(bytes: Seq<u8>)
    ensures
        decode(bytes) is Err <==> bytes.len() == 0 || !(100 <= bytes[0] <= 102),
        bytes.len() == 0 ==> decode(bytes) == Err::<SignatureView, SerialiseError>(
            serialise_error(empty_input_message()),
        ),
        bytes.len() > 0 && !(100 <= bytes[0] <= 102) ==> decode(bytes) == Err::<
            SignatureView,
            SerialiseError,
        >(serialise_error(invalid_algorithm_message(bytes[0]))),
{
}

} // verus!
