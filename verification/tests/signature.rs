use base_xx::byte_vec::Encodable;
use base_xx::ByteVec;
use base_xx::EncodedString;
use base_xx::Encoding;
use digest::consts::U64;
use digest::Digest;
use digest::FixedOutput;
use digest::HashMarker;
use digest::Output;
use digest::OutputSizeUser;
use ed25519_dalek::SigningKey;
use ed25519_dalek::Verifier;
use multi_signer::Signature;
use multi_signer::SignatureError;
use multi_signer::SigningAlgorithm;
use rand_core::OsRng;
use sha3::Keccak512;

#[derive(Debug, Default, Clone)]
struct TestDigest {
    data: Vec<u8>,
}

impl OutputSizeUser for TestDigest {
    type OutputSize = U64;
}

impl digest::Update for TestDigest {
    fn update(&mut self, data: &[u8]) {
        self.data.extend_from_slice(data);
    }
}

impl FixedOutput for TestDigest {
    fn finalize_into(self, out: &mut Output<Self>) {
        out.fill(0);
        let n = core::cmp::min(out.len(), self.data.len());
        out[..n].copy_from_slice(&self.data[..n]);
    }
}

impl HashMarker for TestDigest {}

#[test]
fn test_signature() {
    let signing_key = SigningKey::generate(&mut OsRng);
    let data = b"test big long data test test big long data testtest big long data testtest big long data testtest big long data testtest big long data testtest big long data testtest big long data testtest big long data testtest big long data testtest big long data testtest big long data test";

    let mut digest = Keccak512::new();
    digest.update(data);

    let hashdata = digest.finalize().to_vec();

    let mut digest = TestDigest::new();
    digest.update(hashdata.clone());

    let _bytes = ByteVec::new(hashdata);

    match signing_key.sign_prehashed(digest, Some(b"")) {
        Ok(signature) => {
            let signature = Signature::new_with_algorithm(
                SigningAlgorithm::ED25519,
                signature.to_bytes().to_vec(),
            );

            let serialised = signature
                .try_encode(Encoding::Base36)
                .unwrap_or_else(|_| EncodedString::new(Encoding::Base36, String::new()));

            println!("serialised: {serialised}");
            println!("serialised debug: {serialised:?}");
        }
        Err(e) => {
            println!("error signing data: {e}");
        }
    }
}

#[test]
fn new_tags_ed25519() {
    let signature = Signature::new(vec![1, 2, 3]);
    assert_eq!(signature.get_algorithm(), SigningAlgorithm::ED25519);
    assert_eq!(signature.get_signature(), &vec![1u8, 2, 3]);
}

#[test]
fn new_with_algorithm_keeps_tag_and_bytes() {
    let signature = Signature::new_with_algorithm(SigningAlgorithm::ECDSA, vec![9, 8, 7, 6]);
    assert_eq!(signature.get_algorithm(), SigningAlgorithm::ECDSA);
    assert_eq!(signature.get_signature(), &vec![9u8, 8, 7, 6]);
}

#[test]
fn construction_checks_no_length() {
    let empty = Signature::new_with_algorithm(SigningAlgorithm::RSA, Vec::new());
    assert_eq!(empty.get_algorithm(), SigningAlgorithm::RSA);
    assert!(empty.get_signature().is_empty());
    let long = Signature::new(vec![0xab; 1000]);
    assert_eq!(long.get_signature().len(), 1000);
}

#[test]
fn default_is_ed25519_with_64_zero_bytes() {
    let placeholder = Signature::default();
    assert_eq!(placeholder.get_algorithm(), SigningAlgorithm::ED25519);
    assert_eq!(placeholder.get_signature(), &vec![0u8; 64]);
}

#[test]
fn default_does_not_verify() {
    let placeholder = Signature::default();
    let key = SigningKey::from_bytes(&[7u8; 32]).verifying_key();
    let bytes: [u8; 64] = placeholder.get_signature().as_slice().try_into().unwrap();
    let signature = ed25519_dalek::Signature::from_bytes(&bytes);
    assert!(key.verify(b"test", &signature).is_err());
    assert!(key.verify(b"", &signature).is_err());
}

#[test]
fn to_bytes_is_ordinal_then_payload() {
    let signature = Signature::new_with_algorithm(SigningAlgorithm::RSA, vec![0xde, 0xad, 0xbe]);
    assert_eq!(signature.to_bytes(), vec![101u8, 0xde, 0xad, 0xbe]);
    let signature = Signature::new(vec![5]);
    assert_eq!(signature.to_bytes(), vec![100u8, 5]);
    let signature = Signature::new_with_algorithm(SigningAlgorithm::ECDSA, Vec::new());
    assert_eq!(signature.to_bytes(), vec![102u8]);
}

#[test]
fn default_to_bytes_has_65_bytes() {
    let bytes = Signature::default().to_bytes();
    assert_eq!(bytes.len(), 65);
    assert_eq!(bytes[0], 100);
    assert!(bytes[1..].iter().all(|byte| *byte == 0));
}

#[test]
fn from_bytes_reads_ordinal_then_payload() {
    let signature = Signature::from_bytes(&[102, 1, 2, 3, 4]).unwrap();
    assert_eq!(signature.get_algorithm(), SigningAlgorithm::ECDSA);
    assert_eq!(signature.get_signature(), &vec![1u8, 2, 3, 4]);
    let signature = Signature::from_bytes(&[100]).unwrap();
    assert_eq!(signature.get_algorithm(), SigningAlgorithm::ED25519);
    assert!(signature.get_signature().is_empty());
}

#[test]
fn from_bytes_rejects_empty_input() {
    let error = Signature::from_bytes(&[]).unwrap_err();
    assert_eq!(error.get_message(), "Empty input");
}

#[test]
fn from_bytes_rejects_unknown_ordinal() {
    let error = Signature::from_bytes(&[99, 1, 2]).unwrap_err();
    assert_eq!(error.get_message(), "Invalid signing algorithm 99");
    let error = Signature::from_bytes(&[0]).unwrap_err();
    assert_eq!(error.get_message(), "Invalid signing algorithm 0");
    let error = Signature::from_bytes(&[103, 0, 0]).unwrap_err();
    assert_eq!(error.get_message(), "Invalid signing algorithm 103");
}

#[test]
fn from_bytes_error_is_that_of_from_ordinal() {
    for value in (0..100u8).chain(103..=255u8) {
        let from_ordinal = SigningAlgorithm::from_ordinal(value).unwrap_err();
        let from_bytes = Signature::from_bytes(&[value, 1, 2, 3]).unwrap_err();
        assert_eq!(from_bytes.get_message(), from_ordinal.get_message());
    }
}

#[test]
fn round_trip_for_every_algorithm() {
    let payloads: [Vec<u8>; 5] =
        [Vec::new(), vec![0], vec![100, 101, 102], vec![0xff; 64], (0..=255u8).collect()];
    for algorithm in [SigningAlgorithm::ED25519, SigningAlgorithm::RSA, SigningAlgorithm::ECDSA] {
        for payload in &payloads {
            let signature = Signature::new_with_algorithm(algorithm, payload.clone());
            let back = Signature::from_bytes(&signature.to_bytes()).unwrap();
            assert_eq!(back.get_algorithm(), algorithm);
            assert_eq!(back.get_signature(), payload);
        }
    }
}

#[test]
fn what_is_read_writes_the_same_bytes() {
    let wire: Vec<u8> = vec![101, 3, 1, 4, 1, 5, 9, 2, 6];
    let signature = Signature::from_bytes(&wire).unwrap();
    assert_eq!(signature.to_bytes(), wire);
}

#[test]
fn byte_container_holds_the_wire_form() {
    let signature = Signature::new_with_algorithm(SigningAlgorithm::RSA, vec![1, 2, 3]);
    let container = ByteVec::try_from(&signature).unwrap();
    assert_eq!(container.get_bytes(), &[101u8, 1, 2, 3]);
    assert_eq!(container.get_bytes(), signature.to_bytes().as_slice());
}

#[test]
fn signature_is_read_from_a_byte_container() {
    let container = ByteVec::new(vec![102, 7, 7, 7]);
    let signature = Signature::try_from(container).unwrap();
    assert_eq!(signature.get_algorithm(), SigningAlgorithm::ECDSA);
    assert_eq!(signature.get_signature(), &vec![7u8, 7, 7]);
}

#[test]
fn empty_byte_container_is_an_error() {
    let error = Signature::try_from(ByteVec::new(Vec::new())).unwrap_err();
    assert_eq!(error.get_message(), "Empty input");
}

#[test]
fn byte_container_with_unknown_ordinal_is_an_error() {
    let error = Signature::try_from(ByteVec::new(vec![1, 2, 3])).unwrap_err();
    assert_eq!(error.get_message(), "Invalid signing algorithm 1");
}

#[test]
fn round_trip_through_byte_containers() {
    let signature = Signature::new_with_algorithm(SigningAlgorithm::ECDSA, vec![0x42; 64]);
    let back = Signature::try_from(ByteVec::try_from(&signature).unwrap()).unwrap();
    assert_eq!(back.get_algorithm(), SigningAlgorithm::ECDSA);
    assert_eq!(back.get_signature(), &vec![0x42u8; 64]);
}

#[test]
fn text_encoding_is_that_of_the_wire_form() {
    let signature = Signature::new_with_algorithm(SigningAlgorithm::RSA, vec![0xca, 0xfe]);
    let encoded = signature.try_encode(Encoding::Hex).unwrap();
    assert_eq!(encoded.get_string(), "65cafe");
    let of_bytes = ByteVec::new(signature.to_bytes()).try_encode(Encoding::Base58).unwrap();
    let of_signature = signature.try_encode(Encoding::Base58).unwrap();
    assert_eq!(of_signature.get_string(), of_bytes.get_string());
}

#[test]
fn signature_error_keeps_its_message() {
    let error = SignatureError::new(String::from("message too long"));
    assert_eq!(error.message(), "message too long");
    let error = SignatureError::new(String::new());
    assert_eq!(error.message(), "");
}
