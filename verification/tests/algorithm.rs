use multi_signer::SigningAlgorithm;

#[test]
fn test_default() {
    let algorithm = SigningAlgorithm::ED25519;
    assert_eq!(algorithm, SigningAlgorithm::ED25519);
}

#[test]
fn ordinals_are_100_101_102() {
    assert_eq!(SigningAlgorithm::ED25519.ord(), 100);
    assert_eq!(SigningAlgorithm::RSA.ord(), 101);
    assert_eq!(SigningAlgorithm::ECDSA.ord(), 102);
}

#[test]
fn ordinal_through_from() {
    assert_eq!(u8::from(SigningAlgorithm::ED25519), 100);
    assert_eq!(u8::from(SigningAlgorithm::RSA), 101);
    let ordinal: u8 = SigningAlgorithm::ECDSA.into();
    assert_eq!(ordinal, 102);
}

#[test]
fn metadata_is_equal_for_equal_algorithms_only() {
    assert_eq!(SigningAlgorithm::RSA.metadata(), SigningAlgorithm::RSA.metadata());
    assert_ne!(SigningAlgorithm::RSA.metadata(), SigningAlgorithm::ECDSA.metadata());
    assert_ne!(SigningAlgorithm::ED25519.metadata(), SigningAlgorithm::RSA.metadata());
}

#[test]
fn one_algorithm_always_has_the_same_metadata() {
    let all = [SigningAlgorithm::ED25519, SigningAlgorithm::RSA, SigningAlgorithm::ECDSA];
    for first in all {
        for second in all {
            assert_eq!(first.metadata() == second.metadata(), first == second);
        }
    }
}

#[test]
fn from_ordinal_reads_the_three_ordinals() {
    assert_eq!(SigningAlgorithm::from_ordinal(100).ok(), Some(SigningAlgorithm::ED25519));
    assert_eq!(SigningAlgorithm::from_ordinal(101).ok(), Some(SigningAlgorithm::RSA));
    assert_eq!(SigningAlgorithm::from_ordinal(102).ok(), Some(SigningAlgorithm::ECDSA));
}

#[test]
fn try_from_reads_the_three_ordinals() {
    assert_eq!(SigningAlgorithm::try_from(100u8).ok(), Some(SigningAlgorithm::ED25519));
    assert_eq!(SigningAlgorithm::try_from(101u8).ok(), Some(SigningAlgorithm::RSA));
    assert_eq!(SigningAlgorithm::try_from(102u8).ok(), Some(SigningAlgorithm::ECDSA));
    assert!(SigningAlgorithm::try_from(103u8).is_err());
}

#[test]
fn every_other_byte_is_rejected() {
    for value in 0..=255u8 {
        let decoded = SigningAlgorithm::from_ordinal(value);
        if (100..=102).contains(&value) {
            assert!(decoded.is_ok(), "ordinal {value}");
        } else {
            let converted = SigningAlgorithm::try_from(value);
            assert!(decoded.is_err(), "byte {value}");
            assert!(converted.is_err(), "byte {value}");
        }
    }
}

#[test]
fn ordinal_and_from_ordinal_are_inverses() {
    for algorithm in [SigningAlgorithm::ED25519, SigningAlgorithm::RSA, SigningAlgorithm::ECDSA] {
        assert_eq!(SigningAlgorithm::from_ordinal(algorithm.ord()).ok(), Some(algorithm));
    }
    for value in 100..=102u8 {
        let algorithm = SigningAlgorithm::from_ordinal(value).unwrap();
        assert_eq!(algorithm.ord(), value);
    }
}

#[test]
fn the_error_names_the_rejected_byte() {
    let cases: [(u8, &str); 9] = [
        (0, "Invalid signing algorithm 0"),
        (7, "Invalid signing algorithm 7"),
        (10, "Invalid signing algorithm 10"),
        (42, "Invalid signing algorithm 42"),
        (99, "Invalid signing algorithm 99"),
        (103, "Invalid signing algorithm 103"),
        (110, "Invalid signing algorithm 110"),
        (200, "Invalid signing algorithm 200"),
        (255, "Invalid signing algorithm 255"),
    ];
    for (value, message) in cases {
        let error = SigningAlgorithm::from_ordinal(value).unwrap_err();
        assert_eq!(error.get_message(), message);
        assert_eq!(error.get_message(), &format!("Invalid signing algorithm {value}"));
    }
}

#[test]
fn every_rejected_byte_is_written_in_decimal() {
    for value in (0..100u8).chain(103..=255u8) {
        let error = SigningAlgorithm::try_from(value).unwrap_err();
        assert_eq!(error.get_message(), &format!("Invalid signing algorithm {value}"));
    }
}
