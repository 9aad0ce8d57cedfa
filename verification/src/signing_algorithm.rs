use base_xx::SerialiseError;
use vstd::prelude::*;
use vstd::std_specs::convert::FromSpecImpl;
use vstd::std_specs::convert::TryFromSpecImpl;

use crate::external::serialise_error;

verus! {

/// What is recorded about a signing algorithm: its wire ordinal.
#[derive(Debug, Copy, Clone, PartialEq, Eq, Structural)]
pub struct MetaData {
    ord: u8,
}

impl MetaData {
    /// The wire ordinal recorded in this metadata.
    pub closed spec fn ordinal(self) -> u8 {
        self.ord
    }
}

/// Supported signature algorithms.
#[derive(Debug, Copy, Clone, PartialEq, Eq, Structural)]
pub enum SigningAlgorithm {
    /// Ed25519 Edwards-curve signature scheme.
    ED25519,
    /// RSA signature scheme.
    RSA,
    /// ECDSA signature scheme.
    ECDSA,
}

/// The character of one decimal digit.
pub open spec fn digit_char(digit: nat) -> char
    recommends
        digit < 10,
{
    if digit == 0 {
        '0'
    } else if digit == 1 {
        '1'
    } else if digit == 2 {
        '2'
    } else if digit == 3 {
        '3'
    } else if digit == 4 {
        '4'
    } else if digit == 5 {
        '5'
    } else if digit == 6 {
        '6'
    } else if digit == 7 {
        '7'
    } else if digit == 8 {
        '8'
    } else {
        '9'
    }
}

/// A natural number written in decimal, without leading zeros.
pub open spec fn decimal_text(number: nat) -> Seq<char>
    decreases number,
{
    if number < 10 {
        seq![digit_char(number)]
    } else {
        decimal_text(number / 10).push(digit_char(number % 10))
    }
}

/// The message of the error that rejects `value` as an algorithm ordinal.
pub open spec fn invalid_algorithm_message(value: u8) -> Seq<char> {
    "Invalid signing algorithm "@ + decimal_text(value as nat)
}

impl SigningAlgorithm {
    /// The one-byte wire ordinal of an algorithm.
    pub open spec fn ordinal(self) -> u8 {
        match self {
            SigningAlgorithm::ED25519 => 100,
            SigningAlgorithm::RSA => 101,
            SigningAlgorithm::ECDSA => 102,
        }
    }

    /// The algorithm that a wire ordinal stands for, if any.
    pub open spec fn of_ordinal(value: u8) -> Option<SigningAlgorithm> {
        if value == 100 {
            Some(SigningAlgorithm::ED25519)
        } else if value == 101 {
            Some(SigningAlgorithm::RSA)
        } else if value == 102 {
            Some(SigningAlgorithm::ECDSA)
        } else {
            None
        }
    }

    /// What reading `value` as an algorithm ordinal yields: the algorithm, or
    /// the error that names the rejected byte.
    pub open spec fn decode_ordinal(value: u8) -> Result<SigningAlgorithm, SerialiseError> {
        match Self::of_ordinal(value) {
            Some(algorithm) => Ok(algorithm),
            None => Err(serialise_error(invalid_algorithm_message(value))),
        }
    }

    /// The metadata of this algorithm.
    #[must_use]
    pub fn metadata(self) -> (metadata: MetaData)
        ensures
            metadata.ordinal() == self.ordinal(),
    {
        match self {
            Self::ED25519 => MetaData { ord: 100 },
            Self::RSA => MetaData { ord: 101 },
            Self::ECDSA => MetaData { ord: 102 },
        }
    }

    /// The wire ordinal of this algorithm.
    #[must_use]
    pub fn ord(self) -> (ordinal: u8)
        ensures
            ordinal == self.ordinal(),
    {
        self.metadata().ord
    }

    /// Reads a wire ordinal. Every byte other than 100, 101 and 102 is
    /// rejected with an error that names it.
    pub fn from_ordinal(value: u8) -> (decoded: Result<Self, SerialiseError>)
        ensures
            decoded == Self::decode_ordinal(value),
    {
        match value {
            100 => Ok(Self::ED25519),
            101 => Ok(Self::RSA),
            102 => Ok(Self::ECDSA),
            _ => Err(SerialiseError::new(invalid_algorithm_text(value))),
        }
    }
}

impl TryFrom<u8> for SigningAlgorithm {
    type Error = SerialiseError;

    fn try_from(value: u8) -> (decoded: Result<Self, SerialiseError>) {
        Self::from_ordinal(value)
    }
}

impl TryFromSpecImpl<u8> for SigningAlgorithm {
    open spec fn obeys_try_from_spec() -> bool {
        true
    }

    open spec fn try_from_spec(value: u8) -> Result<Self, SerialiseError> {
        Self::decode_ordinal(value)
    }
}

impl From<SigningAlgorithm> for u8 {
    fn from(value: SigningAlgorithm) -> (ordinal: Self) {
        match value {
            SigningAlgorithm::ED25519 => 100,
            SigningAlgorithm::RSA => 101,
            SigningAlgorithm::ECDSA => 102,
        }
    }
}

impl FromSpecImpl<SigningAlgorithm> for u8 {
    open spec fn obeys_from_spec() -> bool {
        true
    }

    open spec fn from_spec(value: SigningAlgorithm) -> Self {
        value.ordinal()
    }
}

/// One decimal digit as text.
fn digit_text(digit: u8) -> (text: &'static str)
    requires
        digit < 10,
    ensures
        text@ == seq![digit_char(digit as nat)],
{
    proof {
        reveal_strlit("0");
        reveal_strlit("1");
        reveal_strlit("2");
        reveal_strlit("3");
        reveal_strlit("4");
        reveal_strlit("5");
        reveal_strlit("6");
        reveal_strlit("7");
        reveal_strlit("8");
        reveal_strlit("9");
    }
    let text = match digit {
        0 => "0",
        1 => "1",
        2 => "2",
        3 => "3",
        4 => "4",
        5 => "5",
        6 => "6",
        7 => "7",
        8 => "8",
        _ => "9",
    };
    assert(text@ =~= seq![digit_char(digit as nat)]);
    text
}

/// Builds the message of the error that rejects `value`.
fn invalid_algorithm_text(value: u8) -> (text: String)
    ensures
        text@ == invalid_algorithm_message(value),
{
    let mut text = String::from_str("Invalid signing algorithm ");
    let ghost prefix = text@;
    if value >= 100 {
        text.append(digit_text(value / 100));
    }
    if value >= 10 {
        text.append(digit_text((value / 10) % 10));
    }
    text.append(digit_text(value % 10));
    proof {
        reveal_with_fuel(decimal_text, 3);
        assert(text@ =~= prefix + decimal_text(value as nat));
    }
    text
}

/// A metadata record is its ordinal and nothing else: two records with the
/// same ordinal are the same record. So one algorithm always has the same
/// metadata, and two algorithms have the same metadata only if they are the
/// same algorithm.
pub proof fn lemma_metadata_by_ordinal(first: MetaData, second: MetaData)
    requires
        first.ordinal() == second.ordinal(),
    ensures
        first == second,
{
}

/// Every algorithm is read back from its own ordinal.
pub proof fn lemma_ordinal_round_trip(algorithm: SigningAlgorithm)
    ensures
        SigningAlgorithm::of_ordinal(algorithm.ordinal()) == Some(algorithm),
        SigningAlgorithm::decode_ordinal(algorithm.ordinal()) == Ok::<
            SigningAlgorithm,
            SerialiseError,
        >(algorithm),
{
}

/// A byte that is read as an algorithm is that algorithm's ordinal, and it
/// is one of 100, 101 and 102.
pub proof fn lemma_ordinal_of_decoded(value: u8)
    ensures
        SigningAlgorithm::of_ordinal(value) matches Some(algorithm) ==> algorithm.ordinal()
            == value,
        SigningAlgorithm::of_ordinal(value) is Some <==> 100 <= value <= 102,
        SigningAlgorithm::decode_ordinal(value) is Err <==> !(100 <= value <= 102),
{
}

/// Two algorithms with the same ordinal are the same algorithm.
pub proof fn lemma_ordinal_injective(first: SigningAlgorithm, second: SigningAlgorithm)
    requires
        first.ordinal() == second.ordinal(),
    ensures
        first == second,
{
}

} // verus!
