use rsa::traits::PrivateKeyParts;
use rsa::traits::PublicKeyParts;
use vstd::prelude::*;
use vstd::slice::slice_to_vec;

use crate::external::hash_bytes;
use crate::signature::Signature;
use crate::signature_error::SignatureError;
use crate::signer::tagged;
use crate::signer::Produced;
use crate::signer::Signer;
use crate::signing_algorithm::SigningAlgorithm;

verus! {

/// An RSA private key by its numbers, each as big-endian bytes.
pub struct RsaPrivateKey {
    /// The modulus.
    pub n: Vec<u8>,
    /// The public exponent.
    pub e: Vec<u8>,
    /// The private exponent.
    pub d: Vec<u8>,
    /// The prime factors of the modulus.
    pub primes: Vec<Vec<u8>>,
}

/// An RSA public key by its numbers, each as big-endian bytes.
pub struct RsaPublicKey {
    /// The modulus.
    pub n: Vec<u8>,
    /// The public exponent.
    pub e: Vec<u8>,
}

/// What an [`RsaPrivateKey`] is: its numbers as sequences of bytes.
pub struct RsaPrivateKeyView {
    /// The modulus.
    pub n: Seq<u8>,
    /// The public exponent.
    pub e: Seq<u8>,
    /// The private exponent.
    pub d: Seq<u8>,
    /// The prime factors of the modulus.
    pub primes: Seq<Seq<u8>>,
}

/// What an [`RsaPublicKey`] is: its numbers as sequences of bytes.
pub struct RsaPublicKeyView {
    /// The modulus.
    pub n: Seq<u8>,
    /// The public exponent.
    pub e: Seq<u8>,
}

impl View for RsaPrivateKey {
    type V = RsaPrivateKeyView;

    open spec fn view(&self) -> RsaPrivateKeyView {
        RsaPrivateKeyView {
            n: self.n@,
            e: self.e@,
            d: self.d@,
            primes: self.primes.deep_view(),
        }
    }
}

impl View for RsaPublicKey {
    type V = RsaPublicKeyView;

    open spec fn view(&self) -> RsaPublicKeyView {
        RsaPublicKeyView { n: self.n@, e: self.e@ }
    }
}

/// The number of bytes that a big-endian number takes once its leading zero
/// bytes are dropped. For a modulus this is the modulus size in bytes.
pub open spec fn magnitude_len(number: Seq<u8>) -> nat
    decreases number.len(),
{
    if number.len() == 0 {
        0
    } else if number[0] != 0 {
        number.len()
    } else {
        magnitude_len(number.skip(1))
    }
}

/// The number of bits that a byte takes: the place of its highest set bit,
/// counted from 1, and 0 for the byte 0.
pub open spec fn byte_bit_len(byte: u8) -> nat {
    if byte == 0 {
        0
    } else if byte < 2 {
        1
    } else if byte < 4 {
        2
    } else if byte < 8 {
        3
    } else if byte < 16 {
        4
    } else if byte < 32 {
        5
    } else if byte < 64 {
        6
    } else if byte < 128 {
        7
    } else {
        8
    }
}

/// The number of bits that a big-endian number takes: leading zero bytes do
/// not count, nor do the leading zero bits of the first byte that is not zero.
/// For a modulus this is the modulus size in bits.
pub open spec fn bit_len(number: Seq<u8>) -> nat
    decreases number.len(),
{
    if number.len() == 0 {
        0
    } else if number[0] != 0 {
        (8 * (number.len() - 1) + byte_bit_len(number[0])) as nat
    } else {
        bit_len(number.skip(1))
    }
}

/// The number that big-endian bytes stand for.
pub open spec fn big_endian(number: Seq<u8>) -> nat
    decreases number.len(),
{
    if number.len() == 0 {
        0
    } else {
        256 * big_endian(number.drop_last()) + number.last() as nat
    }
}

/// Whether the numbers of a key of two primes fit together: both primes are
/// above 1, their product is the modulus, and the two exponents undo each
/// other modulo each prime less one.
pub open spec fn is_key_pair(key: RsaPrivateKeyView) -> bool {
    let exponents = (big_endian(key.d) * big_endian(key.e)) as int;
    &&& key.primes.len() == 2
    &&& big_endian(key.primes[0]) > 1
    &&& big_endian(key.primes[1]) > 1
    &&& big_endian(key.primes[0]) * big_endian(key.primes[1]) == big_endian(key.n)
    &&& exponents % (big_endian(key.primes[0]) - 1) == 1
    &&& exponents % (big_endian(key.primes[1]) - 1) == 1
}

/// Whether the second prime of a key is at most one byte longer than the
/// first. A key with fewer than two primes has nothing to compare.
pub open spec fn primes_balanced(key: RsaPrivateKeyView) -> bool {
    key.primes.len() >= 2 ==> magnitude_len(key.primes[1]) <= magnitude_len(key.primes[0]) + 1
}

/// The big-endian bytes of 65537, the public exponent of every generated key.
pub open spec fn generated_exponent() -> Seq<u8> {
    seq![1u8, 0u8, 1u8]
}

/// The message of the error that refuses a key without prime factors.
pub open spec fn missing_primes_message() -> Seq<char> {
    "RSA key without prime factors"@
}

/// A key with its first two primes in the other order. Every other number
/// stays as it is.
pub open spec fn exchanged(key: RsaPrivateKeyView) -> RsaPrivateKeyView
    recommends
        key.primes.len() >= 2,
{
    RsaPrivateKeyView {
        n: key.n,
        e: key.e,
        d: key.d,
        primes: key.primes.update(0, key.primes[1]).update(1, key.primes[0]),
    }
}

/// The key as it is handed to the signing primitive: as it is where its
/// primes are balanced, and else with the first two primes exchanged, so that
/// the longer one comes first.
pub open spec fn arranged(key: RsaPrivateKeyView) -> RsaPrivateKeyView {
    if primes_balanced(key) {
        key
    } else {
        exchanged(key)
    }
}

/// What RSA PKCS#1 v1.5 signing without a digest prefix yields for `digest`
/// under `key`: the signature, or the text of the failure (the numbers are
/// no valid key, or the modulus is too small for the padded digest).
pub uninterp spec fn rsa_signature(key: RsaPrivateKeyView, digest: Seq<u8>) -> Produced;

/// What a signing call yielded, with the bytes and the text as sequences.
pub open spec fn yielded(produced: Result<Vec<u8>, String>) -> Produced {
    match produced {
        Ok(signature) => Ok(signature@),
        Err(message) => Err(message@),
    }
}

/// `RsaPrivateKey::new` of `rsa` with the operating system's generator: a
/// fresh key with the public exponent 65537 and two primes, the first of
/// half the bits rounded down and the second of the rest, whose product has
/// exactly `bit_size` bits. The generator draws again until it has such a
/// key, and the outside crate hands out no key whose numbers do not fit
/// together. A modulus of 16 bits or fewer is below the public exponent, and
/// the outside crate refuses every such key, so these sizes are left out.
/// Nothing else is known of which key comes back.
#[verifier::external_body]
fn generate_key(bit_size: usize) -> (key: RsaPrivateKey)
    requires
        17 <= bit_size,
    ensures
        bit_len(key@.n) == bit_size,
        key@.e == generated_exponent(),
        is_key_pair(key@),
        primes_balanced(key@),
{
    let key = rsa::RsaPrivateKey::new(&mut rand_core::OsRng, bit_size).expect("RSA key");
    RsaPrivateKey {
        n: key.n().to_bytes_be(),
        e: key.e().to_bytes_be(),
        d: key.d().to_bytes_be(),
        primes: key.primes().iter().map(|prime| prime.to_bytes_be()).collect(),
    }
}

/// `RsaPrivateKey::sign` of `rsa` with `Pkcs1v15Sign::new_unprefixed`, on
/// the key that `RsaPrivateKey::from_components` makes of the numbers. No
/// randomness is drawn, so the outcome is determined by the key and the
/// digest. A signature has the size of the modulus, and a digest that with
/// its 11 bytes of padding does not fit the modulus is refused.
///
/// Two kinds of keys are left out. With no prime at all the outside crate
/// would try to recover them, which can panic. With a first prime smaller
/// than the second, its recombination of the two halves adds the first
/// prime to a number as low as minus the second, once per step, until the
/// number is no longer negative. That takes about as many steps as the
/// first prime goes into the second: fewer than 65536 with primes at most
/// one byte apart, and more than a machine can run where the first prime is
/// many bytes shorter.
#[verifier::external_body]
fn sign_digest(key: &RsaPrivateKey, digest: &[u8]) -> (produced: Result<Vec<u8>, String>)
    requires
        key@.primes.len() > 0,
        primes_balanced(key@),
    ensures
        yielded(produced) == rsa_signature(key@, digest@),
        produced matches Ok(signature) ==> signature@.len() == magnitude_len(key@.n),
        magnitude_len(key@.n) < digest@.len() + 11 ==> produced is Err,
{
    let primes = key.primes.iter().map(|prime| rsa::BigUint::from_bytes_be(prime)).collect();
    let n = rsa::BigUint::from_bytes_be(&key.n);
    let e = rsa::BigUint::from_bytes_be(&key.e);
    let d = rsa::BigUint::from_bytes_be(&key.d);
    match rsa::RsaPrivateKey::from_components(n, e, d, primes) {
        Ok(parsed) => parsed.sign(rsa::Pkcs1v15Sign::new_unprefixed(), digest).map_err(
            |error| error.to_string(),
        ),
        Err(error) => Err(error.to_string()),
    }
}

/// The bytes 1, 0, 1 stand for 65537.
pub proof fn lemma_generated_exponent_is_65537()
    ensures
        big_endian(generated_exponent()) == 65537,
{
    reveal_with_fuel(big_endian, 4);
    assert(seq![1u8, 0u8, 1u8].drop_last() =~= seq![1u8, 0u8]);
    assert(seq![1u8, 0u8].drop_last() =~= seq![1u8]);
    assert(seq![1u8].drop_last() =~= Seq::<u8>::empty());
}

/// The size of a modulus in bytes is its size in bits, rounded up to whole
/// bytes.
pub proof fn lemma_magnitude_len_of_bit_len(number: Seq<u8>)
    ensures
        magnitude_len(number) == (bit_len(number) + 7) / 8,
    decreases number.len(),
{
    if number.len() > 0 && number[0] == 0 {
        lemma_magnitude_len_of_bit_len(number.skip(1));
    }
}

/// Counts the bytes of a big-endian number without its leading zero bytes.
fn magnitude_length(number: &[u8]) -> (length: usize)
    ensures
        length == magnitude_len(number@),
{
    let mut at: usize = 0;
    assert(number@.skip(0) =~= number@);
    while at < number.len() && number[at] == 0
        invariant
            at <= number.len(),
            magnitude_len(number@) == magnitude_len(number@.skip(at as int)),
        decreases number.len() - at,
    {
        assert(number@.skip(at as int).skip(1) =~= number@.skip(at + 1));
        at += 1;
    }
    number.len() - at
}

/// Tells whether the second prime of a key is at most one byte longer than
/// the first.
fn has_balanced_primes(key: &RsaPrivateKey) -> (balanced: bool)
    ensures
        balanced == primes_balanced(key@),
{
    if key.primes.len() < 2 {
        return true;
    }
    let first = magnitude_length(key.primes[0].as_slice());
    let second = magnitude_length(key.primes[1].as_slice());
    assert(key@.primes[0] =~= key.primes@[0]@);
    assert(key@.primes[1] =~= key.primes@[1]@);
    second <= first || second - first <= 1
}

/// Copies a key with its first two primes in the other order.
fn exchange_primes(key: &RsaPrivateKey) -> (other: RsaPrivateKey)
    requires
        key@.primes.len() >= 2,
    ensures
        other@ == exchanged(key@),
{
    let mut primes: Vec<Vec<u8>> = Vec::new();
    primes.push(slice_to_vec(key.primes[1].as_slice()));
    primes.push(slice_to_vec(key.primes[0].as_slice()));
    let mut at: usize = 2;
    while at < key.primes.len()
        invariant
            2 <= at <= key.primes.len(),
            primes.len() == at,
            primes@[0]@ == key.primes@[1]@,
            primes@[1]@ == key.primes@[0]@,
            forall|i: int| 2 <= i < at ==> primes@[i]@ == key.primes@[i]@,
        decreases key.primes.len() - at,
    {
        primes.push(slice_to_vec(key.primes[at].as_slice()));
        at += 1;
    }
    let other = RsaPrivateKey {
        n: slice_to_vec(key.n.as_slice()),
        e: slice_to_vec(key.e.as_slice()),
        d: slice_to_vec(key.d.as_slice()),
        primes,
    };
    assert(other@.primes.len() == key@.primes.len());
    assert forall|i: int| 0 <= i < other@.primes.len() implies other@.primes[i] == exchanged(
        key@,
    ).primes[i] by {
        assert(other@.primes[i] =~= other.primes@[i]@);
        assert(key@.primes[i] =~= key.primes@[i]@);
        assert(key@.primes[0] =~= key.primes@[0]@);
        assert(key@.primes[1] =~= key.primes@[1]@);
    }
    assert(other@.primes =~= exchanged(key@).primes);
    other
}

/// Whatever the key, what is handed to the signing primitive has balanced
/// primes, and it has the modulus and the number of primes of the key.
pub proof fn lemma_arranged_is_balanced(key: RsaPrivateKeyView)
    ensures
        primes_balanced(arranged(key)),
        arranged(key).n == key.n,
        arranged(key).e == key.e,
        arranged(key).d == key.d,
        arranged(key).primes.len() == key.primes.len(),
        primes_balanced(key) ==> arranged(key) == key,
{
}

/// An RSA signer.
pub struct RsaSigner {
    private_key: RsaPrivateKey,
}

impl RsaSigner {
    /// The private key that this signer holds.
    pub closed spec fn key(&self) -> RsaPrivateKeyView {
        self.private_key@
    }

    /// Creates a new `RsaSigner` from an existing RSA private key. The numbers
    /// are taken as they are: with numbers that are no valid key, signing
    /// fails.
    #[must_use]
    pub fn new(private_key: RsaPrivateKey) -> (signer: Self)
        ensures
            signer.key() == private_key@,
    {
        Self { private_key }
    }

    /// Returns a reference to the RSA private key held by this signer.
    #[must_use]
    pub fn get_private_key(&self) -> (private_key: &RsaPrivateKey)
        ensures
            private_key@ == self.key(),
    {
        &self.private_key
    }

    /// Returns the corresponding RSA public key: the modulus and the public
    /// exponent of the private key, copied.
    #[must_use]
    pub fn get_public_key(&self) -> (public_key: RsaPublicKey)
        ensures
            public_key@ == (RsaPublicKeyView { n: self.key().n, e: self.key().e }),
    {
        RsaPublicKey {
            n: slice_to_vec(self.private_key.n.as_slice()),
            e: slice_to_vec(self.private_key.e.as_slice()),
        }
    }

    /// Generates a new RSA private key with the given size (in bits) and
    /// returns a signer. The modulus has exactly `bit_size` bits, the public
    /// exponent is 65537, and there are two primes of about equal size whose
    /// product the modulus is.
    ///
    /// The size is at least 17 bits: a smaller modulus cannot exceed the
    /// public exponent, so no key of such a size exists.
    pub fn new_with_size(bit_size: usize) -> (signer: Self)
        requires
            17 <= bit_size,
        ensures
            bit_len(signer.key().n) == bit_size,
            magnitude_len(signer.key().n) == (bit_size + 7) / 8,
            signer.key().e == generated_exponent(),
            is_key_pair(signer.key()),
            primes_balanced(signer.key()),
    {
        let private_key = generate_key(bit_size);
        proof {
            lemma_magnitude_len_of_bit_len(private_key@.n);
        }
        Self { private_key }
    }
}

impl Default for RsaSigner {
    /// Creates a default `RsaSigner`, with a freshly generated key of 256 bits.
    fn default() -> (signer: Self)
        ensures
            bit_len(signer.key().n) == 256,
            magnitude_len(signer.key().n) == 32,
            signer.key().e == generated_exponent(),
            is_key_pair(signer.key()),
            primes_balanced(signer.key()),
    {
        Self::new_with_size(256)
    }
}

impl Signer for RsaSigner {
    open spec fn algorithm(&self) -> SigningAlgorithm {
        SigningAlgorithm::RSA
    }

    open spec fn produced(&self, digest: Seq<u8>) -> Produced {
        if self.key().primes.len() == 0 {
            Err(missing_primes_message())
        } else {
            rsa_signature(arranged(self.key()), digest)
        }
    }

    /// Signs the provided hash and returns the resulting signature. The
    /// digest is padded as PKCS#1 v1.5 asks but without the prefix that names
    /// the hash algorithm. A signature has the size of the modulus; a digest
    /// that with its padding does not fit the modulus is refused. Every key
    /// with a prime is handed to the primitive, and what the primitive
    /// answers is handed back; where the first prime is more than one byte
    /// shorter than the second, the two are handed over in the other order.
    /// Only a key without primes is refused here.
    fn sign(&self, hash: &slahasher::Hash) -> (outcome: Result<Signature, SignatureError>)
        ensures
            outcome matches Ok(signature) ==> signature@.signature.len() == magnitude_len(
                self.key().n,
            ),
            magnitude_len(self.key().n) < hash_bytes(*hash).len() + 11 ==> outcome is Err,
    {
        if self.private_key.primes.len() == 0 {
            return tagged(
                SigningAlgorithm::RSA,
                Err(String::from_str("RSA key without prime factors")),
            );
        }
        let digest = hash.get_bytes().get_bytes();
        if has_balanced_primes(&self.private_key) {
            tagged(SigningAlgorithm::RSA, sign_digest(&self.private_key, digest))
        } else {
            let other = exchange_primes(&self.private_key);
            tagged(SigningAlgorithm::RSA, sign_digest(&other, digest))
        }
    }
}

} // verus!
