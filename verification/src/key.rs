//! The private key of an endpoint, and how it signs during a handshake.
//!
//! One signature scheme is supported: ECDSA over the curve P-256 with
//! SHA-256. Schemes and algorithms are held by their TLS code points.

use std::sync::Arc;
use ring::error::{KeyRejected, Unspecified};
use ring::rand::SystemRandom;
use ring::signature::EcdsaKeyPair;
use vstd::prelude::*;
use crate::shared::share;

verus! {

/// A TLS signature scheme, by its code point.
pub type SignatureScheme = u16;

/// A TLS signature algorithm, by its code point.
pub type SignatureAlgorithm = u8;

/// The one scheme that a key signs with: ECDSA, P-256, SHA-256.
pub const ECDSA_NISTP256_SHA256: SignatureScheme = 0x0403;

/// The algorithm of that scheme: ECDSA.
pub const ECDSA: SignatureAlgorithm = 0x03;

#[verifier::external_type_specification]
#[verifier::external_body]
pub struct ExEcdsaKeyPair(EcdsaKeyPair);

#[verifier::external_type_specification]
#[verifier::external_body]
pub struct ExKeyRejected(KeyRejected);

#[verifier::external_type_specification]
#[verifier::external_body]
pub struct ExUnspecified(Unspecified);

#[verifier::external_type_specification]
#[verifier::external_body]
pub struct ExSystemRandom(SystemRandom);

/// Whether the supported scheme is among those that the peer offers.
pub open spec fn offers_supported_scheme(offered: Seq<SignatureScheme>) -> bool {
    offered.contains(ECDSA_NISTP256_SHA256)
}

/// Decides whether the supported scheme is among those that the peer offers.
pub fn supported_scheme_offered(offered: &[SignatureScheme]) -> (r: bool)
    ensures
        r == offers_supported_scheme(offered@),
{
    let mut i: usize = 0;
    while i < offered.len()
        invariant
            i <= offered.len(),
            forall|j: int| 0 <= j < i ==> offered@[j] != ECDSA_NISTP256_SHA256,
        decreases offered.len() - i,
    {
        if offered[i] == ECDSA_NISTP256_SHA256 {
            return true;
        }
        i += 1;
    }
    false
}

/// Signing failed. The cause is withheld on purpose: what went wrong inside
/// an operation on the private key is nobody's business but the key's.
#[derive(Clone, Copy, Debug, PartialEq, Eq, Structural)]
pub struct SigningFailed;

impl SigningFailed {
    /// The fixed text under which the failure is reported.
    pub fn message(&self) -> (r: &'static str)
        ensures
            r@ == "Signing Failed"@,
    {
        "Signing Failed"
    }
}

/// An endpoint's private key: an ECDSA key pair on P-256. It never changes
/// once loaded, and is shared by all its holders.
#[derive(Debug)]
pub struct Key {
    pair: Arc<EcdsaKeyPair>,
}

/// Calls `ring::signature::EcdsaKeyPair::from_pkcs8` for ECDSA on P-256 with
/// SHA-256 and ASN.1 signatures. It accepts no document but one that holds
/// such a key pair. One that does may still be refused: the call draws on
/// the system's random number generator, which may fail.
#[verifier::external_body]
fn ecdsa_p256_from_pkcs8(pkcs8: &[u8]) -> (r: Result<EcdsaKeyPair, KeyRejected>)
    ensures
        r is Ok ==> is_p256_pkcs8(pkcs8@),
{
    EcdsaKeyPair::from_pkcs8(&ring::signature::ECDSA_P256_SHA256_ASN1_SIGNING, pkcs8)
}

/// Calls `ring::signature::EcdsaKeyPair::sign` and copies the signature out.
/// Which signature comes, and whether one comes, rests on the random numbers
/// drawn. How it is laid out rests on the algorithm that the key pair was
/// made for, of which nothing is known here; whatever the algorithm, the
/// signature is not empty and no longer than ring's longest.
#[verifier::external_body]
fn ecdsa_sign(pair: &EcdsaKeyPair, rng: &SystemRandom, message: &[u8]) -> (r: Result<
    Vec<u8>,
    Unspecified,
>)
    ensures
        r is Ok ==> 0 < r.unwrap()@.len() <= 105,
{
    match pair.sign(rng, message) {
        Ok(signature) => Ok(signature.as_ref().to_vec()),
        Err(e) => Err(e),
    }
}

impl Clone for Key {
    fn clone(&self) -> (r: Self)
        ensures
            r == *self,
    {
        Key { pair: share(&self.pair) }
    }
}

impl Key {
    /// The key pair that the key holds.
    pub closed spec fn pair(&self) -> EcdsaKeyPair {
        *self.pair
    }

    /// Loads a key from an unencrypted PKCS#8 document. The key is refused
    /// where the bytes do not hold an ECDSA key pair on P-256.
    pub fn from_pkcs8(b: &[u8]) -> (r: Result<Key, KeyRejected>)
        ensures
            !is_p256_pkcs8(b@) ==> r is Err,
    {
        Key::from_parsed(ecdsa_p256_from_pkcs8(b))
    }

    /// The key for a key pair that was parsed, or the reason why none was.
    /// Any key pair is taken; one that was made for another algorithm than
    /// the supported one yields a key that cannot sign.
    pub fn from_parsed(parsed: Result<EcdsaKeyPair, KeyRejected>) -> (r: Result<Key, KeyRejected>)
        ensures
            match parsed {
                Ok(pair) => r is Ok && r.unwrap().pair() == pair,
                Err(e) => r == Err::<Key, KeyRejected>(e),
            },
    {
        match parsed {
            Ok(pair) => Ok(Key { pair: Arc::new(pair) }),
            Err(e) => Err(e),
        }
    }
}

/// Whether `document` holds an ECDSA key pair on P-256 in the form that
/// `ring::signature::EcdsaKeyPair::from_pkcs8` takes: an unencrypted PKCS#8
/// document of version 1 that names the curve and holds the private key
/// together with the public key that belongs to it.
pub uninterp spec fn is_p256_pkcs8(document: Seq<u8>) -> bool;

/// What a signing operation reports: the signature as it came where it is
/// in the form of the supported scheme, else the generic failure, whatever
/// the cause was. Bytes in another form never reach the handshake: a key
/// pair that was made for another algorithm cannot sign here.
pub fn signing_result(outcome: Result<Vec<u8>, Unspecified>) -> (r: Result<Vec<u8>, SigningFailed>)
    ensures
        match outcome {
            Ok(signature) => r == if is_asn1_signature(signature@) {
                Ok::<Vec<u8>, SigningFailed>(signature)
            } else {
                Err::<Vec<u8>, SigningFailed>(SigningFailed)
            },
            Err(_) => r == Err::<Vec<u8>, SigningFailed>(SigningFailed),
        },
{
    match outcome {
        Ok(signature) => {
            if in_asn1_form(signature.as_slice()) {
                Ok(signature)
            } else {
                Err(SigningFailed)
            }
        },
        Err(_) => Err(SigningFailed),
    }
}

/// A key as the handshake sees it before a scheme is chosen.
#[derive(Debug)]
pub struct SigningKey {
    key: Key,
}

/// A key bound to the supported scheme, ready to sign.
#[derive(Debug)]
pub struct Signer {
    key: Key,
}

impl Clone for SigningKey {
    fn clone(&self) -> (r: Self)
        ensures
            r == *self,
    {
        SigningKey { key: self.key.clone() }
    }
}

impl SigningKey {
    /// The key that signs.
    pub closed spec fn key(&self) -> Key {
        self.key
    }

    /// Makes `key` available to a handshake.
    pub fn new(key: Key) -> (r: SigningKey)
        ensures
            r.key() == key,
    {
        SigningKey { key }
    }

    /// A signer for the supported scheme where the peer offers it, else
    /// none: no other scheme is ever fallen back to.
    pub fn choose_scheme(&self, offered: &[SignatureScheme]) -> (r: Option<Signer>)
        ensures
            r is Some <==> offers_supported_scheme(offered@),
            r is Some ==> r.unwrap().key() == self.key(),
    {
        if supported_scheme_offered(offered) {
            Some(Signer { key: self.key.clone() })
        } else {
            None
        }
    }

    /// The algorithm of the key.
    pub fn algorithm(&self) -> (r: SignatureAlgorithm)
        ensures
            r == ECDSA,
    {
        ECDSA
    }
}

impl Signer {
    /// The key that signs.
    pub closed spec fn key(&self) -> Key {
        self.key
    }

    /// Signs `message` with the supported scheme; the signature comes in
    /// ASN.1 form, or not at all. Every call takes a new handle on the
    /// system's random number generator: the nonce of an ECDSA signature
    /// must never be used twice with one key. A failure is reported without
    /// its cause.
    pub fn sign(&self, message: &[u8]) -> (r: Result<Vec<u8>, SigningFailed>)
        ensures
            r is Ok ==> is_asn1_signature(r.unwrap()@),
    {
        let rng = system_random();
        signing_result(ecdsa_sign(&self.key.pair, &rng, message))
    }

    /// The scheme that `sign` uses.
    pub fn get_scheme(&self) -> (r: SignatureScheme)
        ensures
            r == ECDSA_NISTP256_SHA256,
    {
        ECDSA_NISTP256_SHA256
    }
}

impl Clone for Signer {
    fn clone(&self) -> (r: Self)
        ensures
            r == *self,
    {
        Signer { key: self.key.clone() }
    }
}

/// Calls `ring::rand::SystemRandom::new`, which gives a handle on the
/// system's secure random number generator.
#[verifier::external_body]
fn system_random() -> (r: SystemRandom) {
    SystemRandom::new()
}

/// Whether `bytes` is the DER encoding of a positive integer of at most 256
/// bits: the tag of an integer, the length, and the value in as few bytes as
/// hold it, with a leading zero only where the next byte would else read as
/// a sign.
pub open spec fn is_der_scalar(bytes: Seq<u8>) -> bool {
    &&& 3 <= bytes.len() <= 35
    &&& bytes[0] == 0x02
    &&& bytes[1] == bytes.len() - 2
    &&& bytes[2] < 0x80
    &&& bytes[2] == 0 ==> bytes.len() >= 4 && bytes[3] >= 0x80
    &&& bytes.len() == 35 ==> bytes[2] == 0
}

/// Whether `signature` is an ECDSA signature on P-256 in ASN.1 form: the
/// DER encoding of a sequence of two such integers.
pub open spec fn is_asn1_signature(signature: Seq<u8>) -> bool {
    &&& 8 <= signature.len() <= 72
    &&& signature[0] == 0x30
    &&& signature[1] == signature.len() - 2
    &&& 4 + signature[3] <= signature.len() - 3
    &&& is_der_scalar(signature.subrange(2, 4 + signature[3]))
    &&& is_der_scalar(signature.subrange(4 + signature[3], signature.len() as int))
}

/// Decides whether the bytes of `bytes` from `from` up to `to` are the DER
/// encoding of a positive integer of at most 256 bits.
fn der_scalar_at(bytes: &[u8], from: usize, to: usize) -> (r: bool)
    requires
        from <= to <= bytes@.len(),
    ensures
        r == is_der_scalar(bytes@.subrange(from as int, to as int)),
{
    let n: usize = to - from;
    if n < 3 || n > 35 {
        return false;
    }
    let ghost part = bytes@.subrange(from as int, to as int);
    assert(part[0] == bytes@[from as int]);
    assert(part[1] == bytes@[from + 1]);
    assert(part[2] == bytes@[from + 2]);
    assert(n >= 4 ==> part[3] == bytes@[from + 3]);
    if bytes[from] != 0x02 || bytes[from + 1] as usize != n - 2 || bytes[from + 2] >= 0x80 {
        return false;
    }
    if bytes[from + 2] == 0 && (n < 4 || bytes[from + 3] < 0x80) {
        return false;
    }
    n != 35 || bytes[from + 2] == 0
}

/// Decides whether `signature` is an ECDSA signature on P-256 in ASN.1
/// form.
pub fn in_asn1_form(signature: &[u8]) -> (r: bool)
    ensures
        r == is_asn1_signature(signature@),
{
    let n: usize = signature.len();
    if n < 8 || n > 72 {
        return false;
    }
    if signature[0] != 0x30 || signature[1] as usize != n - 2 {
        return false;
    }
    let r_end: usize = 4 + signature[3] as usize;
    if r_end > n - 3 {
        return false;
    }
    der_scalar_at(signature, 2, r_end) && der_scalar_at(signature, r_end, n)
}

} // verus!
