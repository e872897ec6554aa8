//! Certificate chains: as they come from an issuer, not yet trusted, and as
//! they stand once validated and bound to a key.

use ring::signature::EcdsaKeyPair;
use rustls::TLSError;
use std::time::SystemTime;
use vstd::prelude::*;
use crate::key::{offers_supported_scheme, supported_scheme_offered, Key, SignatureScheme};
use crate::name::{is_name, Name};

verus! {

#[verifier::external_type_specification]
#[verifier::external_body]
pub struct ExSystemTime(SystemTime);

#[verifier::external_type_specification]
#[verifier::external_body]
pub struct ExTLSError(TLSError);

/// Whether `leaf` is the DER encoding of an end-entity certificate that is
/// valid for the DNS name `name`, in the sense of
/// `webpki::EndEntityCert::verify_is_valid_for_dns_name`. It is false where
/// either of the two does not parse.
pub uninterp spec fn leaf_valid_for_name(leaf: Seq<u8>, name: Seq<char>) -> bool;

/// Calls `webpki::EndEntityCert::from` on `leaf`,
/// `webpki::DNSNameRef::try_from_ascii_str` on `name` and, where both parse,
/// `EndEntityCert::verify_is_valid_for_dns_name`. Any failure counts as no.
#[verifier::external_body]
fn leaf_is_valid_for(leaf: &[u8], name: &str) -> (r: bool)
    ensures
        r == leaf_valid_for_name(leaf@, name@),
{
    match (webpki::EndEntityCert::from(leaf), webpki::DNSNameRef::try_from_ascii_str(name)) {
        (Ok(cert), Ok(dns_name)) => cert.verify_is_valid_for_dns_name(dns_name).is_ok(),
        _ => false,
    }
}

/// The certificates of `chain`, each as its bytes.
pub open spec fn chain_bytes(chain: Seq<Vec<u8>>) -> Seq<Seq<u8>> {
    Seq::new(chain.len(), |i: int| chain[i]@)
}

/// A copy of `chain` that holds the same certificates.
fn copy_chain(chain: &Vec<Vec<u8>>) -> (r: Vec<Vec<u8>>)
    ensures
        chain_bytes(r@) == chain_bytes(chain@),
{
    let r = chain.clone();
    assert(chain_bytes(r@) =~= chain_bytes(chain@)) by {
        assert(r.deep_view() == chain.deep_view());
        assert forall|i: int| 0 <= i < r@.len() implies r@[i]@ == chain@[i]@ by {
            assert(r.deep_view()[i] == chain.deep_view()[i]);
        }
    }
    r
}

/// What an identity that is not yet trusted holds.
pub ghost struct CrtView {
    /// The name that the chain claims to certify.
    pub name: Seq<char>,
    /// When the identity expires.
    pub expiry: SystemTime,
    /// The chain, leaf first.
    pub chain: Seq<Seq<u8>>,
}

/// What a certified identity holds.
pub ghost struct CrtKeyView {
    /// The name that the chain certifies.
    pub name: Seq<char>,
    /// When the identity expires.
    pub expiry: SystemTime,
    /// The chain, leaf first.
    pub chain: Seq<Seq<u8>>,
    /// The key pair that signs for the identity.
    pub key: EcdsaKeyPair,
}

/// An identity that is not yet trusted: a name, the chain that claims to
/// certify it (the leaf first, then the intermediates), and when it expires.
#[derive(Debug)]
pub struct Crt {
    name: Name,
    expiry: SystemTime,
    chain: Vec<Vec<u8>>,
}

impl View for Crt {
    type V = CrtView;

    closed spec fn view(&self) -> CrtView {
        CrtView { name: self.name@, expiry: self.expiry, chain: chain_bytes(self.chain@) }
    }
}

impl Clone for Crt {
    fn clone(&self) -> (r: Self)
        ensures
            r@ == self@,
            r.wf(),
    {
        proof {
            use_type_invariant(self);
        }
        let name = self.name.clone();
        let chain = copy_chain(&self.chain);
        Crt { name, expiry: self.expiry, chain }
    }
}

impl Crt {
    /// The name is a name of an endpoint and the chain holds at least its
    /// leaf.
    pub open spec fn wf(&self) -> bool {
        &&& is_name(self@.name)
        &&& self@.chain.len() >= 1
    }

    #[verifier::type_invariant]
    pub(crate) open spec fn inv(&self) -> bool {
        self.wf()
    }

    /// The chain of `leaf` followed by `intermediates`, for `name`.
    pub fn new(name: Name, leaf: Vec<u8>, intermediates: Vec<Vec<u8>>, expiry: SystemTime) -> (r:
        Crt)
        ensures
            r.wf(),
            r@.name == name@,
            r@.expiry == expiry,
            r@.chain == seq![leaf@] + chain_bytes(intermediates@),
    {
        proof {
            use_type_invariant(&name);
        }
        let mut rest = intermediates;
        let mut chain: Vec<Vec<u8>> = Vec::new();
        chain.push(leaf);
        chain.append(&mut rest);
        assert(chain_bytes(chain@) =~= seq![leaf@] + chain_bytes(intermediates@));
        Crt { name, expiry, chain }
    }

    /// The name that the chain claims to certify.
    pub fn name(&self) -> (r: &Name)
        ensures
            r@ == self@.name,
            r.wf(),
    {
        proof {
            use_type_invariant(self);
        }
        &self.name
    }

    /// When the identity expires.
    pub fn expiry(&self) -> (r: SystemTime)
        ensures
            r == self@.expiry,
    {
        self.expiry
    }

    /// The chain, leaf first.
    pub fn chain(&self) -> (r: &Vec<Vec<u8>>)
        ensures
            chain_bytes(r@) == self@.chain,
            r@.len() >= 1,
    {
        proof {
            use_type_invariant(self);
        }
        &self.chain
    }
}

/// `TLSError` derives `Clone`: the copy equals the value it was made from.
pub assume_specification[ <TLSError as Clone>::clone ](e: &TLSError) -> (r: TLSError)
    ensures
        r == *e,
;

/// Why a chain was not certified: what the validator said of it.
#[derive(Debug)]
pub struct InvalidCrt {
    cause: TLSError,
}

impl Clone for InvalidCrt {
    fn clone(&self) -> (r: Self)
        ensures
            r == *self,
    {
        InvalidCrt { cause: self.cause.clone() }
    }
}

impl InvalidCrt {
    /// What the validator said.
    pub closed spec fn cause_spec(&self) -> TLSError {
        self.cause
    }

    /// What the validator said.
    pub fn cause(&self) -> (r: &TLSError)
        ensures
            *r == self.cause_spec(),
    {
        &self.cause
    }
}

/// A certified identity: a chain that was validated against trust anchors
/// for its name, bound to the key that signs for it. Only validation makes
/// one, and it never changes.
#[derive(Debug)]
pub struct CrtKey {
    name: Name,
    expiry: SystemTime,
    chain: Vec<Vec<u8>>,
    key: Key,
}

impl View for CrtKey {
    type V = CrtKeyView;

    closed spec fn view(&self) -> CrtKeyView {
        CrtKeyView {
            name: self.name@,
            expiry: self.expiry,
            chain: chain_bytes(self.chain@),
            key: self.key.pair(),
        }
    }
}

impl Clone for CrtKey {
    fn clone(&self) -> (r: Self)
        ensures
            r@ == self@,
            r.wf(),
    {
        proof {
            use_type_invariant(self);
        }
        let name = self.name.clone();
        let chain = copy_chain(&self.chain);
        CrtKey { name, expiry: self.expiry, chain, key: self.key.clone() }
    }
}

/// Whether an identity is presented to a peer that acts as server and
/// offers `offered`. What the peer holds to be
/// acceptable issuers plays no part: a server of this kind sends no list
/// that means anything.
pub open spec fn presented_as_client(offered: Seq<SignatureScheme>) -> bool {
    offers_supported_scheme(offered)
}

/// Whether an identity with the leaf certificate `leaf` is presented to a
/// peer that acts as client, indicates `server_name` and offers `offered`:
/// only where a name is indicated, the leaf is valid for that very name, and
/// the supported scheme is offered. There is no certificate to fall back to.
pub open spec fn presented_as_server(
    leaf: Seq<u8>,
    server_name: Option<Seq<char>>,
    offered: Seq<SignatureScheme>,
) -> bool {
    &&& server_name is Some
    &&& leaf_valid_for_name(leaf, server_name.unwrap())
    &&& offers_supported_scheme(offered)
}

impl CrtKey {
    /// The name is a name of an endpoint, and the chain starts with a leaf
    /// that is valid for it.
    pub open spec fn wf(&self) -> bool {
        &&& is_name(self@.name)
        &&& self@.chain.len() >= 1
        &&& leaf_valid_for_name(self.leaf(), self@.name)
    }

    #[verifier::type_invariant]
    pub(crate) open spec fn inv(&self) -> bool {
        self.wf()
    }

    /// The leaf certificate: the first of the chain.
    pub open spec fn leaf(&self) -> Seq<u8> {
        self@.chain[0]
    }

    /// Binds a chain to a key according to the validator's verdict on the
    /// chain: the certified identity where it was accepted, else the
    /// validator's words.
    pub(crate) fn bind(key: Key, crt: Crt, verdict: Result<(), TLSError>) -> (r: Result<
        CrtKey,
        InvalidCrt,
    >)
        requires
            verdict is Ok ==> leaf_valid_for_name(crt@.chain[0], crt@.name),
        ensures
            match verdict {
                Ok(_) => r is Ok && r.unwrap().wf() && r.unwrap()@ == (CrtKeyView {
                    name: crt@.name,
                    expiry: crt@.expiry,
                    chain: crt@.chain,
                    key: key.pair(),
                }),
                Err(e) => r is Err && r.unwrap_err().cause_spec() == e,
            },
    {
        proof {
            use_type_invariant(&crt);
        }
        match verdict {
            Ok(_) => Ok(CrtKey { name: crt.name, expiry: crt.expiry, chain: crt.chain, key }),
            Err(e) => Err(InvalidCrt { cause: e }),
        }
    }

    /// The identity where the supported scheme is offered, else nothing.
    fn resolve_(&self, sigschemes: &[SignatureScheme]) -> (r: Option<&CrtKey>)
        ensures
            r == if offers_supported_scheme(sigschemes@) {
                Some(self)
            } else {
                None
            },
    {
        if !supported_scheme_offered(sigschemes) {
            return None;
        }
        Some(self)
    }

    /// What to present to a peer that acts as server and offers
    /// `sigschemes`.
    pub fn resolve_for_client_role(&self, sigschemes: &[SignatureScheme]) -> (r: Option<&CrtKey>)
        ensures
            r == if presented_as_client(sigschemes@) {
                Some(self)
            } else {
                None
            },
    {
        self.resolve_(sigschemes)
    }

    /// Whether there is a certificate to present as a client: always.
    pub fn has_certs(&self) -> (r: bool)
        ensures
            r,
    {
        true
    }

    /// What to present to a peer that acts as client, indicates
    /// `server_name` and offers `sigschemes`. The leaf is checked against
    /// the indicated name on every call: the name asked for in a handshake
    /// need not be the one that the identity was certified for.
    pub fn resolve_for_server_role(
        &self,
        server_name: Option<&str>,
        sigschemes: &[SignatureScheme],
    ) -> (r: Option<&CrtKey>)
        ensures
            r == if presented_as_server(
                self.leaf(),
                match server_name {
                    Some(n) => Some(n@),
                    None => None,
                },
                sigschemes@,
            ) {
                Some(self)
            } else {
                None
            },
    {
        proof {
            use_type_invariant(self);
        }
        let leaf_check = match server_name {
            Some(n) => Some(leaf_is_valid_for(self.chain[0].as_slice(), n)),
            None => None,
        };
        self.resolve_for_checked_name(leaf_check, sigschemes)
    }

    /// What to present to a peer that acts as client and offers
    /// `sigschemes`, given the outcome of checking the leaf against the
    /// name that the peer indicated: `None` where it indicated no name.
    pub fn resolve_for_checked_name(
        &self,
        leaf_check: Option<bool>,
        sigschemes: &[SignatureScheme],
    ) -> (r: Option<&CrtKey>)
        ensures
            r == if leaf_check == Some(true) && offers_supported_scheme(sigschemes@) {
                Some(self)
            } else {
                None
            },
    {
        match leaf_check {
            Some(true) => self.resolve_(sigschemes),
            _ => None,
        }
    }

    /// The name that the chain certifies.
    pub fn name(&self) -> (r: &Name)
        ensures
            r@ == self@.name,
            r.wf(),
    {
        proof {
            use_type_invariant(self);
        }
        &self.name
    }

    /// When the identity expires.
    pub fn expiry(&self) -> (r: SystemTime)
        ensures
            r == self@.expiry,
    {
        self.expiry
    }

    /// The chain, leaf first.
    pub fn chain(&self) -> (r: &Vec<Vec<u8>>)
        ensures
            chain_bytes(r@) == self@.chain,
            r@.len() >= 1,
    {
        proof {
            use_type_invariant(self);
        }
        &self.chain
    }

    /// The key that signs for the identity.
    pub fn key(&self) -> (r: &Key)
        ensures
            r.pair() == self@.key,
    {
        &self.key
    }
}

/// Whatever the identity, nothing is presented in either role to a peer
/// that does not offer the supported scheme.
pub proof fn lemma_unsupported_schemes_resolve_nothing(
    identity: CrtKey,
    server_name: Option<Seq<char>>,
    offered: Seq<SignatureScheme>,
)
    requires
        !offers_supported_scheme(offered),
    ensures
        !presented_as_client(offered),
        !presented_as_server(identity.leaf(), server_name, offered),
{
}

/// In the server role nothing is presented where no name is indicated, nor
/// where the leaf is not valid for the indicated name; the identity's own
/// name is served wherever the supported scheme is offered.
pub proof fn lemma_server_role_serves_own_name_only(
    identity: CrtKey,
    server_name: Seq<char>,
    offered: Seq<SignatureScheme>,
)
    requires
        identity.wf(),
    ensures
        !presented_as_server(identity.leaf(), None, offered),
        !leaf_valid_for_name(identity.leaf(), server_name) ==> !presented_as_server(
            identity.leaf(),
            Some(server_name),
            offered,
        ),
        offers_supported_scheme(offered) ==> presented_as_server(
            identity.leaf(),
            Some(identity@.name),
            offered,
        ),
{
}

} // verus!
