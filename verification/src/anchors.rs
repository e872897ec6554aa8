//! Trust anchors: the root certificates against which chains are validated.

use rustls::{RootCertStore, TLSError};
use std::sync::Arc;
use vstd::prelude::*;
use vstd::utf8::encode_utf8;
use crate::crt::{leaf_valid_for_name, Crt, CrtKey, CrtKeyView, InvalidCrt};
use crate::key::Key;
use crate::name::is_dns_name;
use crate::shared::share;

verus! {

#[verifier::external_type_specification]
#[verifier::external_body]
pub struct ExRootCertStore(RootCertStore);

/// The trust anchors that `store` holds, in the order in which they were
/// added, each by its subject.
pub uninterp spec fn store_anchors(store: RootCertStore) -> Seq<Seq<u8>>;

/// What `rustls::RootCertStore::add_pem_file` makes of the PEM text `pem`:
/// the subjects of the certificates that become anchors, in their order,
/// and the number of certificates that were found but are no use as anchors;
/// or nothing where the text could not be read as PEM at all.
pub uninterp spec fn pem_outcome(pem: Seq<char>) -> Option<(Seq<Seq<u8>>, usize)>;

/// Whether the PEM text `pem` yields at least one trust anchor.
pub open spec fn pem_adds_anchor(pem: Seq<char>) -> bool {
    match pem_outcome(pem) {
        Some((subjects, _)) => subjects.len() > 0,
        None => false,
    }
}

/// The number of certificates in the PEM text `pem` that are no use as
/// anchors: none where the text could not be read at all.
pub open spec fn pem_skipped(pem: Seq<char>) -> usize {
    match pem_outcome(pem) {
        Some((_, skipped)) => skipped,
        None => 0,
    }
}

/// Calls `rustls::RootCertStore::empty`: a store without anchors.
#[verifier::external_body]
fn empty_store() -> (r: RootCertStore)
    ensures
        store_anchors(r) == Seq::<Seq<u8>>::empty(),
{
    RootCertStore::empty()
}

/// Calls `rustls::RootCertStore::len`: the number of anchors in the store.
#[verifier::external_body]
fn store_len(store: &RootCertStore) -> (r: usize)
    ensures
        r == store_anchors(*store).len(),
{
    store.len()
}

/// Calls `rustls::RootCertStore::add_pem_file` on a cursor over `pem`. The
/// outcome rests on the text alone. Where the text cannot be read as PEM
/// the store is left as it was; else the anchors that the text yields stand
/// behind those that the store held, and the two numbers say how many were
/// added and how many passed over. A text without characters adds and skips
/// nothing.
#[verifier::external_body]
fn add_pem(store: &mut RootCertStore, pem: &str) -> (r: Option<(usize, usize)>)
    ensures
        r is Some <==> pem_outcome(pem@) is Some,
        r is Some ==> r.unwrap().0 == pem_outcome(pem@).unwrap().0.len(),
        r is Some ==> r.unwrap().1 == pem_outcome(pem@).unwrap().1,
        r is Some ==> store_anchors(*final(store)) == store_anchors(*old(store)) + pem_outcome(
            pem@,
        ).unwrap().0,
        r is None ==> *final(store) == *old(store),
        pem@.len() == 0 ==> r == Some((0usize, 0usize)),
{
    match store.add_pem_file(&mut std::io::Cursor::new(pem)) {
        Ok(counts) => Some(counts),
        Err(_) => None,
    }
}

/// Calls `rustls::ClientConfig::new`, `ClientConfig::get_verifier` and the
/// verifier's `verify_server_cert`, with `chain` as the presented
/// certificates, `name` as the server's name and no OCSP response. The
/// verdict rests on the time of the call, so nothing is claimed of when it
/// is given; where the chain is accepted, it has a leaf and the leaf is
/// valid for `name`.
///
/// The chain is validated as a server's chain, whichever role the identity
/// will play. That is sound as long as the validation of a server's chain
/// is at least as strict as that of a client's.
#[verifier::external_body]
fn verify_as_server_chain(roots: &RootCertStore, chain: &Vec<Vec<u8>>, name: &str) -> (r: Result<
    (),
    TLSError,
>)
    requires
        is_dns_name(encode_utf8(name@)),
    ensures
        r is Ok ==> chain@.len() >= 1 && leaf_valid_for_name(chain@[0]@, name@),
{
    let certs: Vec<rustls::Certificate> = chain.iter().map(
        |c| rustls::Certificate(c.clone()),
    ).collect();
    let dns_name = webpki::DNSNameRef::try_from_ascii_str(name).unwrap();
    let config = rustls::ClientConfig::new();
    match config.get_verifier().verify_server_cert(roots, &certs, dns_name, &[]) {
        Ok(_) => Ok(()),
        Err(e) => Err(e),
    }
}

/// A set of root certificates: the sole authority on which chains are
/// trusted. It holds at least one anchor and never changes.
#[derive(Debug)]
pub struct TrustAnchors {
    roots: Arc<RootCertStore>,
}

impl Clone for TrustAnchors {
    fn clone(&self) -> (r: Self)
        ensures
            r == *self,
    {
        proof {
            use_type_invariant(self);
        }
        TrustAnchors { roots: share(&self.roots) }
    }
}

impl TrustAnchors {
    /// The anchors, in the order in which they were loaded, each by its
    /// subject.
    pub closed spec fn anchors(&self) -> Seq<Seq<u8>> {
        store_anchors(*self.roots)
    }

    /// There is at least one anchor.
    pub open spec fn wf(&self) -> bool {
        self.anchors().len() >= 1
    }

    #[verifier::type_invariant]
    pub(crate) open spec fn inv(&self) -> bool {
        self.wf()
    }

    /// Loads the anchors of a PEM bundle. Certificates in it that are no
    /// use as anchors are passed over. Where not one anchor is found, in an
    /// empty bundle for one, there is nothing to return.
    pub fn from_pem(s: &str) -> (r: Option<TrustAnchors>)
        ensures
            r is Some <==> pem_adds_anchor(s@),
            r is Some ==> r.unwrap().wf() && r.unwrap().anchors() == pem_outcome(s@).unwrap().0,
            s@.len() == 0 ==> r is None,
    {
        TrustAnchors::from_pem_counted(s).0
    }

    /// Loads the anchors of a PEM bundle as `from_pem` does, and says beside
    /// them how many certificates were passed over, for the caller to
    /// report.
    pub fn from_pem_counted(s: &str) -> (r: (Option<TrustAnchors>, usize))
        ensures
            r.0 is Some <==> pem_adds_anchor(s@),
            r.0 is Some ==> r.0.unwrap().wf() && r.0.unwrap().anchors() == pem_outcome(
                s@,
            ).unwrap().0,
            s@.len() == 0 ==> r.0 is None && r.1 == 0,
            r.1 == pem_skipped(s@),
    {
        let mut roots = empty_store();
        let outcome = add_pem(&mut roots, s);
        let skipped: usize = match outcome {
            Some((_, skipped)) => skipped,
            None => 0,
        };
        (TrustAnchors::from_loaded(roots, outcome), skipped)
    }

    /// The anchors of a store into which a bundle was loaded with the given
    /// outcome: nothing where loading failed or added no anchor, nor where
    /// the store holds none.
    pub fn from_loaded(roots: RootCertStore, outcome: Option<(usize, usize)>) -> (r: Option<
        TrustAnchors,
    >)
        ensures
            r is Some <==> (outcome matches Some((added, _)) && added > 0 && store_anchors(
                roots,
            ).len() > 0),
            r is Some ==> r.unwrap().wf() && r.unwrap().anchors() == store_anchors(roots),
    {
        match outcome {
            Some((added, _skipped)) => {
                if added == 0 || store_len(&roots) == 0 {
                    return None;
                }
                Some(TrustAnchors { roots: Arc::new(roots) })
            },
            None => None,
        }
    }

    /// Validates the chain of `crt` against the anchors, for the name of
    /// `crt` and at the present time, and binds it to `key`. The identity
    /// that comes out holds what `crt` and `key` held; a chain that is
    /// refused comes back as the validator's words.
    pub fn certify(&self, key: Key, crt: Crt) -> (r: Result<CrtKey, InvalidCrt>)
        ensures
            r is Ok ==> r.unwrap().wf() && r.unwrap()@ == (CrtKeyView {
                name: crt@.name,
                expiry: crt@.expiry,
                chain: crt@.chain,
                key: key.pair(),
            }),
    {
        let verdict = verify_as_server_chain(&self.roots, crt.chain(), crt.name().as_ref());
        CrtKey::bind(key, crt, verdict)
    }
}

} // verus!
