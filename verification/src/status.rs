//! Whether a connection has an identity, and if not, why not.
//!
//! The reasons are reported under fixed tokens, which telemetry reads as
//! labels. The tokens are part of the public interface and never change.

use vstd::prelude::*;
use crate::name::Name;

verus! {

/// A value that is there, or the reason why it is not.
#[derive(Clone, Copy, Debug, PartialEq, Eq, Hash)]
pub enum Conditional<C, R> {
    /// The value.
    Present(C),
    /// Why there is no value.
    Absent(R),
}

/// Why the peer of a connection has no identity.
#[derive(Clone, Copy, Debug, PartialEq, Eq, Hash, Structural)]
pub enum ReasonForNoPeerIdentity {
    /// The connection is a loopback connection, which neither needs nor
    /// supports TLS.
    Loopback,
    /// The protocol is HTTP, but the request carries no authority from which
    /// an identity could be taken.
    NoAuthorityInHttpRequest,
    /// The protocol is not HTTP, so nothing but the address is known of the
    /// destination.
    NotHttp,
    /// Service discovery gave no identity for the destination.
    NotProvidedByServiceDiscovery,
    /// The client presented no identity.
    NotProvidedByClient,
}

/// Why a connection has no identity.
#[derive(Clone, Copy, Debug, PartialEq, Eq, Hash, Structural)]
pub enum ReasonForNoIdentity {
    /// Identity is switched off altogether.
    Disabled,
    /// The peer has no identity.
    NoPeerIdentity(ReasonForNoPeerIdentity),
}

/// Whether a connection is secured, or why it is not.
pub type Status = Conditional<(), ReasonForNoIdentity>;

/// A value tied to an identity, or why there is no identity.
pub type IdentityStatus<T> = Conditional<T, ReasonForNoIdentity>;

/// The name of a connection's peer, or why the peer has none.
pub type PeerIdentity = Conditional<Name, ReasonForNoPeerIdentity>;

impl ReasonForNoPeerIdentity {
    /// The token under which the reason is reported.
    pub open spec fn token(self) -> Seq<char> {
        match self {
            ReasonForNoPeerIdentity::Loopback => "loopback"@,
            ReasonForNoPeerIdentity::NoAuthorityInHttpRequest => "no_authority_in_http_request"@,
            ReasonForNoPeerIdentity::NotHttp => "not_http"@,
            ReasonForNoPeerIdentity::NotProvidedByServiceDiscovery => "not_provided_by_service_discovery"@,
            ReasonForNoPeerIdentity::NotProvidedByClient => "not_provided_by_client"@,
        }
    }

    /// The token under which the reason is reported.
    pub fn as_str(&self) -> (r: &'static str)
        ensures
            r@ == self.token(),
    {
        match self {
            ReasonForNoPeerIdentity::Loopback => "loopback",
            ReasonForNoPeerIdentity::NoAuthorityInHttpRequest => "no_authority_in_http_request",
            ReasonForNoPeerIdentity::NotHttp => "not_http",
            ReasonForNoPeerIdentity::NotProvidedByServiceDiscovery => "not_provided_by_service_discovery",
            ReasonForNoPeerIdentity::NotProvidedByClient => "not_provided_by_client",
        }
    }

    /// The token as an owned string.
    pub fn to_string(&self) -> (r: String)
        ensures
            r@ == self.token(),
    {
        self.as_str().to_owned()
    }
}

impl ReasonForNoIdentity {
    /// The token under which the reason is reported: its own where identity
    /// is switched off, else that of the peer's reason.
    pub open spec fn token(self) -> Seq<char> {
        match self {
            ReasonForNoIdentity::Disabled => "disabled"@,
            ReasonForNoIdentity::NoPeerIdentity(reason) => reason.token(),
        }
    }

    /// The token under which the reason is reported.
    pub fn as_str(&self) -> (r: &'static str)
        ensures
            r@ == self.token(),
    {
        match self {
            ReasonForNoIdentity::Disabled => "disabled",
            ReasonForNoIdentity::NoPeerIdentity(reason) => reason.as_str(),
        }
    }

    /// The token as an owned string.
    pub fn to_string(&self) -> (r: String)
        ensures
            r@ == self.token(),
    {
        self.as_str().to_owned()
    }
}

/// The token under which a status is reported: `true` where the connection
/// is secured, else the token of the reason.
pub open spec fn status_token(status: Status) -> Seq<char> {
    match status {
        Conditional::Present(_) => "true"@,
        Conditional::Absent(reason) => reason.token(),
    }
}

/// The token under which a status is reported.
pub fn status_as_str(status: &Status) -> (r: &'static str)
    ensures
        r@ == status_token(*status),
{
    match status {
        Conditional::Present(_) => "true",
        Conditional::Absent(reason) => reason.as_str(),
    }
}

/// Something that knows whether it is secured.
pub trait HasStatus {
    /// Whether it is secured, or why not.
    fn tls_status(&self) -> Status;
}

/// What is known of the identities on a connection once it is established:
/// the server's name, and the client's, or why the client has none.
#[derive(Clone, Debug, PartialEq, Eq, Hash)]
pub struct IdentityState {
    server_identity: Name,
    client_identity: PeerIdentity,
}

impl IdentityState {
    /// The server's name.
    pub closed spec fn server(&self) -> Name {
        self.server_identity
    }

    /// The client's name, or why it has none.
    pub closed spec fn client(&self) -> PeerIdentity {
        self.client_identity
    }

    /// The identities of a connection, as they stand when it is established.
    pub fn new(server_identity: Name, client_identity: PeerIdentity) -> (r: IdentityState)
        ensures
            r.server() == server_identity,
            r.client() == client_identity,
    {
        IdentityState { server_identity, client_identity }
    }

    /// The server's name.
    pub fn server_identity(&self) -> (r: &Name)
        ensures
            *r == self.server(),
    {
        &self.server_identity
    }

    /// The client's name, or why it has none.
    pub fn client_identity(&self) -> (r: &PeerIdentity)
        ensures
            *r == self.client(),
    {
        &self.client_identity
    }
}

/// Something that knows the identities of a connection.
pub trait HasIdentity {
    /// The identities, or why there are none.
    fn identity(&self) -> IdentityStatus<IdentityState>;
}

/// Something that knows the identity of its peer.
pub trait HasPeerIdentity {
    /// The peer's name, or why it has none.
    fn peer_identity(&self) -> PeerIdentity;
}

} // verus!
