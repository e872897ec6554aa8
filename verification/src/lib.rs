//! Cryptographic identity for a mutual-TLS proxy: keys, names, trust anchors,
//! certified identities and the reasons why an identity may be absent.

pub mod anchors;
pub mod crt;
pub mod csr;
pub mod key;
pub mod name;
mod shared;
pub mod status;
pub mod token;

pub use anchors::TrustAnchors;
pub use crt::{Crt, CrtKey, InvalidCrt};
pub use csr::CSR;
pub use key::{Key, Signer, SigningFailed, SigningKey};
pub use name::{InvalidName, Name};
pub use status::{
    Conditional, HasIdentity, HasPeerIdentity, HasStatus, IdentityState, IdentityStatus,
    PeerIdentity, ReasonForNoIdentity, ReasonForNoPeerIdentity, Status,
};
pub use token::{EmptyToken, TokenSource};
