//! Authorization handshake core for a custodial signing service.
//!
//! Before a signing operation proceeds, a human operator supplies a password
//! through a front-end. This crate holds the verified core of that handshake:
//! the constant-time password container ([`secret::Password`]), the bootstrap
//! decision made from the data file on disk ([`config`]), the capability
//! interface a signing service calls against ([`secret::Authorizer`]), and the
//! single-slot rendezvous that carries passwords from the front-end to the
//! service and retry verdicts back ([`coordinator`]).

pub mod config;
pub mod coordinator;
pub mod resources;
pub mod secret;

use vstd::prelude::*;

verus! {

/// The failure kinds of the handshake core.
#[derive(Clone, Copy, Debug, PartialEq, Eq, Structural)]
pub enum CoreError {
    /// A filesystem inspection failed for a reason other than non-existence.
    IoFailure,
    /// The data path exists but is occupied by something that is not a
    /// regular file.
    InvalidDataFormat,
    /// A coordinator call was made after the front-end detached.
    CommunicationClosed,
}

} // verus!
