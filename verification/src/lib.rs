//! The core of an Auto-Configuration Server (ACS) for the CWMP/TR-069
//! device-management protocol.
//!
//! The ACS terminates inbound CWMP sessions from customer-premises equipment
//! (CPE) and multiplexes operator-originated management operations against
//! those devices. The protocol's control flow is inverted: CWMP runs only
//! while the CPE holds an open HTTP session to the ACS, yet management
//! requests arrive at arbitrary times. They are queued per device, a dormant
//! device is woken with an HTTP Digest Connection Request, and an attached
//! session driver drains the queue in order, routing each reply back to its
//! requester.
//!
//! All I/O stays outside this crate: callers perform the HTTP legs and the
//! file writes, and feed the decision functions here with plain values.

pub mod acs;
pub mod connreq;
pub mod controller;
pub mod cpe;
pub mod db;
pub mod session;
pub mod soap;
pub mod transfer;
pub mod utils;

use vstd::prelude::*;

verus! {

/// The error kinds the coordinator distinguishes.
///
/// `CpeFault` is deliberately absent: a well-formed CWMP Fault envelope
/// returned by the CPE is delivered to the transfer's observer as its reply,
/// not surfaced as an error.
#[derive(Clone, Copy, Debug, PartialEq, Eq, Structural)]
pub enum AcsError {
    /// TCP/TLS/HTTP failure on either direction.
    TransportError,
    /// Missing or invalid credentials, inbound or outbound.
    AuthError,
    /// Malformed SOAP, missing Inform, or an unexpected RPC in the wrong state.
    ProtocolError,
    /// Enqueue attempted after the entry was destroyed.
    QueueClosed,
    /// Persistence file corruption or missing required fields on restore.
    ConfigError,
}

} // verus!
