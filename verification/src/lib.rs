//! Assembly of the trust configuration for a mutually attested, encrypted
//! session between a client device and a remote peer.
//!
//! The library does not run the cryptographic handshake itself; it composes
//! the policy the handshake will enforce: a certificate verifier with fixed
//! clock-skew and validity tolerances, wrapped in a binding-key attestation
//! policy under a single scheme identifier, aggregated with a host-supplied
//! clock into an attestation verifier, and assembled into a session
//! configuration builder that is finally handed to the host environment as an
//! opaque handle. Failures from the native side and exceptions already raised
//! by the host are reconciled into a single host-visible error.

pub mod attestation;
pub mod boundary;
pub mod certificate;
pub mod config;
pub mod laws;
pub mod outcome;
pub mod pipeline;
pub mod tolerances;
