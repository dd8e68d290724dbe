//! Attestation policy and verifier: the certificate verifier wrapped as a
//! binding-key policy, aggregated with the host clock bridge.

use vstd::prelude::*;
use crate::certificate::CertificateVerifier;
use crate::certificate::CertificateVerifierView;

verus! {

/// A reference to a host-owned time source, already bridged to the native
/// time interface. The host remains the sole owner of the underlying object;
/// the handle only identifies it, so the native side can query the current
/// time without owning the host object's lifetime.
#[derive(Clone, Copy, PartialEq, Eq, Structural, Debug)]
pub struct ClockHandle {
    pub id: u64,
}

/// A reference to a host-owned attestation-event sink, already bridged to the
/// native publisher interface. Present at most once per configuration.
#[derive(Clone, Copy, PartialEq, Eq, Structural, Debug)]
pub struct PublisherHandle {
    pub id: u64,
}

/// Binds exactly one certificate verifier to the binding-key semantics of the
/// attestation scheme: evidence is accepted when the peer's binding
/// certificate passes the wrapped verifier.
#[derive(Debug)]
pub struct AttestationPolicy {
    pub certificate_verifier: CertificateVerifier,
}

impl View for AttestationPolicy {
    type V = CertificateVerifierView;

    open spec fn view(&self) -> CertificateVerifierView {
        self.certificate_verifier@
    }
}

impl AttestationPolicy {
    /// Wraps exactly one certificate verifier; the policy is one-to-one with
    /// it and adds no state of its own.
    pub fn new(certificate_verifier: CertificateVerifier) -> (p: AttestationPolicy)
        ensures
            p@ == certificate_verifier@,
    {
        AttestationPolicy { certificate_verifier }
    }
}

/// The mathematical content of an [`AttestationVerifier`].
pub struct AttestationVerifierView {
    pub policies: Seq<CertificateVerifierView>,
    pub clock: ClockHandle,
}

/// Aggregates a set of binding-key policies (exactly one in this design,
/// kept as a sequence as the extension point) with the shared clock bridge.
/// Evaluation of attestation evidence against the policies happens later, in
/// the session library; this component only assembles the aggregate.
#[derive(Debug)]
pub struct AttestationVerifier {
    pub policies: Vec<AttestationPolicy>,
    pub clock: ClockHandle,
}

impl View for AttestationVerifier {
    type V = AttestationVerifierView;

    open spec fn view(&self) -> AttestationVerifierView {
        AttestationVerifierView {
            policies: self.policies@.map_values(|p: AttestationPolicy| p@),
            clock: self.clock,
        }
    }
}

impl AttestationVerifier {
    /// Aggregates the given policies with the shared clock bridge.
    pub fn new(policies: Vec<AttestationPolicy>, clock: ClockHandle) -> (v: AttestationVerifier)
        ensures
            v@.policies == policies@.map_values(|p: AttestationPolicy| p@),
            v@.clock == clock,
    {
        AttestationVerifier { policies, clock }
    }
}

} // verus!
