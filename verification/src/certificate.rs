//! The certificate verifier: signature checking over raw public key material,
//! bounded by the fixed clock-skew and validity tolerances.

use vstd::prelude::*;
use crate::tolerances::Duration;
use crate::tolerances::ALLOWED_CLOCK_SKEW_SECONDS;
use crate::tolerances::VALIDITY_LIMIT_SECONDS;

verus! {

/// Checks signatures against a raw public keyset.
///
/// The key material is immutable once received and owned by the verifier;
/// whether the bytes actually parse as a keyset is the signature layer's
/// concern at evaluation time, not this component's.
#[derive(Debug)]
pub struct SignatureVerifier {
    pub public_keyset: Vec<u8>,
}

impl SignatureVerifier {
    /// Wraps raw public key material for signature checking.
    pub fn new(public_keyset: Vec<u8>) -> (v: SignatureVerifier)
        ensures
            v.public_keyset@ == public_keyset@,
    {
        SignatureVerifier { public_keyset }
    }
}

/// The mathematical content of a [`CertificateVerifier`]: the key material it
/// checks signatures against and the tolerances it enforces, if configured.
pub struct CertificateVerifierView {
    pub public_keyset: Seq<u8>,
    pub allowed_clock_skew: Option<Duration>,
    pub validity_limit: Option<Duration>,
}

/// Validates a peer's signed binding certificate: signatures are checked
/// against the public keyset, the certificate's validity window is compared
/// to the current time within `allowed_clock_skew`, and its total span is
/// bounded by `validity_limit`.
///
/// A tolerance of `None` means the corresponding bound has not been
/// configured and no slack (or no span bound) is granted.
#[derive(Debug)]
pub struct CertificateVerifier {
    pub signature_verifier: SignatureVerifier,
    pub allowed_clock_skew: Option<Duration>,
    pub validity_limit: Option<Duration>,
}

impl View for CertificateVerifier {
    type V = CertificateVerifierView;

    open spec fn view(&self) -> CertificateVerifierView {
        CertificateVerifierView {
            public_keyset: self.signature_verifier.public_keyset@,
            allowed_clock_skew: self.allowed_clock_skew,
            validity_limit: self.validity_limit,
        }
    }
}

impl CertificateVerifier {
    /// A fresh verifier over the given signature verifier, with no tolerances
    /// configured yet.
    pub fn new(signature_verifier: SignatureVerifier) -> (v: CertificateVerifier)
        ensures
            v@.public_keyset == signature_verifier.public_keyset@,
            v@.allowed_clock_skew is None,
            v@.validity_limit is None,
    {
        CertificateVerifier { signature_verifier, allowed_clock_skew: None, validity_limit: None }
    }

    /// Configures how far a certificate's validity window may disagree with
    /// the clock before rejection. Leaves the key material and the validity
    /// limit untouched.
    pub fn set_allowed_clock_skew(&mut self, skew: Duration)
        ensures
            final(self)@.allowed_clock_skew == Some(skew),
            final(self)@.public_keyset == old(self)@.public_keyset,
            final(self)@.validity_limit == old(self)@.validity_limit,
    {
        self.allowed_clock_skew = Some(skew);
    }

    /// Configures the longest validity span a certificate may claim. Leaves
    /// the key material and the clock skew untouched.
    pub fn set_validity_limit(&mut self, limit: Duration)
        ensures
            final(self)@.validity_limit == Some(limit),
            final(self)@.public_keyset == old(self)@.public_keyset,
            final(self)@.allowed_clock_skew == old(self)@.allowed_clock_skew,
    {
        self.validity_limit = Some(limit);
    }
}

/// The verifier the construction pipeline installs for the given key
/// material: both tolerances set to the fixed policy values.
pub open spec fn spec_configured_verifier(public_keyset: Seq<u8>) -> CertificateVerifierView {
    CertificateVerifierView {
        public_keyset: public_keyset,
        allowed_clock_skew: Some(Duration { seconds: ALLOWED_CLOCK_SKEW_SECONDS }),
        validity_limit: Some(Duration { seconds: VALIDITY_LIMIT_SECONDS }),
    }
}

/// Builds the certificate verifier for the given key material, configured
/// with the fixed clock-skew tolerance and validity limit. Construction
/// itself has no fallible step: malformed key material is rejected later, by
/// the signature layer, when a certificate is evaluated.
pub fn configured_certificate_verifier(public_keyset: Vec<u8>) -> (v: CertificateVerifier)
    ensures
        v@ == spec_configured_verifier(public_keyset@),
{
    let mut verifier = CertificateVerifier::new(SignatureVerifier::new(public_keyset));
    verifier.set_allowed_clock_skew(Duration::from_seconds(ALLOWED_CLOCK_SKEW_SECONDS));
    verifier.set_validity_limit(Duration::from_seconds(VALIDITY_LIMIT_SECONDS));
    verifier
}

} // verus!
