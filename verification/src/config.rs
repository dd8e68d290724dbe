//! The session configuration builder and its assembly: fixed scheme
//! constants, the registered attestation verifier, and the optional
//! publisher.

use vstd::prelude::*;
use vstd::string::StringExecFns;
use crate::attestation::AttestationVerifier;
use crate::attestation::AttestationVerifierView;
use crate::attestation::PublisherHandle;

verus! {

/// Which side of the session presents attestation evidence.
#[derive(Clone, Copy, PartialEq, Eq, Structural, Debug)]
pub enum AttestationType {
    /// Both sides attest to each other.
    Bidirectional,
    /// Only this side attests to the peer.
    SelfUnidirectional,
    /// Only the peer attests; this side verifies.
    PeerUnidirectional,
    /// No attestation at all.
    Unattested,
}

/// The Noise key-exchange pattern used to establish the channel.
#[derive(Clone, Copy, PartialEq, Eq, Structural, Debug)]
pub enum HandshakeType {
    /// Both sides use static keys known in advance.
    NoiseKK,
    /// This side uses a known static key; the peer is ephemeral.
    NoiseKN,
    /// The peer uses a known static key; this side is ephemeral.
    NoiseNK,
    /// No static keys: ephemeral-ephemeral on both sides.
    NoiseNN,
}

/// How the cryptographic binding key is derived from attestation evidence.
#[derive(Clone, Copy, PartialEq, Eq, Structural, Debug)]
pub enum KeyExtractor {
    /// The scheme-standard derivation, with no customization.
    DefaultBinding,
}

/// The single scheme identifier under which the peer's attestation evidence
/// is registered and later matched during the handshake.
pub open spec fn spec_certificate_based_attestation_id() -> Seq<char> {
    "certificate-based attestation"@
}

/// The single scheme identifier, as a string.
pub fn certificate_based_attestation_id() -> (r: &'static str)
    ensures
        r@ == spec_certificate_based_attestation_id(),
{
    "certificate-based attestation"
}

/// The mathematical content of one registered peer verifier.
pub struct PeerVerifierEntryView {
    pub scheme_id: Seq<char>,
    pub verifier: AttestationVerifierView,
    pub key_extractor: KeyExtractor,
}

/// One attestation verifier registered under a scheme identifier, together
/// with the strategy that derives the binding key from the evidence.
#[derive(Debug)]
pub struct PeerVerifierEntry {
    pub scheme_id: String,
    pub verifier: AttestationVerifier,
    pub key_extractor: KeyExtractor,
}

impl View for PeerVerifierEntry {
    type V = PeerVerifierEntryView;

    open spec fn view(&self) -> PeerVerifierEntryView {
        PeerVerifierEntryView {
            scheme_id: self.scheme_id@,
            verifier: self.verifier@,
            key_extractor: self.key_extractor,
        }
    }
}

/// The mathematical content of a [`SessionConfigBuilder`].
pub struct SessionConfigView {
    pub attestation_type: AttestationType,
    pub handshake_type: HandshakeType,
    pub peer_verifiers: Seq<PeerVerifierEntryView>,
    pub attestation_publisher: Option<PublisherHandle>,
}

/// Mutable accumulator for the session configuration: the attestation and
/// handshake types, the registered peer verifiers, and the optional
/// attestation publisher. Its terminal state is "handed across the host
/// boundary", after which this component never touches it again; the
/// transfer consumes the builder, so a second transfer of the same value is
/// not expressible.
#[derive(Debug)]
pub struct SessionConfigBuilder {
    pub attestation_type: AttestationType,
    pub handshake_type: HandshakeType,
    pub peer_verifiers: Vec<PeerVerifierEntry>,
    pub attestation_publisher: Option<PublisherHandle>,
}

impl View for SessionConfigBuilder {
    type V = SessionConfigView;

    open spec fn view(&self) -> SessionConfigView {
        SessionConfigView {
            attestation_type: self.attestation_type,
            handshake_type: self.handshake_type,
            peer_verifiers: self.peer_verifiers@.map_values(|e: PeerVerifierEntry| e@),
            attestation_publisher: self.attestation_publisher,
        }
    }
}

impl SessionConfigBuilder {
    /// A fresh builder for the given attestation and handshake types, with
    /// no peer verifier registered and no publisher attached.
    pub fn new(attestation_type: AttestationType, handshake_type: HandshakeType) -> (b:
        SessionConfigBuilder)
        ensures
            b@.attestation_type == attestation_type,
            b@.handshake_type == handshake_type,
            b@.peer_verifiers == Seq::<PeerVerifierEntryView>::empty(),
            b@.attestation_publisher is None,
    {
        SessionConfigBuilder {
            attestation_type,
            handshake_type,
            peer_verifiers: Vec::new(),
            attestation_publisher: None,
        }
    }

    /// Registers an attestation verifier under a scheme identifier, together
    /// with the binding-key extraction strategy the handshake will use for
    /// evidence presented under that identifier.
    pub fn add_peer_verifier_with_key_extractor(
        self,
        scheme_id: String,
        verifier: AttestationVerifier,
        key_extractor: KeyExtractor,
    ) -> (b: SessionConfigBuilder)
        ensures
            b@.attestation_type == self@.attestation_type,
            b@.handshake_type == self@.handshake_type,
            b@.attestation_publisher == self@.attestation_publisher,
            b@.peer_verifiers == self@.peer_verifiers.push(
                (PeerVerifierEntryView {
                    scheme_id: scheme_id@,
                    verifier: verifier@,
                    key_extractor: key_extractor,
                }),
            ),
    {
        let mut peer_verifiers = self.peer_verifiers;
        peer_verifiers.push(PeerVerifierEntry { scheme_id, verifier, key_extractor });
        let b = SessionConfigBuilder {
            attestation_type: self.attestation_type,
            handshake_type: self.handshake_type,
            peer_verifiers,
            attestation_publisher: self.attestation_publisher,
        };
        proof {
            assert(b@.peer_verifiers =~= self@.peer_verifiers.push(b@.peer_verifiers.last()));
        }
        b
    }

    /// Attaches the attestation publisher, so attestation results can be
    /// observed outside the native boundary. Everything else is unchanged.
    pub fn add_attestation_publisher(self, publisher: PublisherHandle) -> (b: SessionConfigBuilder)
        ensures
            b@.attestation_type == self@.attestation_type,
            b@.handshake_type == self@.handshake_type,
            b@.peer_verifiers == self@.peer_verifiers,
            b@.attestation_publisher == Some(publisher),
    {
        SessionConfigBuilder {
            attestation_type: self.attestation_type,
            handshake_type: self.handshake_type,
            peer_verifiers: self.peer_verifiers,
            attestation_publisher: Some(publisher),
        }
    }
}

/// The configuration the assembler produces for a given attestation verifier
/// and optional publisher: attestation type fixed to peer-unidirectional,
/// handshake fixed to the ephemeral-ephemeral Noise pattern, exactly one
/// peer verifier registered under the certificate-based scheme identifier
/// with the default binding-key extraction, and the publisher attached if
/// and only if one was supplied.
pub open spec fn spec_assembled_config(
    verifier: AttestationVerifierView,
    publisher: Option<PublisherHandle>,
) -> SessionConfigView {
    SessionConfigView {
        attestation_type: AttestationType::PeerUnidirectional,
        handshake_type: HandshakeType::NoiseNN,
        peer_verifiers: seq![
            PeerVerifierEntryView {
                scheme_id: spec_certificate_based_attestation_id(),
                verifier: verifier,
                key_extractor: KeyExtractor::DefaultBinding,
            },
        ],
        attestation_publisher: publisher,
    }
}

/// Assembles the full session configuration: pure composition, deterministic
/// in its inputs, with no fallible step. The publisher branch is decided
/// here, before the builder is finalized; a publisher can never be attached
/// after the builder has crossed the host boundary, because the transfer
/// consumes it.
pub fn assemble_session_config(
    verifier: AttestationVerifier,
    publisher: Option<PublisherHandle>,
) -> (b: SessionConfigBuilder)
    ensures
        b@ == spec_assembled_config(verifier@, publisher),
{
    let ghost verifier_view = verifier@;
    let scheme_id = String::from_str(certificate_based_attestation_id());
    let builder = SessionConfigBuilder::new(
        AttestationType::PeerUnidirectional,
        HandshakeType::NoiseNN,
    ).add_peer_verifier_with_key_extractor(scheme_id, verifier, KeyExtractor::DefaultBinding);
    let builder = match publisher {
        None => builder,
        Some(p) => builder.add_attestation_publisher(p),
    };
    proof {
        assert(builder@.peer_verifiers =~= spec_assembled_config(
            verifier_view,
            publisher,
        ).peer_verifiers);
    }
    builder
}

} // verus!
