use session_config::attestation::{AttestationPolicy, AttestationVerifier, ClockHandle,
    PublisherHandle};
use session_config::certificate::{configured_certificate_verifier, CertificateVerifier,
    SignatureVerifier};
use session_config::config::{assemble_session_config, certificate_based_attestation_id,
    AttestationType, HandshakeType, KeyExtractor, SessionConfigBuilder};
use session_config::pipeline::{build_session_config, native_get, transfer_to_host};
use session_config::tolerances::{allowed_clock_skew, validity_limit, Duration,
    ALLOWED_CLOCK_SKEW_SECONDS, VALIDITY_LIMIT_SECONDS};

#[test]
fn tolerance_constants_match_policy_literals() {
    assert_eq!(ALLOWED_CLOCK_SKEW_SECONDS, 93_600);
    assert_eq!(ALLOWED_CLOCK_SKEW_SECONDS, 26 * 60 * 60);
    assert_eq!(VALIDITY_LIMIT_SECONDS, 18_662_400);
    assert_eq!(VALIDITY_LIMIT_SECONDS, 216 * 24 * 60 * 60);
    assert_eq!(allowed_clock_skew().seconds, 93_600);
    assert_eq!(validity_limit().seconds, 18_662_400);
}

#[test]
fn duration_from_seconds_keeps_the_count() {
    assert_eq!(Duration::from_seconds(0).seconds, 0);
    assert_eq!(Duration::from_seconds(93_600).seconds, 93_600);
    assert_eq!(Duration::from_seconds(u64::MAX).seconds, u64::MAX);
}

#[test]
fn certificate_verifier_starts_unconfigured() {
    let verifier = CertificateVerifier::new(SignatureVerifier::new(vec![1, 2, 3]));
    assert_eq!(verifier.signature_verifier.public_keyset, vec![1, 2, 3]);
    assert!(verifier.allowed_clock_skew.is_none());
    assert!(verifier.validity_limit.is_none());
}

#[test]
fn certificate_verifier_setters_configure_tolerances() {
    let mut verifier = CertificateVerifier::new(SignatureVerifier::new(vec![9]));
    verifier.set_allowed_clock_skew(Duration::from_seconds(7));
    verifier.set_validity_limit(Duration::from_seconds(11));
    assert_eq!(verifier.allowed_clock_skew, Some(Duration { seconds: 7 }));
    assert_eq!(verifier.validity_limit, Some(Duration { seconds: 11 }));
    assert_eq!(verifier.signature_verifier.public_keyset, vec![9]);
}

#[test]
fn configured_verifier_carries_the_fixed_tolerances() {
    let verifier = configured_certificate_verifier(vec![4, 5]);
    assert_eq!(verifier.signature_verifier.public_keyset, vec![4, 5]);
    assert_eq!(verifier.allowed_clock_skew, Some(Duration { seconds: 93_600 }));
    assert_eq!(verifier.validity_limit, Some(Duration { seconds: 18_662_400 }));
}

#[test]
fn scheme_identifier_is_the_fixed_string() {
    assert_eq!(certificate_based_attestation_id(), "certificate-based attestation");
}

#[test]
fn attestation_policy_wraps_exactly_one_verifier() {
    let policy = AttestationPolicy::new(configured_certificate_verifier(vec![8]));
    assert_eq!(policy.certificate_verifier.signature_verifier.public_keyset, vec![8]);
}

#[test]
fn attestation_verifier_aggregates_policies_and_clock() {
    let policy = AttestationPolicy::new(configured_certificate_verifier(vec![8]));
    let verifier = AttestationVerifier::new(vec![policy], ClockHandle { id: 3 });
    assert_eq!(verifier.policies.len(), 1);
    assert_eq!(verifier.clock, ClockHandle { id: 3 });
}

#[test]
fn builder_accumulates_verifier_and_publisher() {
    let builder = SessionConfigBuilder::new(
        AttestationType::PeerUnidirectional,
        HandshakeType::NoiseNN,
    );
    assert_eq!(builder.attestation_type, AttestationType::PeerUnidirectional);
    assert_eq!(builder.handshake_type, HandshakeType::NoiseNN);
    assert!(builder.peer_verifiers.is_empty());
    assert!(builder.attestation_publisher.is_none());

    let policy = AttestationPolicy::new(configured_certificate_verifier(vec![1]));
    let verifier = AttestationVerifier::new(vec![policy], ClockHandle { id: 1 });
    let builder = builder.add_peer_verifier_with_key_extractor(
        String::from("certificate-based attestation"),
        verifier,
        KeyExtractor::DefaultBinding,
    );
    assert_eq!(builder.peer_verifiers.len(), 1);
    assert_eq!(builder.peer_verifiers[0].scheme_id, "certificate-based attestation");
    assert_eq!(builder.peer_verifiers[0].key_extractor, KeyExtractor::DefaultBinding);

    let builder = builder.add_attestation_publisher(PublisherHandle { id: 5 });
    assert_eq!(builder.attestation_publisher, Some(PublisherHandle { id: 5 }));
    assert_eq!(builder.peer_verifiers.len(), 1);
}

#[test]
fn assembler_attaches_publisher_iff_supplied() {
    let policy = AttestationPolicy::new(configured_certificate_verifier(vec![1]));
    let verifier = AttestationVerifier::new(vec![policy], ClockHandle { id: 1 });
    let without = assemble_session_config(verifier, None);
    assert!(without.attestation_publisher.is_none());

    let policy = AttestationPolicy::new(configured_certificate_verifier(vec![1]));
    let verifier = AttestationVerifier::new(vec![policy], ClockHandle { id: 1 });
    let with = assemble_session_config(verifier, Some(PublisherHandle { id: 2 }));
    assert_eq!(with.attestation_publisher, Some(PublisherHandle { id: 2 }));

    assert_eq!(without.attestation_type, with.attestation_type);
    assert_eq!(without.handshake_type, with.handshake_type);
    assert_eq!(without.peer_verifiers.len(), with.peer_verifiers.len());
}

#[test]
fn construction_without_publisher_yields_the_fixed_configuration() {
    let handle = native_get(
        Ok(ClockHandle { id: 10 }),
        Ok(vec![1, 2, 3, 4]),
        None,
        Ok(77),
        Ok(78),
    )
    .expect("construction with good inputs must succeed");

    assert_eq!(handle.object_ref, 78);
    let config = &handle.config;
    assert_eq!(config.attestation_type, AttestationType::PeerUnidirectional);
    assert_eq!(config.handshake_type, HandshakeType::NoiseNN);
    assert!(config.attestation_publisher.is_none());
    assert_eq!(config.peer_verifiers.len(), 1);
    let entry = &config.peer_verifiers[0];
    assert_eq!(entry.scheme_id, "certificate-based attestation");
    assert_eq!(entry.key_extractor, KeyExtractor::DefaultBinding);
    assert_eq!(entry.verifier.clock, ClockHandle { id: 10 });
    assert_eq!(entry.verifier.policies.len(), 1);
    let installed = &entry.verifier.policies[0].certificate_verifier;
    assert_eq!(installed.signature_verifier.public_keyset, vec![1, 2, 3, 4]);
    assert_eq!(installed.allowed_clock_skew, Some(Duration { seconds: 93_600 }));
    assert_eq!(installed.validity_limit, Some(Duration { seconds: 18_662_400 }));
}

#[test]
fn construction_with_publisher_differs_only_in_the_publisher() {
    let with = native_get(
        Ok(ClockHandle { id: 10 }),
        Ok(vec![1, 2, 3, 4]),
        Some(Ok(PublisherHandle { id: 9 })),
        Ok(77),
        Ok(78),
    )
    .expect("construction with a bridged publisher must succeed");
    let without = native_get(
        Ok(ClockHandle { id: 10 }),
        Ok(vec![1, 2, 3, 4]),
        None,
        Ok(77),
        Ok(78),
    )
    .expect("construction without a publisher must succeed");

    assert_eq!(with.config.attestation_publisher, Some(PublisherHandle { id: 9 }));
    assert!(without.config.attestation_publisher.is_none());
    assert_eq!(with.config.attestation_type, without.config.attestation_type);
    assert_eq!(with.config.handshake_type, without.config.handshake_type);
    assert_eq!(with.config.peer_verifiers.len(), without.config.peer_verifiers.len());
    assert_eq!(
        with.config.peer_verifiers[0].scheme_id,
        without.config.peer_verifiers[0].scheme_id
    );
    assert_eq!(with.object_ref, without.object_ref);
}

#[test]
fn equivalent_inputs_yield_independent_equivalent_handles() {
    let first = native_get(
        Ok(ClockHandle { id: 1 }),
        Ok(vec![42]),
        Some(Ok(PublisherHandle { id: 2 })),
        Ok(100),
        Ok(101),
    )
    .expect("first construction must succeed");
    let second = native_get(
        Ok(ClockHandle { id: 1 }),
        Ok(vec![42]),
        Some(Ok(PublisherHandle { id: 2 })),
        Ok(100),
        Ok(102),
    )
    .expect("second construction must succeed");

    // Two distinct host objects, one per invocation.
    assert_eq!(first.object_ref, 101);
    assert_eq!(second.object_ref, 102);
    // Identical configuration parameters.
    assert_eq!(first.config.attestation_type, second.config.attestation_type);
    assert_eq!(first.config.handshake_type, second.config.handshake_type);
    assert_eq!(first.config.attestation_publisher, second.config.attestation_publisher);
    assert_eq!(first.config.peer_verifiers.len(), second.config.peer_verifiers.len());
    assert_eq!(
        first.config.peer_verifiers[0].scheme_id,
        second.config.peer_verifiers[0].scheme_id
    );
    assert_eq!(
        first.config.peer_verifiers[0].verifier.policies[0].certificate_verifier
            .signature_verifier.public_keyset,
        second.config.peer_verifiers[0].verifier.policies[0].certificate_verifier
            .signature_verifier.public_keyset
    );
    // No shared mutable state: dropping one leaves the other intact.
    drop(first);
    assert_eq!(second.config.peer_verifiers.len(), 1);
}

#[test]
fn transfer_consumes_the_builder_and_keeps_the_configuration() {
    let builder = build_session_config(Ok(ClockHandle { id: 4 }), Ok(vec![7]), None)
        .expect("pipeline with good inputs must succeed");
    let handle = transfer_to_host(builder, Ok(1), Ok(2))
        .expect("transfer with a cooperative host must succeed");
    assert_eq!(handle.object_ref, 2);
    assert_eq!(handle.config.peer_verifiers.len(), 1);
    assert_eq!(
        handle.config.peer_verifiers[0].verifier.policies[0].certificate_verifier
            .signature_verifier.public_keyset,
        vec![7]
    );
}
