//! The guarantees of the construction pipeline and the boundary, stated as
//! proved laws over the pipeline's mathematical model.

use vstd::prelude::*;
use crate::attestation::ClockHandle;
use crate::attestation::PublisherHandle;
use crate::certificate::spec_configured_verifier;
use crate::config::spec_certificate_based_attestation_id;
use crate::config::AttestationType;
use crate::config::HandshakeType;
use crate::config::KeyExtractor;
use crate::outcome::spec_exceptions_visible;
use crate::outcome::spec_raises;
use crate::outcome::BuildErrorView;
use crate::outcome::BuildStage;
use crate::outcome::ExceptionCheckView;
use crate::outcome::ThrowActionView;
use crate::pipeline::spec_finish_native_get;
use crate::pipeline::spec_native_get;
use crate::tolerances::Duration;
use crate::tolerances::ALLOWED_CLOCK_SKEW_SECONDS;
use crate::tolerances::VALIDITY_LIMIT_SECONDS;

verus! {

/// With good key material, a good clock bridge and no publisher supplied,
/// construction succeeds: the caller is handed exactly one handle and no
/// exception, and the configuration carries the fixed constants — peer
/// unidirectional attestation, the ephemeral-ephemeral Noise handshake, one
/// verifier under the certificate-based scheme identifier with the default
/// binding-key extraction and the fixed tolerances, and no publisher.
pub proof fn lemma_construction_without_publisher(
    clock: ClockHandle,
    public_keyset: Seq<u8>,
    class_ref: u64,
    object_ref: u64,
    check: ExceptionCheckView,
)
    ensures
        ({
            let r = spec_native_get(
                Ok(clock),
                Ok(public_keyset),
                None,
                Ok(class_ref),
                Ok(object_ref),
            );
            &&& r is Ok
            &&& r->Ok_0.object_ref == object_ref
            &&& r->Ok_0.config.attestation_type == AttestationType::PeerUnidirectional
            &&& r->Ok_0.config.handshake_type == HandshakeType::NoiseNN
            &&& r->Ok_0.config.peer_verifiers.len() == 1
            &&& r->Ok_0.config.peer_verifiers[0].scheme_id
                == spec_certificate_based_attestation_id()
            &&& r->Ok_0.config.peer_verifiers[0].key_extractor == KeyExtractor::DefaultBinding
            &&& r->Ok_0.config.peer_verifiers[0].verifier.clock == clock
            &&& r->Ok_0.config.peer_verifiers[0].verifier.policies == seq![
                spec_configured_verifier(public_keyset),
            ]
            &&& r->Ok_0.config.attestation_publisher is None
            &&& spec_finish_native_get(r, check) == (Some(r->Ok_0), ThrowActionView::TakeNoAction)
        }),
{
}

/// With a publisher supplied and successfully bridged, construction succeeds
/// and the result is observably different from the no-publisher case in the
/// attached publisher alone: every other parameter of the configuration is
/// identical.
pub proof fn lemma_construction_with_publisher(
    clock: ClockHandle,
    public_keyset: Seq<u8>,
    publisher: PublisherHandle,
    class_ref: u64,
    object_ref: u64,
)
    ensures
        ({
            let with_publisher = spec_native_get(
                Ok(clock),
                Ok(public_keyset),
                Some(Ok(publisher)),
                Ok(class_ref),
                Ok(object_ref),
            );
            let without_publisher = spec_native_get(
                Ok(clock),
                Ok(public_keyset),
                None,
                Ok(class_ref),
                Ok(object_ref),
            );
            &&& with_publisher is Ok
            &&& without_publisher is Ok
            &&& with_publisher->Ok_0.config.attestation_publisher == Some(publisher)
            &&& without_publisher->Ok_0.config.attestation_publisher is None
            &&& with_publisher->Ok_0.config.attestation_type
                == without_publisher->Ok_0.config.attestation_type
            &&& with_publisher->Ok_0.config.handshake_type
                == without_publisher->Ok_0.config.handshake_type
            &&& with_publisher->Ok_0.config.peer_verifiers
                == without_publisher->Ok_0.config.peer_verifiers
            &&& with_publisher->Ok_0.object_ref == without_publisher->Ok_0.object_ref
        }),
{
}

/// The fixed tolerances installed in every configuration are exactly 93,600
/// seconds of allowed clock skew (26 hours) and exactly 18,662,400 seconds of
/// validity limit (216 days).
pub proof fn lemma_fixed_tolerances(public_keyset: Seq<u8>)
    ensures
        ALLOWED_CLOCK_SKEW_SECONDS == 93600,
        VALIDITY_LIMIT_SECONDS == 18662400,
        spec_configured_verifier(public_keyset).allowed_clock_skew == Some(
            Duration { seconds: 93600 },
        ),
        spec_configured_verifier(public_keyset).validity_limit == Some(
            Duration { seconds: 18662400 },
        ),
{
}

/// When the clock bridge fails, the whole operation fails with that failure,
/// whatever the other host calls came back with; and with no host exception
/// already pending, the caller gets no handle and sees exactly one
/// exception: the clock-bridge failure, raised once.
pub proof fn lemma_clock_bridge_failure(
    detail: Seq<char>,
    key_material: Result<Seq<u8>, Seq<char>>,
    publisher_bridge: Option<Result<PublisherHandle, Seq<char>>>,
    class_lookup: Result<u64, Seq<char>>,
    object_creation: Result<u64, Seq<char>>,
)
    ensures
        ({
            let r = spec_native_get(
                Err(detail),
                key_material,
                publisher_bridge,
                class_lookup,
                object_creation,
            );
            let error = BuildErrorView { stage: BuildStage::ClockBridge, detail };
            let finished = spec_finish_native_get(r, ExceptionCheckView::NotPending);
            &&& r == Err::<crate::pipeline::HostHandleView, BuildErrorView>(error)
            &&& finished.0 is None
            &&& finished.1 == ThrowActionView::RaiseBuildError(error)
            &&& spec_exceptions_visible(false, finished.1) == 1
        }),
{
}

/// When the publisher bridge fails (everything before it having succeeded),
/// the caller gets no handle, and the exception raised is exactly the
/// publisher-bridging failure with its own description — not a generic
/// fallback, and not one of the other stages.
pub proof fn lemma_publisher_bridge_failure(
    clock: ClockHandle,
    public_keyset: Seq<u8>,
    detail: Seq<char>,
    class_lookup: Result<u64, Seq<char>>,
    object_creation: Result<u64, Seq<char>>,
)
    ensures
        ({
            let r = spec_native_get(
                Ok(clock),
                Ok(public_keyset),
                Some(Err(detail)),
                class_lookup,
                object_creation,
            );
            let error = BuildErrorView { stage: BuildStage::PublisherBridge, detail };
            let finished = spec_finish_native_get(r, ExceptionCheckView::NotPending);
            &&& r == Err::<crate::pipeline::HostHandleView, BuildErrorView>(error)
            &&& finished.0 is None
            &&& finished.1 == ThrowActionView::RaiseBuildError(error)
            &&& spec_exceptions_visible(false, finished.1) == 1
        }),
{
}

/// When a callback into the host has already raised an exception, a failed
/// operation hands back no handle and takes no action of its own: nothing
/// new is raised, so the host's original exception remains the one visible
/// to the caller, unreplaced.
pub proof fn lemma_pending_host_exception_preserved(error: BuildErrorView)
    ensures
        ({
            let finished = spec_finish_native_get(
                Err(error),
                ExceptionCheckView::Pending,
            );
            &&& finished.0 is None
            &&& finished.1 == ThrowActionView::TakeNoAction
            &&& !spec_raises(finished.1)
            &&& spec_exceptions_visible(true, finished.1) == 1
        }),
{
}

/// Construction is deterministic in its inputs: two invocations on
/// equivalent key material, clock and publisher yield two handles —
/// independent, each wrapping its own host object reference — whose
/// configuration parameters are identical.
pub proof fn lemma_equivalent_inputs_equivalent_configs(
    clock: ClockHandle,
    public_keyset: Seq<u8>,
    publisher: Option<PublisherHandle>,
    first_class_ref: u64,
    first_object_ref: u64,
    second_class_ref: u64,
    second_object_ref: u64,
)
    ensures
        ({
            let publisher_bridge = match publisher {
                None => None,
                Some(p) => Some(Ok(p)),
            };
            let first = spec_native_get(
                Ok(clock),
                Ok(public_keyset),
                publisher_bridge,
                Ok(first_class_ref),
                Ok(first_object_ref),
            );
            let second = spec_native_get(
                Ok(clock),
                Ok(public_keyset),
                publisher_bridge,
                Ok(second_class_ref),
                Ok(second_object_ref),
            );
            &&& first is Ok
            &&& second is Ok
            &&& first->Ok_0.config == second->Ok_0.config
            &&& first->Ok_0.object_ref == first_object_ref
            &&& second->Ok_0.object_ref == second_object_ref
        }),
{
}

} // verus!

