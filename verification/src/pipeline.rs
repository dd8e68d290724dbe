//! The construction pipeline and the boundary crossing.
//!
//! Every step that calls back into the host environment (bridging the clock,
//! converting the key material, bridging the publisher, locating the host
//! container class, constructing the host object) is represented by the
//! outcome the host handed back: a value on success, the description of the
//! failure otherwise. The pipeline itself is then a pure decision function
//! over those outcomes, verified for every combination of them; the host
//! calls themselves are made by the unverified boundary layer that drives
//! this module.

use vstd::prelude::*;
use crate::attestation::AttestationPolicy;
use crate::attestation::AttestationVerifier;
use crate::attestation::ClockHandle;
use crate::attestation::PublisherHandle;
use crate::certificate::configured_certificate_verifier;
use crate::certificate::spec_configured_verifier;
use crate::attestation::AttestationVerifierView;
use crate::config::assemble_session_config;
use crate::config::spec_assembled_config;
use crate::config::SessionConfigBuilder;
use crate::config::SessionConfigView;
use crate::outcome::spec_reconcile_failure;
use crate::outcome::BuildError;
use crate::outcome::BuildErrorView;
use crate::outcome::BuildStage;
use crate::outcome::ExceptionCheck;
use crate::outcome::ThrowAction;
use crate::outcome::ExceptionCheckView;
use crate::outcome::ThrowActionView;

verus! {

/// The outcome of bridging the host clock, as the pipeline sees it.
pub open spec fn spec_clock_event(e: Result<ClockHandle, String>) -> Result<
    ClockHandle,
    Seq<char>,
> {
    match e {
        Ok(clock) => Ok(clock),
        Err(detail) => Err(detail@),
    }
}

/// The outcome of converting the raw key material, as the pipeline sees it.
pub open spec fn spec_key_event(e: Result<Vec<u8>, String>) -> Result<Seq<u8>, Seq<char>> {
    match e {
        Ok(keyset) => Ok(keyset@),
        Err(detail) => Err(detail@),
    }
}

/// The outcome of bridging the optional publisher, as the pipeline sees it.
pub open spec fn spec_publisher_event(e: Option<Result<PublisherHandle, String>>) -> Option<
    Result<PublisherHandle, Seq<char>>,
> {
    match e {
        None => None,
        Some(Ok(publisher)) => Some(Ok(publisher)),
        Some(Err(detail)) => Some(Err(detail@)),
    }
}

/// The outcome of a host call that yields an object or class reference, as
/// the pipeline sees it.
pub open spec fn spec_host_ref_event(e: Result<u64, String>) -> Result<u64, Seq<char>> {
    match e {
        Ok(reference) => Ok(reference),
        Err(detail) => Err(detail@),
    }
}

/// A configuration result, by its mathematical content.
pub open spec fn spec_config_result(r: Result<SessionConfigBuilder, BuildError>) -> Result<
    SessionConfigView,
    BuildErrorView,
> {
    match r {
        Ok(builder) => Ok(builder@),
        Err(error) => Err(error@),
    }
}

/// The attestation verifier the pipeline builds for given key material and
/// clock: a single binding-key policy over the configured certificate
/// verifier, sharing the host clock bridge.
pub open spec fn spec_attestation_verifier(
    public_keyset: Seq<u8>,
    clock: ClockHandle,
) -> AttestationVerifierView {
    AttestationVerifierView { policies: seq![spec_configured_verifier(public_keyset)], clock }
}

/// What the construction pipeline produces for each combination of host-call
/// outcomes, in pipeline order: a failed clock bridge wins over everything,
/// then a failed key-material conversion, then a failed publisher bridge;
/// with all of them good, the assembled configuration, publisher attached if
/// and only if one was supplied.
pub open spec fn spec_build_session_config(
    clock_bridge: Result<ClockHandle, Seq<char>>,
    key_material: Result<Seq<u8>, Seq<char>>,
    publisher_bridge: Option<Result<PublisherHandle, Seq<char>>>,
) -> Result<SessionConfigView, BuildErrorView> {
    match clock_bridge {
        Err(detail) => Err(BuildErrorView { stage: BuildStage::ClockBridge, detail }),
        Ok(clock) => match key_material {
            Err(detail) => Err(BuildErrorView { stage: BuildStage::KeyMaterialConversion, detail }),
            Ok(public_keyset) => match publisher_bridge {
                Some(Err(detail)) => Err(
                    (BuildErrorView { stage: BuildStage::PublisherBridge, detail }),
                ),
                None => Ok(
                    spec_assembled_config(spec_attestation_verifier(public_keyset, clock), None),
                ),
                Some(Ok(publisher)) => Ok(
                    spec_assembled_config(
                        spec_attestation_verifier(public_keyset, clock),
                        Some(publisher),
                    ),
                ),
            },
        },
    }
}

/// Runs the construction pipeline on the host-call outcomes: certificate
/// verifier with the fixed tolerances, binding-key policy, attestation
/// verifier with the clock bridge, assembled session configuration with the
/// publisher attached if and only if one was supplied. Fails exactly when one
/// of the bridging steps failed, with the first failure in pipeline order,
/// wrapped under the stage it came from.
pub fn build_session_config(
    clock_bridge: Result<ClockHandle, String>,
    key_material: Result<Vec<u8>, String>,
    publisher_bridge: Option<Result<PublisherHandle, String>>,
) -> (r: Result<SessionConfigBuilder, BuildError>)
    ensures
        spec_config_result(r) == spec_build_session_config(
            spec_clock_event(clock_bridge),
            spec_key_event(key_material),
            spec_publisher_event(publisher_bridge),
        ),
{
    let clock = match clock_bridge {
        Ok(clock) => clock,
        Err(detail) => {
            return Err(BuildError::new(BuildStage::ClockBridge, detail));
        },
    };
    let public_keyset = match key_material {
        Ok(keyset) => keyset,
        Err(detail) => {
            return Err(BuildError::new(BuildStage::KeyMaterialConversion, detail));
        },
    };
    let publisher: Option<PublisherHandle> = match publisher_bridge {
        None => None,
        Some(Ok(publisher)) => Some(publisher),
        Some(Err(detail)) => {
            return Err(BuildError::new(BuildStage::PublisherBridge, detail));
        },
    };
    let ghost keyset_view = public_keyset@;
    let certificate_verifier = configured_certificate_verifier(public_keyset);
    let policy = AttestationPolicy::new(certificate_verifier);
    let mut policies: Vec<AttestationPolicy> = Vec::new();
    policies.push(policy);
    let attestation_verifier = AttestationVerifier::new(policies, clock);
    proof {
        assert(attestation_verifier@.policies =~= seq![spec_configured_verifier(keyset_view)]);
    }
    Ok(assemble_session_config(attestation_verifier, publisher))
}

/// The mathematical content of a [`HostHandle`].
pub struct HostHandleView {
    pub object_ref: u64,
    pub config: SessionConfigView,
}

/// The result of the boundary transfer: the host-managed container object,
/// identified by the reference the host handed back, wrapping the finished
/// configuration as an opaque native value. Constructing the handle consumes
/// the builder, so the native side can never retain a second reference to a
/// transferred configuration, and a double transfer is not expressible.
#[derive(Debug)]
pub struct HostHandle {
    pub object_ref: u64,
    pub config: SessionConfigBuilder,
}

impl View for HostHandle {
    type V = HostHandleView;

    open spec fn view(&self) -> HostHandleView {
        HostHandleView { object_ref: self.object_ref, config: self.config@ }
    }
}

/// A handle result, by its mathematical content.
pub open spec fn spec_handle_result(r: Result<HostHandle, BuildError>) -> Result<
    HostHandleView,
    BuildErrorView,
> {
    match r {
        Ok(handle) => Ok(handle@),
        Err(error) => Err(error@),
    }
}

/// What the boundary transfer produces: the class lookup must succeed, then
/// the construction of the host object; the handle then carries exactly the
/// configuration that was transferred.
pub open spec fn spec_transfer(
    config: SessionConfigView,
    class_lookup: Result<u64, Seq<char>>,
    object_creation: Result<u64, Seq<char>>,
) -> Result<HostHandleView, BuildErrorView> {
    match class_lookup {
        Err(detail) => Err(BuildErrorView { stage: BuildStage::HostClassLookup, detail }),
        Ok(_class_ref) => match object_creation {
            Err(detail) => Err(BuildErrorView { stage: BuildStage::HandleConstruction, detail }),
            Ok(object_ref) => Ok(HostHandleView { object_ref, config }),
        },
    }
}

/// Moves the finished builder across the host boundary. The builder is
/// consumed: semantic ownership passes to the host-managed container at the
/// moment the handle exists, and the handle carries the configuration
/// unchanged. Fails under the class-lookup stage when the host could not
/// locate the container class, and under the handle-construction stage when
/// the host could not construct the wrapper object.
pub fn transfer_to_host(
    builder: SessionConfigBuilder,
    class_lookup: Result<u64, String>,
    object_creation: Result<u64, String>,
) -> (r: Result<HostHandle, BuildError>)
    ensures
        spec_handle_result(r) == spec_transfer(
            builder@,
            spec_host_ref_event(class_lookup),
            spec_host_ref_event(object_creation),
        ),
{
    let _class_ref = match class_lookup {
        Ok(class_ref) => class_ref,
        Err(detail) => {
            return Err(BuildError::new(BuildStage::HostClassLookup, detail));
        },
    };
    let object_ref = match object_creation {
        Ok(object_ref) => object_ref,
        Err(detail) => {
            return Err(BuildError::new(BuildStage::HandleConstruction, detail));
        },
    };
    Ok(HostHandle { object_ref, config: builder })
}

/// The whole native operation, from host-call outcomes to a handle or the
/// first failure in pipeline order.
pub open spec fn spec_native_get(
    clock_bridge: Result<ClockHandle, Seq<char>>,
    key_material: Result<Seq<u8>, Seq<char>>,
    publisher_bridge: Option<Result<PublisherHandle, Seq<char>>>,
    class_lookup: Result<u64, Seq<char>>,
    object_creation: Result<u64, Seq<char>>,
) -> Result<HostHandleView, BuildErrorView> {
    match spec_build_session_config(clock_bridge, key_material, publisher_bridge) {
        Err(error) => Err(error),
        Ok(config) => spec_transfer(config, class_lookup, object_creation),
    }
}

/// Runs the construction pipeline and, on success, the boundary transfer.
/// Deterministic in the host-call outcomes: two invocations on equal
/// outcomes produce equal results, and each success is an independent handle
/// owning its own configuration.
pub fn native_get(
    clock_bridge: Result<ClockHandle, String>,
    key_material: Result<Vec<u8>, String>,
    publisher_bridge: Option<Result<PublisherHandle, String>>,
    class_lookup: Result<u64, String>,
    object_creation: Result<u64, String>,
) -> (r: Result<HostHandle, BuildError>)
    ensures
        spec_handle_result(r) == spec_native_get(
            spec_clock_event(clock_bridge),
            spec_key_event(key_material),
            spec_publisher_event(publisher_bridge),
            spec_host_ref_event(class_lookup),
            spec_host_ref_event(object_creation),
        ),
{
    let builder = match build_session_config(clock_bridge, key_material, publisher_bridge) {
        Ok(builder) => builder,
        Err(error) => {
            return Err(error);
        },
    };
    transfer_to_host(builder, class_lookup, object_creation)
}

/// What the caller is handed at the very end: on success the handle and no
/// exception-raising action; on failure no handle, paired with the one
/// action the reconciliation rule picks. "No handle returned" together with
/// the exception state is the joint failure signal.
pub open spec fn spec_finish_native_get(
    result: Result<HostHandleView, BuildErrorView>,
    check: ExceptionCheckView,
) -> (Option<HostHandleView>, ThrowActionView) {
    match result {
        Ok(handle) => (Some(handle), ThrowActionView::TakeNoAction),
        Err(error) => (None, spec_reconcile_failure(error, check)),
    }
}

/// A finished request, by its mathematical content.
pub open spec fn spec_finished(r: (Option<HostHandle>, ThrowAction)) -> (
    Option<HostHandleView>,
    ThrowActionView,
) {
    (
        match r.0 {
            Some(handle) => Some(handle@),
            None => None,
        },
        r.1@,
    )
}

/// Completes a request at the outer boundary. On success the handle is
/// returned and no exception is raised, whatever the check said; on failure
/// no handle is returned and the pending-exception check decides the one
/// visible error: a pending host exception propagates unchanged, otherwise
/// the native failure is raised, and a failed check is raised as itself.
pub fn finish_native_get(result: Result<HostHandle, BuildError>, check: ExceptionCheck) -> (r: (
    Option<HostHandle>,
    ThrowAction,
))
    ensures
        spec_finished(r) == spec_finish_native_get(spec_handle_result(result), check@),
{
    match result {
        Ok(handle) => (Some(handle), ThrowAction::TakeNoAction),
        Err(error) => (None, crate::outcome::reconcile_failure(error, check)),
    }
}

} // verus!
