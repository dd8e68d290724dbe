//! The two failure domains and their reconciliation.
//!
//! A construction request can fail because a native step returned an error,
//! or because a callback into the host already raised a host-level exception.
//! The two must not be collapsed: raising a new exception while one is
//! already pending would mask the true underlying host-side error. The rule,
//! applied once at the outer boundary, is: a pending host exception is
//! authoritative and propagates unchanged; otherwise the native error is
//! raised; and if even checking for a pending exception fails, that
//! meta-failure is raised instead.

use vstd::prelude::*;
use vstd::string::StringExecFns;

verus! {

/// The pipeline step a native failure came from. The stage is part of the
/// error so the host-visible message names what was being constructed, not a
/// generic fallback.
#[derive(Clone, Copy, PartialEq, Eq, Structural, Debug)]
pub enum BuildStage {
    /// Bridging the host clock object to the native time interface.
    ClockBridge,
    /// Converting the raw public key material handed in by the host.
    KeyMaterialConversion,
    /// Bridging the host publisher object to the native publisher interface.
    PublisherBridge,
    /// Locating the host-side container class for the finished builder.
    HostClassLookup,
    /// Constructing the host-managed object that wraps the opaque handle.
    HandleConstruction,
}

/// The mathematical content of a [`BuildError`].
pub struct BuildErrorView {
    pub stage: BuildStage,
    pub detail: Seq<char>,
}

/// A native construction failure: the stage that failed, with the
/// description of the underlying error it wraps.
#[derive(Clone, PartialEq, Eq, Debug)]
pub struct BuildError {
    pub stage: BuildStage,
    pub detail: String,
}

impl View for BuildError {
    type V = BuildErrorView;

    open spec fn view(&self) -> BuildErrorView {
        BuildErrorView { stage: self.stage, detail: self.detail@ }
    }
}

impl BuildError {
    /// An error of the given stage wrapping the given underlying detail.
    pub fn new(stage: BuildStage, detail: String) -> (e: BuildError)
        ensures
            e@.stage == stage,
            e@.detail == detail@,
    {
        BuildError { stage, detail }
    }

    /// Renders the failure for the host: the stage's context prefix followed
    /// by the wrapped detail.
    pub fn message(&self) -> (m: String)
        ensures
            m@ == spec_error_message(self@),
    {
        let mut m = String::from_str(self.stage.context());
        m.append(self.detail.as_str());
        m
    }
}

/// The context prefix of the host-visible message for each stage: what was
/// being constructed when the failure happened.
pub open spec fn spec_stage_context(stage: BuildStage) -> Seq<char> {
    match stage {
        BuildStage::ClockBridge => "Failed to create JNIClock: "@,
        BuildStage::KeyMaterialConversion => "Failed to convert byte array: "@,
        BuildStage::PublisherBridge => "Failed to create the attestation publisher bridge: "@,
        BuildStage::HostClassLookup => "Failed to find class: "@,
        BuildStage::HandleConstruction => "Failed to create object: "@,
    }
}

impl BuildStage {
    /// The context prefix naming what was being constructed.
    pub fn context(self) -> (s: &'static str)
        ensures
            s@ == spec_stage_context(self),
    {
        match self {
            BuildStage::ClockBridge => "Failed to create JNIClock: ",
            BuildStage::KeyMaterialConversion => "Failed to convert byte array: ",
            BuildStage::PublisherBridge => "Failed to create the attestation publisher bridge: ",
            BuildStage::HostClassLookup => "Failed to find class: ",
            BuildStage::HandleConstruction => "Failed to create object: ",
        }
    }
}

/// The host-visible message of a native failure: the stage's context prefix
/// followed by the wrapped detail.
pub open spec fn spec_error_message(error: BuildErrorView) -> Seq<char> {
    spec_stage_context(error.stage) + error.detail
}

/// The mathematical content of an [`ExceptionCheck`].
pub enum ExceptionCheckView {
    Pending,
    NotPending,
    CheckFailed(Seq<char>),
}

/// What asking the host "is an exception already pending?" came back with.
pub enum ExceptionCheck {
    /// A host exception is pending; it is authoritative.
    Pending,
    /// No host exception is pending.
    NotPending,
    /// The check itself failed, with the description of that failure.
    CheckFailed(String),
}

impl View for ExceptionCheck {
    type V = ExceptionCheckView;

    open spec fn view(&self) -> ExceptionCheckView {
        match self {
            ExceptionCheck::Pending => ExceptionCheckView::Pending,
            ExceptionCheck::NotPending => ExceptionCheckView::NotPending,
            ExceptionCheck::CheckFailed(d) => ExceptionCheckView::CheckFailed(d@),
        }
    }
}

/// The mathematical content of a [`ThrowAction`].
pub enum ThrowActionView {
    TakeNoAction,
    RaiseBuildError(BuildErrorView),
    RaiseCheckFailure(Seq<char>),
}

/// The one host-visible action the boundary takes on a failed request.
pub enum ThrowAction {
    /// Raise nothing: the exception already pending remains the visible one.
    TakeNoAction,
    /// Raise a host-level exception describing the native failure.
    RaiseBuildError(BuildError),
    /// Raise a host-level exception describing the failure to check for a
    /// pending exception; the underlying cause may be partially lost.
    RaiseCheckFailure(String),
}

impl View for ThrowAction {
    type V = ThrowActionView;

    open spec fn view(&self) -> ThrowActionView {
        match self {
            ThrowAction::TakeNoAction => ThrowActionView::TakeNoAction,
            ThrowAction::RaiseBuildError(e) => ThrowActionView::RaiseBuildError(e@),
            ThrowAction::RaiseCheckFailure(d) => ThrowActionView::RaiseCheckFailure(d@),
        }
    }
}

/// The host-visible message of a failed pending-exception check.
pub open spec fn spec_check_failure_message(detail: Seq<char>) -> Seq<char> {
    "Failed to check exception: "@ + detail
}

/// The message the action raises towards the host, if it raises one:
/// nothing for a preserved exception, the stage-prefixed native failure, or
/// the description of the failed pending-exception check.
pub open spec fn spec_action_message(action: ThrowActionView) -> Option<Seq<char>> {
    match action {
        ThrowActionView::TakeNoAction => None,
        ThrowActionView::RaiseBuildError(error) => Some(spec_error_message(error)),
        ThrowActionView::RaiseCheckFailure(detail) => Some(spec_check_failure_message(detail)),
    }
}

impl ThrowAction {
    /// The message this action raises towards the host, if it raises one.
    pub fn message(&self) -> (m: Option<String>)
        ensures
            (match m {
                None => spec_action_message(self@) is None,
                Some(rendered) => spec_action_message(self@) == Some(rendered@),
            }),
    {
        match self {
            ThrowAction::TakeNoAction => None,
            ThrowAction::RaiseBuildError(error) => Some(error.message()),
            ThrowAction::RaiseCheckFailure(detail) => {
                let mut m = String::from_str("Failed to check exception: ");
                m.append(detail.as_str());
                Some(m)
            },
        }
    }
}

/// The reconciliation rule: a pending host exception wins; otherwise the
/// native error is raised; a failed check is reported as itself.
pub open spec fn spec_reconcile_failure(error: BuildErrorView, check: ExceptionCheckView)
    -> ThrowActionView {
    match check {
        ExceptionCheckView::Pending => ThrowActionView::TakeNoAction,
        ExceptionCheckView::NotPending => ThrowActionView::RaiseBuildError(error),
        ExceptionCheckView::CheckFailed(d) => ThrowActionView::RaiseCheckFailure(d),
    }
}

/// Whether the action raises a new host-level exception.
pub open spec fn spec_raises(action: ThrowActionView) -> bool {
    !(action is TakeNoAction)
}

/// How many exceptions the caller can see after the boundary acts: one that
/// was already pending before, plus one newly raised, if any.
pub open spec fn spec_exceptions_visible(pending_before: bool, action: ThrowActionView) -> nat {
    (if pending_before {
        1nat
    } else {
        0nat
    }) + (if spec_raises(action) {
        1nat
    } else {
        0nat
    })
}

/// Decides the one host-visible action for a failed construction request,
/// given the native error and the outcome of the pending-exception check.
pub fn reconcile_failure(error: BuildError, check: ExceptionCheck) -> (action: ThrowAction)
    ensures
        action@ == spec_reconcile_failure(error@, check@),
{
    match check {
        ExceptionCheck::Pending => ThrowAction::TakeNoAction,
        ExceptionCheck::NotPending => ThrowAction::RaiseBuildError(error),
        ExceptionCheck::CheckFailed(detail) => ThrowAction::RaiseCheckFailure(detail),
    }
}

} // verus!
