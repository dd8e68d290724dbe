//! The host boundary of the failure path: asking the host environment
//! whether an exception is already pending, and raising one when the
//! reconciliation rule says so.
//!
//! Only the two calls into the host runtime are taken on trust; everything
//! around them — interpreting the check's outcome, picking the action,
//! rendering the message — is verified.

use vstd::prelude::*;
use crate::outcome::reconcile_failure;
use crate::outcome::spec_reconcile_failure;
use crate::outcome::BuildError;
use crate::outcome::ExceptionCheck;
use crate::outcome::ExceptionCheckView;
use crate::outcome::ThrowAction;

verus! {

/// Declares jni's `JNIEnv`, the handle to the host runtime, so that it can
/// stand in verified signatures. The type stays opaque: only the trusted
/// calls below touch it.
#[verifier::external_type_specification]
#[verifier::external_body]
pub struct ExJNIEnv<'local>(jni::JNIEnv<'local>);

/// Relies on jni's `JNIEnv::exception_check`: reports whether a Java
/// exception is in the process of being thrown in the host environment. The
/// error, if any, is rendered as its debug description.
#[verifier::external_body]
fn exception_check_raw(env: &mut jni::JNIEnv) -> (r: Result<bool, String>) {
    env.exception_check().map_err(|e| format!("{e:?}"))
}

/// Relies on jni's `JNIEnv::throw_new`: creates and throws a new Java
/// exception of the named class carrying the given message. The error, if
/// any, is rendered as its debug description.
#[verifier::external_body]
fn throw_new_raw(env: &mut jni::JNIEnv, class: &str, message: &str) -> (r: Result<(), String>) {
    env.throw_new(class, message).map_err(|e| format!("{e:?}"))
}

/// The Java class under which native failures surface to the host.
pub fn runtime_exception_class() -> (c: &'static str)
    ensures
        c@ == "java/lang/RuntimeException"@,
{
    "java/lang/RuntimeException"
}

/// Interprets what the pending-exception check came back with: a pending
/// exception, none pending, or the check's own failure.
pub fn interpret_exception_check(outcome: Result<bool, String>) -> (check: ExceptionCheck)
    ensures
        check@ == (match outcome {
            Ok(true) => ExceptionCheckView::Pending,
            Ok(false) => ExceptionCheckView::NotPending,
            Err(detail) => ExceptionCheckView::CheckFailed(detail@),
        }),
{
    match outcome {
        Ok(true) => ExceptionCheck::Pending,
        Ok(false) => ExceptionCheck::NotPending,
        Err(detail) => ExceptionCheck::CheckFailed(detail),
    }
}

/// Runs the failure path of a construction request at the host boundary:
/// asks the host whether an exception is already pending, applies the
/// reconciliation rule to the answer, and raises the resulting exception, if
/// any, as a `java.lang.RuntimeException`.
///
/// The returned action is always the reconciliation rule applied to what the
/// check came back with — in particular, the only native error it can ever
/// raise is the one passed in, and a pending host exception is left alone.
/// An `Err` means the host refused the throw itself; the caller decides how
/// to give up, as nothing can surface the failure to the host any more.
pub fn raise_failure<'local>(env: &mut jni::JNIEnv<'local>, error: BuildError) -> (r: Result<
    ThrowAction,
    String,
>)
    ensures
        (match r {
            Ok(action) => exists|check: ExceptionCheckView|
                action@ == spec_reconcile_failure(error@, check),
            Err(_) => true,
        }),
{
    let outcome = exception_check_raw(env);
    let check = interpret_exception_check(outcome);
    let ghost check_view = check@;
    let ghost error_view = error@;
    let action = reconcile_failure(error, check);
    let rendered = action.message();
    match rendered {
        None => {},
        Some(message) => {
            match throw_new_raw(env, runtime_exception_class(), message.as_str()) {
                Ok(()) => {},
                Err(detail) => {
                    return Err(detail);
                },
            }
        },
    }
    proof {
        assert(action@ == spec_reconcile_failure(error_view, check_view));
    }
    Ok(action)
}

} // verus!
