use vstd::prelude::*;
use crate::error::Error;
use crate::opengl::features::Features;
use crate::ownership::{check_owner, spec_check_owner};
use vstd::string::StringExecFns;

verus! {

/// How to wait for a fence.
#[derive(Debug, Clone, Copy, PartialEq, Eq, Structural)]
pub enum WaitPlan {
    /// Check the status without blocking.
    Poll,
    /// Block for at most the given number of nanoseconds.
    Wait(i32),
}

/// What a blocking wait on a fence reported.
#[derive(Debug, Clone, Copy, PartialEq, Eq, Structural)]
pub enum WaitOutcome {
    /// The fence was signaled (before or during the wait).
    Signaled,
    /// The timeout expired first.
    TimeoutExpired,
    /// The wait failed.
    Failed,
}

/// Whether presenting a frame creates a fence to wait on: only where the context has
/// fence sync objects.
pub fn present_fence(features: &Features) -> (r: bool)
    ensures
        r == features.fence_sync_objects,
{
    features.fence_sync_objects
}

/// How to wait for a fence with the given timeout: a fence that was not created means
/// that fences are not supported (`UnsupportedFeature`); a zero timeout polls; otherwise
/// the wait blocks for the timeout, clamped to `i32::MAX` nanoseconds.
pub open spec fn spec_wait_plan(has_fence: bool, timeout_nanos: u128) -> Result<WaitPlan, Error> {
    if !has_fence {
        Err(Error::UnsupportedFeature)
    } else if timeout_nanos == 0 {
        Ok(WaitPlan::Poll)
    } else if timeout_nanos > i32::MAX {
        Ok(WaitPlan::Wait(i32::MAX))
    } else {
        Ok(WaitPlan::Wait(timeout_nanos as i32))
    }
}

/// Decides how to wait for a fence.
pub fn wait_plan(has_fence: bool, timeout_nanos: u128) -> (r: Result<WaitPlan, Error>)
    ensures
        r == spec_wait_plan(has_fence, timeout_nanos),
{
    if !has_fence {
        Err(Error::UnsupportedFeature)
    } else if timeout_nanos == 0 {
        Ok(WaitPlan::Poll)
    } else if timeout_nanos > i32::MAX as u128 {
        Ok(WaitPlan::Wait(i32::MAX))
    } else {
        Ok(WaitPlan::Wait(timeout_nanos as i32))
    }
}

/// How to wait, on the context `context`, for a fence made by `owner`: a fence of another
/// context is refused with `InvalidResource`; otherwise as [`wait_plan`].
pub open spec fn spec_wait_owned_plan(context: u64, owner: u64, has_fence: bool, timeout_nanos: u128) -> Result<
    WaitPlan,
    Error,
> {
    match spec_check_owner(context, owner) {
        Err(e) => Err(e),
        Ok(()) => spec_wait_plan(has_fence, timeout_nanos),
    }
}

/// Decides how to wait, on the context `context`, for a fence made by `owner`.
pub fn wait_owned_plan(context: u64, owner: u64, has_fence: bool, timeout_nanos: u128) -> (r: Result<
    WaitPlan,
    Error,
>)
    ensures
        r == spec_wait_owned_plan(context, owner, has_fence, timeout_nanos),
{
    match check_owner(context, owner) {
        Err(e) => Err(e),
        Ok(()) => wait_plan(has_fence, timeout_nanos),
    }
}

/// The result of a blocking wait: whether the fence was reached, or an internal error
/// when the wait failed.
pub fn wait_result(outcome: WaitOutcome) -> (r: Result<bool, Error>)
    ensures
        outcome == WaitOutcome::Signaled ==> r == Ok::<bool, Error>(true),
        outcome == WaitOutcome::TimeoutExpired ==> r == Ok::<bool, Error>(false),
        outcome == WaitOutcome::Failed ==> (r matches Err(Error::Internal(msg)) && msg@
            == "Waiting on a fence failed"@),
{
    match outcome {
        WaitOutcome::Signaled => Ok(true),
        WaitOutcome::TimeoutExpired => Ok(false),
        WaitOutcome::Failed => Err(Error::Internal(String::from_str("Waiting on a fence failed"))),
    }
}


/// Law: waiting for a fence made by another context is refused with `InvalidResource`,
/// whatever the timeout; a fence of the context is waited for as before.
pub proof fn law_foreign_fence_refused(context: u64, owner: u64, has_fence: bool, timeout_nanos: u128)
    ensures
        owner != context ==> spec_wait_owned_plan(context, owner, has_fence, timeout_nanos) == Err::<
            WaitPlan,
            Error,
        >(Error::InvalidResource),
        owner == context ==> spec_wait_owned_plan(context, owner, has_fence, timeout_nanos) == spec_wait_plan(
            has_fence,
            timeout_nanos,
        ),
{
}


/// Law: a context without fences refuses to wait (`UnsupportedFeature`); with a fence, a
/// zero timeout polls, and any other timeout blocks for that long, at most `i32::MAX`
/// nanoseconds, and never for zero.
pub proof fn law_wait_follows_timeout(has_fence: bool, timeout_nanos: u128)
    ensures
        !has_fence ==> spec_wait_plan(has_fence, timeout_nanos) == Err::<WaitPlan, Error>(Error::UnsupportedFeature),
        has_fence && timeout_nanos == 0 ==> spec_wait_plan(has_fence, timeout_nanos) == Ok::<WaitPlan, Error>(
            WaitPlan::Poll,
        ),
        has_fence && timeout_nanos != 0 ==> (spec_wait_plan(has_fence, timeout_nanos) matches Ok(
            WaitPlan::Wait(n),
        ) && 0 < n && n <= timeout_nanos && n <= i32::MAX && (n == timeout_nanos || n == i32::MAX)),
{
}

} // verus!
