use vstd::prelude::*;

verus! {

/// The one status code that means success; every other code is a failure.
pub const STATUS_SUCCESS: u32 = 0;

/// Why a single boundary call did not succeed.
#[derive(Clone, Copy, Debug, PartialEq, Eq, Structural)]
pub enum CallError {
    /// The call was never delivered to the compartment.
    Dispatch(u32),
    /// The compartment ran the operation and it failed there.
    Operation(u32),
    /// A buffer did not follow the encoding agreed by both sides.
    Encoding,
}

/// Checks a call that reports only whether it was delivered.
pub fn check_dispatch(outer: u32) -> (r: Result<(), CallError>)
    ensures
        r == dispatch_result(outer),
{
    if outer == STATUS_SUCCESS {
        Ok(())
    } else {
        Err(CallError::Dispatch(outer))
    }
}

pub open spec fn dispatch_result(outer: u32) -> Result<(), CallError> {
    if outer == STATUS_SUCCESS {
        Ok(())
    } else {
        Err(CallError::Dispatch(outer))
    }
}

/// Checks a call that reports a delivery status and, once delivered, the
/// status of the operation inside the compartment. The inner status is read
/// only when the outer one is a success.
pub fn check_call(outer: u32, inner: u32) -> (r: Result<(), CallError>)
    ensures
        r == call_result(outer, inner),
{
    if outer != STATUS_SUCCESS {
        Err(CallError::Dispatch(outer))
    } else if inner != STATUS_SUCCESS {
        Err(CallError::Operation(inner))
    } else {
        Ok(())
    }
}

pub open spec fn call_result(outer: u32, inner: u32) -> Result<(), CallError> {
    if outer != STATUS_SUCCESS {
        Err(CallError::Dispatch(outer))
    } else if inner != STATUS_SUCCESS {
        Err(CallError::Operation(inner))
    } else {
        Ok(())
    }
}

} // verus!
