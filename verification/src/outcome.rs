use vstd::prelude::*;

use crate::error::ProxyError;

verus! {

/// Turns the outcome of the one forwarded call into the result the
/// caller of the entry point sees: success is relayed as success, and a
/// failure signaled by the external program is relayed unchanged, with
/// no retry, suppression or translation of its code.
pub fn complete_forward(outcome: Result<(), u64>) -> (r: Result<(), ProxyError>)
    ensures
        r is Ok <==> outcome is Ok,
        outcome matches Err(code) ==> r == Err::<(), ProxyError>(ProxyError::Forwarded(code)),
{
    match outcome {
        Ok(()) => Ok(()),
        Err(code) => Err(ProxyError::Forwarded(code)),
    }
}

} // verus!
