use vstd::prelude::*;

verus! {

/// Why an invocation failed. All three kinds abort the invocation; none is
/// caught or downgraded inside this crate.
#[derive(Clone, Copy, PartialEq, Eq, Debug)]
pub enum ProxyError {
    /// A required signer did not sign; nothing was forwarded.
    Authorization,
    /// A declared account is missing a required capability or is of the
    /// wrong kind; nothing was forwarded.
    AccountShape,
    /// The external program failed during the forwarded call; its error
    /// code is relayed unchanged.
    Forwarded(u64),
}

} // verus!
