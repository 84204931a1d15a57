use vstd::prelude::*;

verus! {

/// Failure kinds reported by the agent.
///
/// `ValueNotOfExpectedType` carries a short description of the runtime object
/// that was absent or null where a value was required (for example the
/// dispatcher class missing from the cache, or no active runtime instance).
#[derive(Clone, Copy, Debug)]
pub enum Error {
    /// A required runtime object was absent or null where a value was required.
    ValueNotOfExpectedType(&'static str),
    /// The underlying attach, call or marshal operation reported failure.
    NativeCallFailure,
    /// The runtime instrumentation interface rejected a capability or
    /// operation request.
    InstrumentationFailure,
    /// Side-channel persistence (or another byte-level transfer) failed.
    IOFailure,
}

} // verus!
