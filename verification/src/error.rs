use vstd::prelude::*;

verus! {

/// Failures surfaced by the channel.
///
/// Every fallible driver interaction reports its outcome together with the
/// platform's last-error code, captured at the call site; the code is carried
/// through unchanged.
#[derive(Clone, Copy, Debug, PartialEq, Eq, Structural)]
pub enum ChannelError {
    /// A required native resource (the adapter, or a packet descriptor)
    /// could not be obtained.
    ResourceUnavailable { code: i32 },
    /// A driver call that reports success with a truthy result returned a
    /// falsy one. A malformed receive buffer is reported the same way, with
    /// code 0, since no platform error accompanies it.
    DriverCallFailed { code: i32 },
}

} // verus!
