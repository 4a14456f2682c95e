use vstd::prelude::*;

verus! {

/// Application-layer state of a sub-device, as carried in the low bits of the
/// AL control and AL status words.
#[derive(Clone, Copy, Debug, PartialEq, Eq, Structural)]
pub enum SubDeviceState {
    NoState,
    Init,
    PreOp,
    Bootstrap,
    SafeOp,
    Op,
    /// Any other bit pattern, kept as received.
    Other(u8),
}

/// Failures that end a session. A spurious answer is not among them: it is
/// absorbed where it arrives.
#[derive(Clone, Copy, Debug, PartialEq, Eq, Structural)]
pub enum Error {
    /// A response was malformed, too short, or carried a CoE failure.
    WireCodec,
    /// A sub-device refused a state change.
    StateTransition { target: SubDeviceState, actual: SubDeviceState },
    /// The retries of a PDU were used up without an answer.
    Timeout,
    /// A fixed-capacity container would have overflowed.
    Capacity,
    /// The submission queue did not accept an operation.
    IoSubmit,
    /// The user callback reported a failure.
    UserAbort,
}

} // verus!
