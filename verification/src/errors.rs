use vstd::prelude::*;

verus! {

/// Failure taxonomy surfaced by the real-time control core. The core itself
/// only ever produces `RealTimeViolation`; the remaining variants exist so
/// that collaborators (hardware drivers, the driving loop) can propagate
/// their failures through one uniform type.
#[derive(Debug)]
pub enum Layer0Error {
    /// Setup of an underlying hardware resource failed; the reason is
    /// carried through unchanged.
    HardwareInitFailed(String),
    /// A completed cycle exceeded its deadline. Both quantities are in
    /// microseconds: the deadline that was expected and the delay that was
    /// actually measured.
    RealTimeViolation { expected_us: u64, actual_us: u64 },
    /// No valid sensor sample exists yet.
    SensorDataUnavailable,
    /// Catch-all for caller-level control-loop failures outside this core.
    ControlLoopError(String),
}

} // verus!
