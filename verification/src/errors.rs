use vstd::prelude::*;

verus! {

/// The failures the driver can report. Each one is fatal for its triggering
/// operation: the driver performs no retries and no local recovery.
#[derive(Clone, Copy, Debug, PartialEq, Eq, Structural)]
pub enum TimeError {
    /// The hardware does not expose the capability needed to derive a
    /// cycle-to-time ratio; no reading of the clock can succeed.
    CalibrationUnsupported,
    /// No wake slot is free or reclaimable for a new deadline.
    PoolExhausted,
    /// The firmware rejected event creation or timer arming.
    FirmwareEventError,
}

} // verus!
