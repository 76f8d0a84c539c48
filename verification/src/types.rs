//! Device categories and the error vocabulary shared by all drivers.

use vstd::prelude::*;

verus! {

/// The closed set of device categories this layer knows about.
///
/// A category that is not enabled in the build configuration has no
/// container in the aggregate device set; the tag itself always exists.
#[derive(Clone, Copy, Debug, PartialEq, Eq, Structural)]
pub enum DeviceType {
    /// Network interface devices.
    Net,
    /// Block storage devices.
    Block,
    /// Graphics display devices.
    Display,
}

/// Error outcomes a device operation or a probe step can report.
///
/// `Unsupported` and `WouldBlock`/`NoData` are ordinary result values and
/// propagate to the caller unchanged. `ProbeFailure` marks one failed bus
/// entry, which is skipped without aborting the scan. `CapacityViolation`
/// is fatal: a second device was offered to a statically modeled,
/// already-occupied category, which is a build configuration mismatch.
#[derive(Clone, Copy, Debug, PartialEq, Eq, Structural)]
pub enum DevError {
    /// The operation is not implemented by this driver.
    Unsupported,
    /// The operation cannot be serviced right now (e.g. a full queue).
    WouldBlock,
    /// A data-returning operation found nothing to return.
    NoData,
    /// An argument is out of range for this device.
    InvalidParam,
    /// A bus or driver probe encountered a hardware fault.
    ProbeFailure,
    /// A second device was offered to an occupied static slot.
    CapacityViolation,
}

/// Result type of device operations that return no value on success.
pub type DevResult = Result<(), DevError>;

} // verus!
