//! Failure taxonomy of the vdpa control plane.

use vstd::prelude::*;

verus! {

/// Outcome of a failed control operation.
///
/// Every operation of the binding either succeeds atomically or fails with
/// exactly one of these kinds; no kernel error is swallowed and no default
/// value is substituted.
#[derive(Clone, Copy, Debug, PartialEq, Eq, Structural)]
pub enum VdpaError {
    /// The device node could not be opened; carries the OS error number.
    VhostOpen(i32),
    /// A kernel control request returned a negative status; carries the OS
    /// error number, untranslated.
    IoctlError(i32),
    /// Dirty-page logging is not implemented by this device class: the
    /// operation was rejected deterministically, before any kernel request.
    LogAddress,
    /// A vring configuration failed structural validation; the rejection is
    /// raised before any kernel request, so it never has partial effects.
    InvalidQueue,
}

} // verus!
