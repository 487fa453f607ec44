//! Errors of the terminal layer.

use vstd::prelude::*;

verus! {

/// What can go wrong while driving the terminal.
#[derive(Clone, Copy, Debug, PartialEq, Eq, Structural)]
pub enum TermError {
    /// There is no controlling terminal, or it may not be opened.
    DeviceUnavailable,
    /// The device's attributes could not be read.
    AttributeQueryFailed,
    /// The device's attributes could not be set.
    AttributeSetFailed,
    /// The device could not report its size.
    GeometryUnavailable,
    /// Output could not be written to the device.
    WriteFailed,
}

} // verus!
