use vstd::prelude::*;

verus! {

/// The failure classes surfaced by this library.
///
/// Every fallible operation reports exactly which class of failure occurred,
/// so a caller can tell a misspelled property name from a hardware rejection
/// from a destroyed device.
#[derive(Clone, Copy, Debug, PartialEq, Eq, Structural)]
pub enum Error {
    /// Communication with the device failed, or a response was too short or
    /// inconsistent to interpret.
    Io,
    /// A named property, a compatible encoder, a compatible CRTC, or a
    /// preferred mode does not exist.
    NotFound,
    /// A value returned by the hardware does not decode into an expected
    /// enumerated tag.
    InvalidData,
    /// An integer conversion overflowed the target width.
    OutOfRange,
    /// The operation went through a back-reference whose owning device no
    /// longer exists.
    DeviceGone,
}

} // verus!
