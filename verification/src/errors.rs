//! Failure taxonomy of the discovery sequence.
//!
//! A `FatalError` terminates the session: no retry is attempted anywhere.
//! A `CapabilityWarning` records a non-fatal capability loss: the session
//! continues with the corresponding handle absent.

use vstd::prelude::*;

verus! {

/// A terminating failure of the discovery sequence.
#[derive(Clone, Copy, Debug, PartialEq, Eq, Structural)]
pub enum FatalError {
    /// Neither the environment-indicated endpoint nor the fallback endpoint
    /// accepted a connection: there is no compositor to talk to.
    ConnectionFailed,
    /// An event arrived during the registry round-trip for an object that has
    /// no handler.  Only the registry may receive events while the round-trip
    /// is in flight, so this signals an internal inconsistency of the
    /// protocol handling, not a runtime condition.
    UnexpectedEvent,
    /// The compositor does not advertise a seat at the required version.
    /// A seat is mandatory for an input session; there is no fallback.
    SeatMissing,
}

impl FatalError {
    /// A description of the failure for the diagnostic path.
    pub fn message(&self) -> (r: &'static str)
        ensures
            *self is ConnectionFailed ==> r@ == "could not connect to the wayland compositor"@,
            *self is UnexpectedEvent ==> r@ == "unexpected event during the registry round-trip"@,
            *self is SeatMissing ==> r@ == "the compositor does not advertise a seat at the required version"@,
    {
        match self {
            FatalError::ConnectionFailed => "could not connect to the wayland compositor",
            FatalError::UnexpectedEvent => "unexpected event during the registry round-trip",
            FatalError::SeatMissing => "the compositor does not advertise a seat at the required version",
        }
    }
}

/// A non-fatal capability loss found while negotiating the optional
/// protocol extensions.
#[derive(Clone, Copy, Debug, PartialEq, Eq, Structural)]
pub enum CapabilityWarning {
    /// The compositor does not understand the virtual-keyboard protocol:
    /// keycodes cannot be entered.
    VirtualKeyboardUnsupported,
    /// The compositor does not understand the input-method protocol:
    /// only keycodes can be entered.
    InputMethodUnsupported,
}

impl CapabilityWarning {
    /// A description of the capability loss for the diagnostic path.
    pub fn message(&self) -> (r: &'static str)
        ensures
            *self is VirtualKeyboardUnsupported ==> r@
                == "the compositor does not understand the virtual-keyboard protocol; keycodes cannot be entered"@,
            *self is InputMethodUnsupported ==> r@
                == "the compositor does not understand the input-method protocol; only keycodes can be entered"@,
    {
        match self {
            CapabilityWarning::VirtualKeyboardUnsupported => {
                "the compositor does not understand the virtual-keyboard protocol; keycodes cannot be entered"
            },
            CapabilityWarning::InputMethodUnsupported => {
                "the compositor does not understand the input-method protocol; only keycodes can be entered"
            },
        }
    }
}

} // verus!
