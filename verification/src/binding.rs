//! Seat and capability binding against a registry snapshot.
//!
//! The seat is mandatory: the session fails fatally when the compositor
//! does not advertise one at the required version.  The virtual-keyboard
//! and input-method managers are optional and negotiated independently:
//! absence of either is an expected, first-class state recorded as a
//! warning, never an error.  Each object is bound at exactly its required
//! version, provided the compositor advertises at least that version;
//! otherwise it is absent — there is no down-negotiation.

use vstd::prelude::*;
use crate::errors::{CapabilityWarning, FatalError};
use crate::registry::{spec_lookup, GlobalSnapshot};

verus! {

/// Version at which the mandatory seat global is instantiated.
pub const SEAT_REQUIRED_VERSION: u32 = 7;

/// Version at which the virtual-keyboard manager is instantiated.
pub const VIRTUAL_KEYBOARD_REQUIRED_VERSION: u32 = 1;

/// Version at which the input-method manager is instantiated.
pub const INPUT_METHOD_REQUIRED_VERSION: u32 = 2;

/// Interface of the seat global.
pub open spec fn seat_interface() -> Seq<char> {
    "wl_seat"@
}

/// The seat interface name.
pub fn seat_interface_name() -> (r: &'static str)
    ensures
        r@ == seat_interface(),
{
    "wl_seat"
}

/// Interface of the virtual-keyboard manager global.
pub open spec fn virtual_keyboard_interface() -> Seq<char> {
    "zwp_virtual_keyboard_manager_v1"@
}

/// The virtual-keyboard manager interface name.
pub fn virtual_keyboard_interface_name() -> (r: &'static str)
    ensures
        r@ == virtual_keyboard_interface(),
{
    "zwp_virtual_keyboard_manager_v1"
}

/// Interface of the input-method manager global.
pub open spec fn input_method_interface() -> Seq<char> {
    "zwp_input_method_manager_v2"@
}

/// The input-method manager interface name.
pub fn input_method_interface_name() -> (r: &'static str)
    ensures
        r@ == input_method_interface(),
{
    "zwp_input_method_manager_v2"
}

/// Capability token for the mandatory seat.
#[derive(Clone, Copy, Debug, PartialEq, Eq, Structural)]
pub struct SeatHandle {
    /// Numeric name of the seat global in the snapshot.
    pub global_name: u32,
    /// Version the seat is bound at.
    pub version: u32,
}

/// Capability token for the virtual-keyboard manager.
#[derive(Clone, Copy, Debug, PartialEq, Eq, Structural)]
pub struct VirtualKeyboardHandle {
    /// Numeric name of the manager global in the snapshot.
    pub global_name: u32,
    /// Version the manager is bound at.
    pub version: u32,
}

/// Capability token for the input-method manager.
#[derive(Clone, Copy, Debug, PartialEq, Eq, Structural)]
pub struct InputMethodHandle {
    /// Numeric name of the manager global in the snapshot.
    pub global_name: u32,
    /// Version the manager is bound at.
    pub version: u32,
}

/// The handle addresses the global an instantiation request for `interface`
/// would use, and is bound at exactly the required version, which the
/// compositor advertises support for.
pub open spec fn bound_from(
    s: GlobalSnapshot,
    interface: Seq<char>,
    required: u32,
    global_name: u32,
    version: u32,
) -> bool {
    &&& spec_lookup(s.entries@, interface) matches Some(g) && g.name == global_name
        && g.version >= required
    &&& version == required
}

/// Instantiates the seat global.  A seat is assumed mandatory for any
/// input-related session: absence at the required version is fatal, with
/// no fallback.
pub fn bind_seat(snapshot: &GlobalSnapshot) -> (r: Result<SeatHandle, FatalError>)
    ensures
        r is Ok <==> snapshot.supports(seat_interface(), SEAT_REQUIRED_VERSION),
        r matches Ok(h) ==> bound_from(
            *snapshot,
            seat_interface(),
            SEAT_REQUIRED_VERSION,
            h.global_name,
            h.version,
        ),
        r is Err ==> r == Err::<SeatHandle, FatalError>(FatalError::SeatMissing),
{
    let interface = seat_interface_name().to_owned();
    match snapshot.lookup(&interface) {
        Some((global_name, advertised_version)) => {
            if advertised_version >= SEAT_REQUIRED_VERSION {
                Ok(SeatHandle { global_name, version: SEAT_REQUIRED_VERSION })
            } else {
                Err(FatalError::SeatMissing)
            }
        },
        None => Err(FatalError::SeatMissing)
    }
}

/// Outcome of the optional-capability negotiation.
#[derive(Clone, Debug, PartialEq, Eq)]
pub struct CapabilityBindings {
    /// The virtual-keyboard manager, absent when unsupported.
    pub virtual_keyboard: Option<VirtualKeyboardHandle>,
    /// The input-method manager, absent when unsupported.
    pub input_method: Option<InputMethodHandle>,
    /// One warning for each capability the compositor lacks, in negotiation
    /// order: virtual keyboard first, input method second.
    pub warnings: Vec<CapabilityWarning>,
}

/// The warnings the negotiation records: one per unsupported capability.
pub open spec fn expected_warnings(vk_supported: bool, im_supported: bool) -> Seq<
    CapabilityWarning,
> {
    (if vk_supported {
        Seq::<CapabilityWarning>::empty()
    } else {
        seq![CapabilityWarning::VirtualKeyboardUnsupported]
    }) + (if im_supported {
        Seq::<CapabilityWarning>::empty()
    } else {
        seq![CapabilityWarning::InputMethodUnsupported]
    })
}

/// Attempts to instantiate each of the two optional protocol managers.
/// The two attempts are independent: each manager is present exactly when
/// the snapshot supports its interface at its required version, whatever
/// holds of the other; failure of either leaves the other untouched.
/// Absence is recorded as a warning and the session continues degraded.
pub fn bind_capabilities(snapshot: &GlobalSnapshot) -> (r: CapabilityBindings)
    ensures
        r.virtual_keyboard is Some <==> snapshot.supports(
            virtual_keyboard_interface(),
            VIRTUAL_KEYBOARD_REQUIRED_VERSION,
        ),
        r.input_method is Some <==> snapshot.supports(
            input_method_interface(),
            INPUT_METHOD_REQUIRED_VERSION,
        ),
        r.virtual_keyboard matches Some(h) ==> bound_from(
            *snapshot,
            virtual_keyboard_interface(),
            VIRTUAL_KEYBOARD_REQUIRED_VERSION,
            h.global_name,
            h.version,
        ),
        r.input_method matches Some(h) ==> bound_from(
            *snapshot,
            input_method_interface(),
            INPUT_METHOD_REQUIRED_VERSION,
            h.global_name,
            h.version,
        ),
        r.warnings@ == expected_warnings(
            snapshot.supports(virtual_keyboard_interface(), VIRTUAL_KEYBOARD_REQUIRED_VERSION),
            snapshot.supports(input_method_interface(), INPUT_METHOD_REQUIRED_VERSION),
        ),
{
    let mut warnings: Vec<CapabilityWarning> = Vec::new();

    let vk_name = virtual_keyboard_interface_name().to_owned();
    let mut virtual_keyboard: Option<VirtualKeyboardHandle> = None;
    match snapshot.lookup(&vk_name) {
        Some((global_name, advertised_version)) => {
            if advertised_version >= VIRTUAL_KEYBOARD_REQUIRED_VERSION {
                virtual_keyboard = Some(
                    VirtualKeyboardHandle {
                        global_name,
                        version: VIRTUAL_KEYBOARD_REQUIRED_VERSION,
                    },
                );
            }
        },
        None => {},
    }
    if virtual_keyboard.is_none() {
        warnings.push(CapabilityWarning::VirtualKeyboardUnsupported);
    }

    let im_name = input_method_interface_name().to_owned();
    let mut input_method: Option<InputMethodHandle> = None;
    match snapshot.lookup(&im_name) {
        Some((global_name, advertised_version)) => {
            if advertised_version >= INPUT_METHOD_REQUIRED_VERSION {
                input_method = Some(
                    InputMethodHandle { global_name, version: INPUT_METHOD_REQUIRED_VERSION },
                );
            }
        },
        None => {},
    }
    if input_method.is_none() {
        warnings.push(CapabilityWarning::InputMethodUnsupported);
    }

    proof {
        assert(warnings@ =~= expected_warnings(
            snapshot.supports(virtual_keyboard_interface(), VIRTUAL_KEYBOARD_REQUIRED_VERSION),
            snapshot.supports(input_method_interface(), INPUT_METHOD_REQUIRED_VERSION),
        ));
    }
    CapabilityBindings { virtual_keyboard, input_method, warnings }
}

/// Everything the discovery sequence yields to the caller: the mandatory
/// seat, the two optional managers, and the warnings recorded for absent
/// capabilities.
#[derive(Clone, Debug, PartialEq, Eq)]
pub struct SessionBundle {
    /// The mandatory seat.
    pub seat: SeatHandle,
    /// The virtual-keyboard manager, absent when unsupported.
    pub virtual_keyboard: Option<VirtualKeyboardHandle>,
    /// The input-method manager, absent when unsupported.
    pub input_method: Option<InputMethodHandle>,
    /// One warning for each absent optional capability.
    pub warnings: Vec<CapabilityWarning>,
}

/// Binds the mandatory seat, then negotiates the two optional capabilities.
/// A missing seat is fatal and ends the sequence at once: no capability
/// binding is attempted after a seat failure.  With the seat bound, each
/// optional capability is present exactly when the snapshot supports it.
pub fn bind_session(snapshot: &GlobalSnapshot) -> (r: Result<SessionBundle, FatalError>)
    ensures
        r is Ok <==> snapshot.supports(seat_interface(), SEAT_REQUIRED_VERSION),
        r is Err ==> r == Err::<SessionBundle, FatalError>(FatalError::SeatMissing),
        r matches Ok(b) ==> {
            &&& bound_from(
                *snapshot,
                seat_interface(),
                SEAT_REQUIRED_VERSION,
                b.seat.global_name,
                b.seat.version,
            )
            &&& b.virtual_keyboard is Some <==> snapshot.supports(
                virtual_keyboard_interface(),
                VIRTUAL_KEYBOARD_REQUIRED_VERSION,
            )
            &&& b.input_method is Some <==> snapshot.supports(
                input_method_interface(),
                INPUT_METHOD_REQUIRED_VERSION,
            )
            &&& (b.virtual_keyboard matches Some(h) ==> bound_from(
                *snapshot,
                virtual_keyboard_interface(),
                VIRTUAL_KEYBOARD_REQUIRED_VERSION,
                h.global_name,
                h.version,
            ))
            &&& (b.input_method matches Some(h) ==> bound_from(
                *snapshot,
                input_method_interface(),
                INPUT_METHOD_REQUIRED_VERSION,
                h.global_name,
                h.version,
            ))
            &&& b.warnings@ == expected_warnings(
                snapshot.supports(
                    virtual_keyboard_interface(),
                    VIRTUAL_KEYBOARD_REQUIRED_VERSION,
                ),
                snapshot.supports(input_method_interface(), INPUT_METHOD_REQUIRED_VERSION),
            )
        },
{
    let seat = match bind_seat(snapshot) {
        Ok(seat) => seat,
        Err(e) => {
            return Err(e);
        },
    };
    let capabilities = bind_capabilities(snapshot);
    Ok(
        SessionBundle {
            seat,
            virtual_keyboard: capabilities.virtual_keyboard,
            input_method: capabilities.input_method,
            warnings: capabilities.warnings,
        },
    )
}

} // verus!
