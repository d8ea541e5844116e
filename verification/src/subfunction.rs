//! Sub-function codes: which byte values each service defines.

use vstd::prelude::*;

verus! {

/// A diagnostic session.
#[derive(Clone, Copy, Debug, PartialEq, Eq, Structural)]
pub enum SessionType {
    Default,
    Programming,
    Extended,
    SafetySystemDiagnostic,
    VehicleManufacturerSpecific(u8),
    SystemSupplierSpecific(u8),
    Reserved(u8),
}

impl SessionType {
    /// The session a sub-function byte names. Bytes `0x01..=0x7F` name one.
    pub open spec fn of_byte(b: u8) -> Option<SessionType> {
        if b == 0x01 {
            Some(SessionType::Default)
        } else if b == 0x02 {
            Some(SessionType::Programming)
        } else if b == 0x03 {
            Some(SessionType::Extended)
        } else if b == 0x04 {
            Some(SessionType::SafetySystemDiagnostic)
        } else if 0x05 <= b <= 0x3F {
            Some(SessionType::Reserved(b))
        } else if 0x40 <= b <= 0x5F {
            Some(SessionType::VehicleManufacturerSpecific(b))
        } else if 0x60 <= b <= 0x7E {
            Some(SessionType::SystemSupplierSpecific(b))
        } else if b == 0x7F {
            Some(SessionType::Reserved(b))
        } else {
            None
        }
    }

    /// The sub-function byte of a session.
    pub open spec fn byte(self) -> u8 {
        match self {
            SessionType::Default => 0x01,
            SessionType::Programming => 0x02,
            SessionType::Extended => 0x03,
            SessionType::SafetySystemDiagnostic => 0x04,
            SessionType::VehicleManufacturerSpecific(v) => v,
            SessionType::SystemSupplierSpecific(v) => v,
            SessionType::Reserved(v) => v,
        }
    }

    #[verifier::when_used_as_spec(of_byte)]
    pub fn from_byte(b: u8) -> (s: Option<SessionType>)
        ensures
            s == SessionType::of_byte(b),
            s matches Some(v) ==> v.byte() == b,
            s is Some <==> 0x01 <= b <= 0x7F,
    {
        if b == 0x01 {
            Some(SessionType::Default)
        } else if b == 0x02 {
            Some(SessionType::Programming)
        } else if b == 0x03 {
            Some(SessionType::Extended)
        } else if b == 0x04 {
            Some(SessionType::SafetySystemDiagnostic)
        } else if 0x05 <= b && b <= 0x3F {
            Some(SessionType::Reserved(b))
        } else if 0x40 <= b && b <= 0x5F {
            Some(SessionType::VehicleManufacturerSpecific(b))
        } else if 0x60 <= b && b <= 0x7E {
            Some(SessionType::SystemSupplierSpecific(b))
        } else if b == 0x7F {
            Some(SessionType::Reserved(b))
        } else {
            None
        }
    }

    #[verifier::when_used_as_spec(byte)]
    pub fn to_byte(self) -> (b: u8)
        ensures
            b == self.byte(),
    {
        match self {
            SessionType::Default => 0x01,
            SessionType::Programming => 0x02,
            SessionType::Extended => 0x03,
            SessionType::SafetySystemDiagnostic => 0x04,
            SessionType::VehicleManufacturerSpecific(v) => v,
            SessionType::SystemSupplierSpecific(v) => v,
            SessionType::Reserved(v) => v,
        }
    }

    pub fn is_default(self) -> (b: bool)
        ensures
            b == (self == SessionType::Default),
    {
        match self {
            SessionType::Default => true,
            _ => false,
        }
    }
}

impl Default for SessionType {
    fn default() -> (s: SessionType)
        ensures
            s == SessionType::Default,
    {
        SessionType::Default
    }
}

/// ECU reset kind asking the server to announce its power-down time.
pub const ENABLE_RAPID_POWER_SHUT_DOWN: u8 = 0x04;

/// The one defined tester-present sub-function.
pub const TESTER_PRESENT_ZERO: u8 = 0x00;

/// The function codes a service defines. Services without sub-function define
/// none.
pub open spec fn spec_sub_function_defined(service: crate::message::Service, function: u8) -> bool {
    match service {
        crate::message::Service::SessionCtrl => 0x01 <= function <= 0x7F,
        crate::message::Service::ECUReset => 0x01 <= function <= 0x7F,
        crate::message::Service::SecurityAccess => 0x01 <= function <= 0x7D,
        crate::message::Service::CommunicationCtrl => function <= 0x7F,
        crate::message::Service::Authentication => function <= 0x08,
        crate::message::Service::TesterPresent => function == 0x00,
        crate::message::Service::CtrlDTCSetting => 0x01 <= function <= 0x7F,
        crate::message::Service::LinkCtrl => 0x01 <= function <= 0x7F,
        crate::message::Service::RoutineCtrl => 0x01 <= function <= 0x03,
        _ => false,
    }
}

#[verifier::when_used_as_spec(spec_sub_function_defined)]
pub fn sub_function_defined(service: crate::message::Service, function: u8) -> (b: bool)
    ensures
        b == spec_sub_function_defined(service, function),
{
    match service {
        crate::message::Service::SessionCtrl => 0x01 <= function && function <= 0x7F,
        crate::message::Service::ECUReset => 0x01 <= function && function <= 0x7F,
        crate::message::Service::SecurityAccess => 0x01 <= function && function <= 0x7D,
        crate::message::Service::CommunicationCtrl => function <= 0x7F,
        crate::message::Service::Authentication => function <= 0x08,
        crate::message::Service::TesterPresent => function == 0x00,
        crate::message::Service::CtrlDTCSetting => 0x01 <= function && function <= 0x7F,
        crate::message::Service::LinkCtrl => 0x01 <= function && function <= 0x7F,
        crate::message::Service::RoutineCtrl => 0x01 <= function && function <= 0x03,
        _ => false,
    }
}

/// Whether a security access level asks for a seed: the odd levels do, the
/// even levels send a key.
pub open spec fn spec_is_request_seed(level: u8) -> bool {
    level % 2 == 1
}

#[verifier::when_used_as_spec(spec_is_request_seed)]
pub fn is_request_seed(level: u8) -> (b: bool)
    ensures
        b == spec_is_request_seed(level),
{
    level % 2 == 1
}

} // verus!
