//! Status reports: how a command ended.

use vstd::prelude::*;

use crate::scanner::snapi::error::{SnapiError, SnapiErrorView};
use crate::scanner::snapi::report::HidOutput;

verus! {

/// A code that none of the named values has.
#[derive(Debug, Clone, Copy, PartialEq, Eq, Structural)]
pub struct UnknownCode {
    /// The code.
    pub number: u8,
}

/// How a command ended.
#[derive(Debug, Clone, Copy, PartialEq, Eq, Structural)]
pub enum SnapiResponseCode {
    /// It was carried out.
    Success,
    /// It failed.
    Fail,
    /// The device does not know it.
    NotSupported,
    /// The device knows it but could not finish it.
    SupportedNotCompleted,
}

impl SnapiResponseCode {
    /// The value that a code on the wire stands for.
    pub open spec fn of_code(code: u8) -> Result<SnapiResponseCode, UnknownCode> {
        match code {
            0x01 => Ok(SnapiResponseCode::Success),
            0x02 => Ok(SnapiResponseCode::Fail),
            0x03 => Ok(SnapiResponseCode::NotSupported),
            0x04 => Ok(SnapiResponseCode::SupportedNotCompleted),
            number => Err(UnknownCode { number }),
        }
    }

    /// The code on the wire.
    pub open spec fn code(self) -> u8 {
        match self {
            SnapiResponseCode::Success => 0x01,
            SnapiResponseCode::Fail => 0x02,
            SnapiResponseCode::NotSupported => 0x03,
            SnapiResponseCode::SupportedNotCompleted => 0x04,
        }
    }

    /// Reads a code on the wire.
    pub fn from_code(code: u8) -> (result: Result<SnapiResponseCode, UnknownCode>)
        ensures
            result == SnapiResponseCode::of_code(code),
    {
        match code {
            0x01 => Ok(SnapiResponseCode::Success),
            0x02 => Ok(SnapiResponseCode::Fail),
            0x03 => Ok(SnapiResponseCode::NotSupported),
            0x04 => Ok(SnapiResponseCode::SupportedNotCompleted),
            number => Err(UnknownCode { number }),
        }
    }
}

impl TryFrom<u8> for SnapiResponseCode {
    type Error = UnknownCode;

    fn try_from(value: u8) -> (result: Result<Self, UnknownCode>) {
        SnapiResponseCode::from_code(value)
    }
}

impl vstd::std_specs::convert::TryFromSpecImpl<u8> for SnapiResponseCode {
    open spec fn obeys_try_from_spec() -> bool {
        true
    }

    open spec fn try_from_spec(value: u8) -> Result<SnapiResponseCode, UnknownCode> {
        SnapiResponseCode::of_code(value)
    }
}

impl From<SnapiResponseCode> for u8 {
    fn from(value: SnapiResponseCode) -> (result: u8) {
        match value {
            SnapiResponseCode::Success => 0x01,
            SnapiResponseCode::Fail => 0x02,
            SnapiResponseCode::NotSupported => 0x03,
            SnapiResponseCode::SupportedNotCompleted => 0x04,
        }
    }
}

impl vstd::std_specs::convert::FromSpecImpl<SnapiResponseCode> for u8 {
    open spec fn obeys_from_spec() -> bool {
        true
    }

    open spec fn from_spec(value: SnapiResponseCode) -> u8 {
        value.code()
    }
}

/// What became of the parameters of a command.
#[derive(Debug, Clone, Copy, PartialEq, Eq, Structural)]
pub enum SnapiExtendedResponseCode {
    /// Nothing is said of them.
    Empty,
    /// All were stored.
    AllParametersStored,
    /// None was stored.
    NoParametersStored,
    /// Some were stored.
    SomeParametersStored,
}

impl SnapiExtendedResponseCode {
    /// The value that a code on the wire stands for.
    pub open spec fn of_code(code: u8) -> Result<SnapiExtendedResponseCode, UnknownCode> {
        match code {
            0x00 => Ok(SnapiExtendedResponseCode::Empty),
            0x01 => Ok(SnapiExtendedResponseCode::AllParametersStored),
            0x02 => Ok(SnapiExtendedResponseCode::NoParametersStored),
            0x03 => Ok(SnapiExtendedResponseCode::SomeParametersStored),
            number => Err(UnknownCode { number }),
        }
    }

    /// The code on the wire.
    pub open spec fn code(self) -> u8 {
        match self {
            SnapiExtendedResponseCode::Empty => 0x00,
            SnapiExtendedResponseCode::AllParametersStored => 0x01,
            SnapiExtendedResponseCode::NoParametersStored => 0x02,
            SnapiExtendedResponseCode::SomeParametersStored => 0x03,
        }
    }

    /// Reads a code on the wire.
    pub fn from_code(code: u8) -> (result: Result<SnapiExtendedResponseCode, UnknownCode>)
        ensures
            result == SnapiExtendedResponseCode::of_code(code),
    {
        match code {
            0x00 => Ok(SnapiExtendedResponseCode::Empty),
            0x01 => Ok(SnapiExtendedResponseCode::AllParametersStored),
            0x02 => Ok(SnapiExtendedResponseCode::NoParametersStored),
            0x03 => Ok(SnapiExtendedResponseCode::SomeParametersStored),
            number => Err(UnknownCode { number }),
        }
    }
}

impl TryFrom<u8> for SnapiExtendedResponseCode {
    type Error = UnknownCode;

    fn try_from(value: u8) -> (result: Result<Self, UnknownCode>) {
        SnapiExtendedResponseCode::from_code(value)
    }
}

impl vstd::std_specs::convert::TryFromSpecImpl<u8> for SnapiExtendedResponseCode {
    open spec fn obeys_try_from_spec() -> bool {
        true
    }

    open spec fn try_from_spec(value: u8) -> Result<SnapiExtendedResponseCode, UnknownCode> {
        SnapiExtendedResponseCode::of_code(value)
    }
}

impl From<SnapiExtendedResponseCode> for u8 {
    fn from(value: SnapiExtendedResponseCode) -> (result: u8) {
        match value {
            SnapiExtendedResponseCode::Empty => 0x00,
            SnapiExtendedResponseCode::AllParametersStored => 0x01,
            SnapiExtendedResponseCode::NoParametersStored => 0x02,
            SnapiExtendedResponseCode::SomeParametersStored => 0x03,
        }
    }
}

impl vstd::std_specs::convert::FromSpecImpl<SnapiExtendedResponseCode> for u8 {
    open spec fn obeys_from_spec() -> bool {
        true
    }

    open spec fn from_spec(value: SnapiExtendedResponseCode) -> u8 {
        value.code()
    }
}

/// A response code and an extended response code are read as themselves from
/// the byte they are written as, and a byte that is read is the byte that is
/// written for it.
pub proof fn law_response_codes_read_back(
    response: SnapiResponseCode,
    extended: SnapiExtendedResponseCode,
    code: u8,
)
    ensures
        SnapiResponseCode::of_code(response.code()) == Ok::<_, UnknownCode>(response),
        SnapiExtendedResponseCode::of_code(extended.code()) == Ok::<_, UnknownCode>(extended),
        SnapiResponseCode::of_code(code) matches Ok(value) ==> value.code() == code,
        SnapiExtendedResponseCode::of_code(code) matches Ok(value) ==> value.code() == code,
{
}

/// A status report.
#[derive(Debug, Clone, Copy, PartialEq, Eq, Structural)]
pub struct SnapiStatus {
    /// The report that the device answers.
    pub hid_output: HidOutput,
    /// How the command ended.
    pub response_code: SnapiResponseCode,
    /// What became of its parameters.
    pub extended_response_code: SnapiExtendedResponseCode,
}

impl View for SnapiStatus {
    type V = SnapiStatus;

    open spec fn view(&self) -> SnapiStatus {
        *self
    }
}

impl SnapiStatus {
    /// Whether the device carried out a command that was sent by the given
    /// report.
    pub open spec fn confirms(self, hid_output: HidOutput) -> bool {
        self.response_code == SnapiResponseCode::Success && self.hid_output == hid_output
    }

    /// Turns any answer but a success of the expected report into an error.
    pub fn error_for_status(self, expected_hid_output: HidOutput) -> (result: Result<
        (),
        SnapiError,
    >)
        ensures
            result is Ok <==> self.confirms(expected_hid_output),
            result matches Err(error) ==> error@ == (SnapiErrorView::BadStatus { status: self }),
    {
        if self.response_code == SnapiResponseCode::Success && self.hid_output
            == expected_hid_output {
            Ok(())
        } else {
            Err(SnapiError::BadStatus { status: self })
        }
    }
}

} // verus!
