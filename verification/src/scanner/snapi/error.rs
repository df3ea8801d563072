//! What can go wrong between the host and a SNAPI device.

use vstd::prelude::*;

use crate::scanner::snapi::status::SnapiStatus;

verus! {

/// A failure of the protocol.
#[derive(Debug)]
#[allow(inconsistent_fields)]
pub enum SnapiError {
    /// A field holds a value that it cannot have.
    UnexpectedValue {
        /// The value.
        value: u8,
        /// The field.
        name: String,
    },
    /// The device refused a command, or answered another one.
    BadStatus {
        /// What the device answered.
        status: SnapiStatus,
    },
    /// A report can no longer be passed on.
    Channel {
        /// Where it was to go.
        name: &'static str,
    },
    /// Packets were missing or out of order.
    BadPacketOrder {
        /// What was expected.
        name: String,
    },
    /// The device answered with data of another kind.
    MismatchedData {
        /// What was asked for.
        name: &'static str,
    },
    /// The USB device failed.
    Usb {
        /// What it reported.
        message: String,
    },
    /// There are fewer bytes than a field needs.
    TooShort {
        /// The number of bytes that are needed.
        expected: usize,
        /// The number of bytes there are.
        actual: usize,
    },
    /// Only the beginning of a long value was sent.
    PartialData {
        /// The length of the whole value.
        expected: usize,
        /// The beginning.
        got: Vec<u8>,
    },
}

/// A [`SnapiError`] as a mathematical value.
#[verifier::ext_equal]
pub enum SnapiErrorView {
    UnexpectedValue { value: u8, name: Seq<char> },
    BadStatus { status: SnapiStatus },
    Channel { name: Seq<char> },
    BadPacketOrder { name: Seq<char> },
    MismatchedData { name: Seq<char> },
    Usb { message: Seq<char> },
    TooShort { expected: int, actual: int },
    PartialData { expected: int, got: Seq<u8> },
}

impl View for SnapiError {
    type V = SnapiErrorView;

    open spec fn view(&self) -> SnapiErrorView {
        match *self {
            SnapiError::UnexpectedValue { value, name } => SnapiErrorView::UnexpectedValue {
                value,
                name: name@,
            },
            SnapiError::BadStatus { status } => SnapiErrorView::BadStatus { status },
            SnapiError::Channel { name } => SnapiErrorView::Channel { name: name@ },
            SnapiError::BadPacketOrder { name } => SnapiErrorView::BadPacketOrder { name: name@ },
            SnapiError::MismatchedData { name } => SnapiErrorView::MismatchedData { name: name@ },
            SnapiError::Usb { message } => SnapiErrorView::Usb { message: message@ },
            SnapiError::TooShort { expected, actual } => SnapiErrorView::TooShort {
                expected: expected as int,
                actual: actual as int,
            },
            SnapiError::PartialData { expected, got } => SnapiErrorView::PartialData {
                expected: expected as int,
                got: got@,
            },
        }
    }
}

/// A result as a mathematical value.
pub open spec fn result_view<T: View>(result: Result<T, SnapiError>) -> Result<
    T::V,
    SnapiErrorView,
> {
    match result {
        Ok(value) => Ok(value@),
        Err(error) => Err(error@),
    }
}

impl SnapiError {
    /// The error of a USB device that reported the given message.
    pub fn usb(message: String) -> (error: SnapiError)
        ensures
            error@ == (SnapiErrorView::Usb { message: message@ }),
    {
        SnapiError::Usb { message }
    }
}

} // verus!
