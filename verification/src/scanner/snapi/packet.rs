//! SNAPI packets: how the reports of a device are read and put together.

use vstd::prelude::*;

use crate::scanner::snapi::attribute::{require_length, too_short};
use crate::scanner::snapi::code_types::CodeType;
use crate::scanner::snapi::error::{result_view, SnapiError, SnapiErrorView};
use crate::scanner::snapi::report::{HidInput, HidOutput, SnapiNotification};
use crate::wire::{copy_all, copy_range, le16, u16_from_le};

pub use crate::scanner::snapi::attribute::{
    SnapiAttributeRequest, SnapiAttributeResponse, SnapiAttributeResponseView, SnapiAttributeType,
    SnapiAttributeValue, SnapiAttributeValueView,
};
pub use crate::scanner::snapi::collate::{
    CollatableSnapiPacket, SnapiBarcode, SnapiBarcodeView, SnapiOutput, SnapiOutputView,
    SnapiPacketOutput,
};
pub use crate::scanner::snapi::flags::{SnapiAttributeRequestFlags, SnapiAttributeResponseFlags};
pub use crate::scanner::snapi::request::encode_attribute_request;
pub use crate::scanner::snapi::status::{
    SnapiExtendedResponseCode, SnapiResponseCode, SnapiStatus, UnknownCode,
};

verus! {

/// The length of the longest report.
pub const PACKET_LEN: usize = 32;

/// A report of the device.
#[derive(Debug)]
pub enum SnapiPacket {
    /// The outcome of a command.
    Status(SnapiStatus),
    /// A part of a barcode.
    Barcode(SnapiBarcodePacket),
    /// A change of mode.
    Notification(SnapiNotification),
    /// A part of the answer to an attribute request.
    Attribute(SnapiAttributePacket),
    /// A report that is not read here.
    Other {
        /// The kind of report.
        hid_input: HidInput,
        /// The whole report.
        data: Vec<u8>,
    },
}

/// A [`SnapiPacket`] as a mathematical value.
#[verifier::ext_equal]
pub enum SnapiPacketView {
    Status(SnapiStatus),
    Barcode(SnapiBarcodePacketView),
    Notification(SnapiNotification),
    Attribute(SnapiAttributePacketView),
    Other { hid_input: HidInput, data: Seq<u8> },
}

impl View for SnapiPacket {
    type V = SnapiPacketView;

    open spec fn view(&self) -> SnapiPacketView {
        match *self {
            SnapiPacket::Status(status) => SnapiPacketView::Status(status),
            SnapiPacket::Barcode(packet) => SnapiPacketView::Barcode(packet@),
            SnapiPacket::Notification(notification) => SnapiPacketView::Notification(notification),
            SnapiPacket::Attribute(packet) => SnapiPacketView::Attribute(packet@),
            SnapiPacket::Other { hid_input, data } => SnapiPacketView::Other {
                hid_input,
                data: data@,
            },
        }
    }
}

/// A report that can be read from its bytes.
pub trait DecodableSnapiPacket: View + Sized {
    /// The kind of report.
    const HID_INPUT: HidInput;

    /// The kind of report, as a mathematical value.
    spec fn kind() -> HidInput;

    /// The two are the same.
    proof fn lemma_kind()
        ensures
            Self::HID_INPUT == Self::kind(),
    ;

    /// Whether the bytes that the report calls for are there, or are known to
    /// be missing.
    spec fn can_decode(data: Seq<u8>) -> bool;

    /// The report that the bytes hold.
    spec fn decoded(data: Seq<u8>) -> Result<Self::V, SnapiErrorView>;

    /// The report among all the others.
    spec fn among_packets(report: Self::V) -> SnapiPacketView;

    /// Reads the report.
    fn decode(data: &[u8]) -> (result: Result<Self, SnapiError>)
        requires
            Self::can_decode(data@),
        ensures
            result_view(result) == Self::decoded(data@),
    ;

    /// Puts the report among all the others.
    fn packet(self) -> (packet: SnapiPacket)
        ensures
            packet@ == Self::among_packets(self@),
    ;
}

/// A part of a barcode.
#[derive(Debug)]
pub struct SnapiBarcodePacket {
    /// The number of packets of the barcode.
    pub packet_count: usize,
    /// The place of this packet among them, from zero.
    pub packet_index: usize,
    /// The symbology.
    pub code_type: CodeType,
    /// The bytes of this part.
    pub data: Vec<u8>,
}

/// A [`SnapiBarcodePacket`] as a mathematical value.
#[verifier::ext_equal]
pub struct SnapiBarcodePacketView {
    pub packet_count: int,
    pub packet_index: int,
    pub code_type: CodeType,
    pub data: Seq<u8>,
}

impl View for SnapiBarcodePacket {
    type V = SnapiBarcodePacketView;

    open spec fn view(&self) -> SnapiBarcodePacketView {
        SnapiBarcodePacketView {
            packet_count: self.packet_count as int,
            packet_index: self.packet_index as int,
            code_type: self.code_type,
            data: self.data@,
        }
    }
}

/// A part of the answer to an attribute request.
#[derive(Debug)]
pub struct SnapiAttributePacket {
    /// Whether more parts follow.
    pub flags: SnapiAttributeResponseFlags,
    /// The bytes of this part.
    pub data: Vec<u8>,
}

/// A [`SnapiAttributePacket`] as a mathematical value.
#[verifier::ext_equal]
pub struct SnapiAttributePacketView {
    pub has_next: bool,
    pub data: Seq<u8>,
}

impl View for SnapiAttributePacket {
    type V = SnapiAttributePacketView;

    open spec fn view(&self) -> SnapiAttributePacketView {
        SnapiAttributePacketView { has_next: self.flags.has_next, data: self.data@ }
    }
}

impl View for SnapiNotification {
    type V = SnapiNotification;

    open spec fn view(&self) -> SnapiNotification {
        *self
    }
}

impl DecodableSnapiPacket for SnapiStatus {
    const HID_INPUT: HidInput = HidInput::Status;

    open spec fn kind() -> HidInput {
        HidInput::Status
    }

    proof fn lemma_kind() {
    }

    open spec fn can_decode(data: Seq<u8>) -> bool {
        true
    }

    open spec fn decoded(data: Seq<u8>) -> Result<SnapiStatus, SnapiErrorView> {
        if data.len() < 4 {
            Err(too_short(4, data))
        } else {
            match (
                SnapiResponseCode::of_code(data[2]),
                SnapiExtendedResponseCode::of_code(data[3]),
            ) {
                (Err(_), _) => Err(
                    SnapiErrorView::UnexpectedValue { value: data[2], name: "response code"@ },
                ),
                (Ok(_), Err(_)) => Err(
                    SnapiErrorView::UnexpectedValue {
                        value: data[3],
                        name: "extended response code"@,
                    },
                ),
                (Ok(response_code), Ok(extended_response_code)) => Ok(
                    SnapiStatus {
                        hid_output: HidOutput::of_code(data[1]),
                        response_code,
                        extended_response_code,
                    },
                ),
            }
        }
    }

    open spec fn among_packets(report: SnapiStatus) -> SnapiPacketView {
        SnapiPacketView::Status(report)
    }

    fn decode(data: &[u8]) -> (result: Result<SnapiStatus, SnapiError>) {
        require_length(data, 4)?;
        let response_code = match SnapiResponseCode::from_code(data[2]) {
            Ok(response_code) => response_code,
            Err(_) => {
                return Err(
                    SnapiError::UnexpectedValue {
                        value: data[2],
                        name: "response code".to_owned(),
                    },
                );
            },
        };
        let extended_response_code = match SnapiExtendedResponseCode::from_code(data[3]) {
            Ok(extended_response_code) => extended_response_code,
            Err(_) => {
                return Err(
                    SnapiError::UnexpectedValue {
                        value: data[3],
                        name: "extended response code".to_owned(),
                    },
                );
            },
        };
        Ok(
            SnapiStatus {
                hid_output: HidOutput::from_code(data[1]),
                response_code,
                extended_response_code,
            },
        )
    }

    fn packet(self) -> (packet: SnapiPacket) {
        SnapiPacket::Status(self)
    }
}

impl DecodableSnapiPacket for SnapiNotification {
    const HID_INPUT: HidInput = HidInput::Notification;

    open spec fn kind() -> HidInput {
        HidInput::Notification
    }

    proof fn lemma_kind() {
    }

    open spec fn can_decode(data: Seq<u8>) -> bool {
        data.len() >= 2
    }

    open spec fn decoded(data: Seq<u8>) -> Result<SnapiNotification, SnapiErrorView> {
        Ok(SnapiNotification::of_code(data[1]))
    }

    open spec fn among_packets(report: SnapiNotification) -> SnapiPacketView {
        SnapiPacketView::Notification(report)
    }

    fn decode(data: &[u8]) -> (result: Result<SnapiNotification, SnapiError>) {
        Ok(SnapiNotification::from_code(data[1]))
    }

    fn packet(self) -> (packet: SnapiPacket) {
        SnapiPacket::Notification(self)
    }
}

impl DecodableSnapiPacket for SnapiBarcodePacket {
    const HID_INPUT: HidInput = HidInput::Barcode;

    open spec fn kind() -> HidInput {
        HidInput::Barcode
    }

    proof fn lemma_kind() {
    }

    open spec fn can_decode(data: Seq<u8>) -> bool {
        true
    }

    open spec fn decoded(data: Seq<u8>) -> Result<SnapiBarcodePacketView, SnapiErrorView> {
        if data.len() < 6 {
            Err(too_short(6, data))
        } else if data.len() < 6 + data[3] {
            Err(too_short(6 + data[3], data))
        } else {
            Ok(
                SnapiBarcodePacketView {
                    packet_count: data[1] as int,
                    packet_index: data[2] as int,
                    code_type: CodeType { number: le16(data[4], data[5]) },
                    data: data.subrange(6, 6 + data[3]),
                },
            )
        }
    }

    open spec fn among_packets(report: SnapiBarcodePacketView) -> SnapiPacketView {
        SnapiPacketView::Barcode(report)
    }

    fn decode(data: &[u8]) -> (result: Result<SnapiBarcodePacket, SnapiError>) {
        require_length(data, 6)?;
        let length: usize = data[3] as usize;
        require_length(data, 6 + length)?;
        Ok(
            SnapiBarcodePacket {
                packet_count: data[1] as usize,
                packet_index: data[2] as usize,
                code_type: CodeType { number: u16_from_le(data[4], data[5]) },
                data: copy_range(data, 6, 6 + length),
            },
        )
    }

    fn packet(self) -> (packet: SnapiPacket) {
        SnapiPacket::Barcode(self)
    }
}

impl DecodableSnapiPacket for SnapiAttributePacket {
    const HID_INPUT: HidInput = HidInput::Attribute;

    open spec fn kind() -> HidInput {
        HidInput::Attribute
    }

    proof fn lemma_kind() {
    }

    open spec fn can_decode(data: Seq<u8>) -> bool {
        true
    }

    open spec fn decoded(data: Seq<u8>) -> Result<SnapiAttributePacketView, SnapiErrorView> {
        if data.len() < 3 {
            Err(too_short(3, data))
        } else if data.len() < 3 + data[2] {
            Err(too_short(3 + data[2], data))
        } else {
            Ok(
                SnapiAttributePacketView {
                    has_next: SnapiAttributeResponseFlags::of_byte(data[1]).has_next,
                    data: data.subrange(3, 3 + data[2]),
                },
            )
        }
    }

    open spec fn among_packets(report: SnapiAttributePacketView) -> SnapiPacketView {
        SnapiPacketView::Attribute(report)
    }

    fn decode(data: &[u8]) -> (result: Result<SnapiAttributePacket, SnapiError>) {
        require_length(data, 3)?;
        let flags = SnapiAttributeResponseFlags::from_byte(data[1]);
        let length: usize = data[2] as usize;
        require_length(data, 3 + length)?;
        Ok(SnapiAttributePacket { flags, data: copy_range(data, 3, 3 + length) })
    }

    fn packet(self) -> (packet: SnapiPacket) {
        SnapiPacket::Attribute(self)
    }
}

impl SnapiPacketView {
    /// Whether a report has a kind and the bytes that its kind calls for.
    pub open spec fn can_decode(data: Seq<u8>) -> bool {
        &&& data.len() > 0
        &&& HidInput::of_code(data[0]) == HidInput::Notification ==> data.len() >= 2
    }

    /// The report that the bytes hold, by its first byte.
    pub open spec fn decoded(data: Seq<u8>) -> Result<SnapiPacketView, SnapiErrorView>
        recommends
            Self::can_decode(data),
    {
        match HidInput::of_code(data[0]) {
            HidInput::Status => match SnapiStatus::decoded(data) {
                Ok(status) => Ok(SnapiPacketView::Status(status)),
                Err(error) => Err(error),
            },
            HidInput::Barcode => match SnapiBarcodePacket::decoded(data) {
                Ok(packet) => Ok(SnapiPacketView::Barcode(packet)),
                Err(error) => Err(error),
            },
            HidInput::Notification => match SnapiNotification::decoded(data) {
                Ok(notification) => Ok(SnapiPacketView::Notification(notification)),
                Err(error) => Err(error),
            },
            HidInput::Attribute => match SnapiAttributePacket::decoded(data) {
                Ok(packet) => Ok(SnapiPacketView::Attribute(packet)),
                Err(error) => Err(error),
            },
            hid_input => Ok(SnapiPacketView::Other { hid_input, data }),
        }
    }
}

impl SnapiPacket {
    /// Whether [`Self::decode_any`] takes a report.
    pub fn can_decode(data: &[u8]) -> (result: bool)
        ensures
            result == SnapiPacketView::can_decode(data@),
    {
        if data.len() == 0 {
            return false;
        }
        match HidInput::from_code(data[0]) {
            HidInput::Notification => data.len() >= 2,
            _ => true,
        }
    }

    /// Reads a report of any kind.
    pub fn decode_any(data: &[u8]) -> (result: Result<SnapiPacket, SnapiError>)
        requires
            SnapiPacketView::can_decode(data@),
        ensures
            result_view(result) == SnapiPacketView::decoded(data@),
    {
        let packet = match HidInput::from_code(data[0]) {
            HidInput::Status => SnapiStatus::decode(data)?.packet(),
            HidInput::Barcode => SnapiBarcodePacket::decode(data)?.packet(),
            HidInput::Notification => SnapiNotification::decode(data)?.packet(),
            HidInput::Attribute => SnapiAttributePacket::decode(data)?.packet(),
            hid_input => SnapiPacket::Other { hid_input, data: copy_all(data) },
        };
        Ok(packet)
    }

    /// Reads a report of the given kind, and refuses any other.
    pub fn decode_specific<T: DecodableSnapiPacket>(data: &[u8]) -> (result: Result<
        T,
        SnapiError,
    >)
        requires
            data@.len() > 0,
            HidInput::of_code(data@[0]) == T::kind() ==> T::can_decode(data@),
        ensures
            result_view(result) == if HidInput::of_code(data@[0]) == T::kind() {
                T::decoded(data@)
            } else {
                Err(SnapiErrorView::UnexpectedValue { value: data@[0], name: "decode"@ })
            },
    {
        proof {
            T::lemma_kind();
        }
        let hid_input = HidInput::from_code(data[0]);
        if hid_input != T::HID_INPUT {
            return Err(SnapiError::UnexpectedValue { value: data[0], name: "decode".to_owned() });
        }
        T::decode(data)
    }
}

} // verus!
