//! SNAPI over a device that is read and written in turn.
//!
//! Nobody else reads the reports of the device. Each command is written, its
//! status is read, and the answer is read until it is whole.

use vstd::prelude::*;
use vstd::utf8::{decode_utf8, valid_utf8};

use crate::scanner::snapi::collate::views;
use crate::scanner::snapi::device::value_request;
use crate::scanner::snapi::request::{encode_attribute_request, request_packets};
use crate::wire::{copy_all, copy_range, le16, le32, push_be16, u16_from_le, u32_from_le};

pub use crate::scanner::snapi::flags::{SnapiAttributeRequestFlags, SnapiAttributeResponseFlags};

verus! {

/// The number of the vendor.
pub const SNAPI_VENDOR_ID: u16 = 0x05E0;

/// The number of the product.
pub const SNAPI_PRODUCT_ID: u16 = 0x1900;

/// The length of a report.
pub const SNAPI_PACKET_LEN: usize = 32;

/// The number of the attribute that holds the serial number.
pub const SERIAL_NUMBER_ATTRIBUTE: u16 = 534;

/// A report that the device sends.
#[derive(Debug, Clone, Copy, PartialEq, Eq, Structural)]
pub enum SnapiInput {
    /// The outcome of a command.
    Status,
    /// A part of the answer to an attribute request.
    Attribute,
}

impl SnapiInput {
    /// The code on the wire.
    pub open spec fn code(self) -> u8 {
        match self {
            SnapiInput::Status => 0x21,
            SnapiInput::Attribute => 0x27,
        }
    }
}

impl From<SnapiInput> for u8 {
    fn from(value: SnapiInput) -> (result: u8) {
        match value {
            SnapiInput::Status => 0x21,
            SnapiInput::Attribute => 0x27,
        }
    }
}

impl vstd::std_specs::convert::FromSpecImpl<SnapiInput> for u8 {
    open spec fn obeys_from_spec() -> bool {
        true
    }

    open spec fn from_spec(value: SnapiInput) -> u8 {
        value.code()
    }
}

/// A report that the device takes.
#[derive(Debug, Clone, Copy, PartialEq, Eq, Structural)]
pub enum SnapiOutput {
    /// A part of an attribute request.
    Attribute,
}

impl SnapiOutput {
    /// The code on the wire.
    pub open spec fn code(self) -> u8 {
        match self {
            SnapiOutput::Attribute => 0x0D,
        }
    }
}

impl From<SnapiOutput> for u8 {
    fn from(value: SnapiOutput) -> (result: u8) {
        match value {
            SnapiOutput::Attribute => 0x0D,
        }
    }
}

impl vstd::std_specs::convert::FromSpecImpl<SnapiOutput> for u8 {
    open spec fn obeys_from_spec() -> bool {
        true
    }

    open spec fn from_spec(value: SnapiOutput) -> u8 {
        value.code()
    }
}

/// What can go wrong.
#[derive(Debug)]
pub enum SnapiError {
    /// A field holds a value that it may not hold.
    UnexpectedValue {
        /// The value.
        value: u8,
        /// The field.
        name: &'static str,
    },
    /// The device did not carry out a command.
    BadStatus {
        /// What it said instead.
        status: SnapiStatus,
    },
    /// The text of an attribute is not valid UTF-8.
    InvalidString {
        /// The bytes of the text.
        data: Vec<u8>,
    },
}

/// A [`SnapiError`] as a mathematical value.
#[verifier::ext_equal]
pub enum SnapiErrorView {
    UnexpectedValue { value: u8, name: Seq<char> },
    BadStatus { status: SnapiStatus },
    InvalidString { data: Seq<u8> },
}

impl View for SnapiError {
    type V = SnapiErrorView;

    open spec fn view(&self) -> SnapiErrorView {
        match *self {
            SnapiError::UnexpectedValue { value, name } => SnapiErrorView::UnexpectedValue {
                value,
                name: name@,
            },
            SnapiError::BadStatus { status } => SnapiErrorView::BadStatus { status },
            SnapiError::InvalidString { data } => SnapiErrorView::InvalidString { data: data@ },
        }
    }
}

/// A result by its views.
pub open spec fn result_view<T: View>(result: Result<T, SnapiError>) -> Result<
    T::V,
    SnapiErrorView,
> {
    match result {
        Ok(value) => Ok(value@),
        Err(error) => Err(error@),
    }
}

/// How a command ended.
#[derive(Debug, Clone, Copy, PartialEq, Eq, Structural)]
pub enum SnapiResponseCode {
    /// It was carried out.
    Success,
    /// It failed.
    Fail,
    /// The device does not know it.
    NotSupported,
    /// The device knows it but could not finish it.
    SupportedNotCompleted,
}

impl SnapiResponseCode {
    /// The value that a code on the wire stands for.
    pub open spec fn of_code(code: u8) -> Result<SnapiResponseCode, SnapiError> {
        match code {
            0x01 => Ok(SnapiResponseCode::Success),
            0x02 => Ok(SnapiResponseCode::Fail),
            0x03 => Ok(SnapiResponseCode::NotSupported),
            0x04 => Ok(SnapiResponseCode::SupportedNotCompleted),
            value => Err(SnapiError::UnexpectedValue { value, name: "response code" }),
        }
    }

    /// The code on the wire.
    pub open spec fn code(self) -> u8 {
        match self {
            SnapiResponseCode::Success => 0x01,
            SnapiResponseCode::Fail => 0x02,
            SnapiResponseCode::NotSupported => 0x03,
            SnapiResponseCode::SupportedNotCompleted => 0x04,
        }
    }
}

impl TryFrom<u8> for SnapiResponseCode {
    type Error = SnapiError;

    fn try_from(value: u8) -> (result: Result<Self, SnapiError>) {
        match value {
            0x01 => Ok(SnapiResponseCode::Success),
            0x02 => Ok(SnapiResponseCode::Fail),
            0x03 => Ok(SnapiResponseCode::NotSupported),
            0x04 => Ok(SnapiResponseCode::SupportedNotCompleted),
            value => Err(SnapiError::UnexpectedValue { value, name: "response code" }),
        }
    }
}

impl vstd::std_specs::convert::TryFromSpecImpl<u8> for SnapiResponseCode {
    open spec fn obeys_try_from_spec() -> bool {
        true
    }

    open spec fn try_from_spec(value: u8) -> Result<SnapiResponseCode, SnapiError> {
        SnapiResponseCode::of_code(value)
    }
}

/// What became of the parameters of a command.
#[derive(Debug, Clone, Copy, PartialEq, Eq, Structural)]
pub enum SnapiExtendedResponseCode {
    /// Nothing is said of them.
    Empty,
    /// All were stored.
    AllParametersStored,
    /// None was stored.
    NoParametersStored,
    /// Some were stored.
    SomeParametersStored,
}

impl SnapiExtendedResponseCode {
    /// The value that a code on the wire stands for.
    pub open spec fn of_code(code: u8) -> Result<SnapiExtendedResponseCode, SnapiError> {
        match code {
            0x00 => Ok(SnapiExtendedResponseCode::Empty),
            0x01 => Ok(SnapiExtendedResponseCode::AllParametersStored),
            0x02 => Ok(SnapiExtendedResponseCode::NoParametersStored),
            0x03 => Ok(SnapiExtendedResponseCode::SomeParametersStored),
            value => Err(SnapiError::UnexpectedValue { value, name: "extended response code" }),
        }
    }

    /// The code on the wire.
    pub open spec fn code(self) -> u8 {
        match self {
            SnapiExtendedResponseCode::Empty => 0x00,
            SnapiExtendedResponseCode::AllParametersStored => 0x01,
            SnapiExtendedResponseCode::NoParametersStored => 0x02,
            SnapiExtendedResponseCode::SomeParametersStored => 0x03,
        }
    }
}

impl TryFrom<u8> for SnapiExtendedResponseCode {
    type Error = SnapiError;

    fn try_from(value: u8) -> (result: Result<Self, SnapiError>) {
        match value {
            0x00 => Ok(SnapiExtendedResponseCode::Empty),
            0x01 => Ok(SnapiExtendedResponseCode::AllParametersStored),
            0x02 => Ok(SnapiExtendedResponseCode::NoParametersStored),
            0x03 => Ok(SnapiExtendedResponseCode::SomeParametersStored),
            value => Err(SnapiError::UnexpectedValue { value, name: "extended response code" }),
        }
    }
}

impl vstd::std_specs::convert::TryFromSpecImpl<u8> for SnapiExtendedResponseCode {
    open spec fn obeys_try_from_spec() -> bool {
        true
    }

    open spec fn try_from_spec(value: u8) -> Result<SnapiExtendedResponseCode, SnapiError> {
        SnapiExtendedResponseCode::of_code(value)
    }
}

/// A response code and an extended response code are read as themselves from
/// the byte of their code, and any other byte is named in the error.
pub proof fn law_response_codes_read_back(
    response: SnapiResponseCode,
    extended: SnapiExtendedResponseCode,
    code: u8,
)
    ensures
        SnapiResponseCode::of_code(response.code()) == Ok::<_, SnapiError>(response),
        SnapiExtendedResponseCode::of_code(extended.code()) == Ok::<_, SnapiError>(extended),
        match SnapiResponseCode::of_code(code) {
            Ok(value) => value.code() == code,
            Err(error) => error matches SnapiError::UnexpectedValue { value, .. } && value == code,
        },
        match SnapiExtendedResponseCode::of_code(code) {
            Ok(value) => value.code() == code,
            Err(error) => error matches SnapiError::UnexpectedValue { value, .. } && value == code,
        },
{
}

/// A status report.
#[derive(Debug, Clone, Copy, PartialEq, Eq, Structural)]
pub struct SnapiStatus {
    /// The report that the device answers.
    pub report_id: u8,
    /// How the command ended.
    pub response_code: SnapiResponseCode,
    /// What became of its parameters.
    pub extended_response_code: SnapiExtendedResponseCode,
}

impl View for SnapiStatus {
    type V = SnapiStatus;

    open spec fn view(&self) -> SnapiStatus {
        *self
    }
}

impl SnapiStatus {
    /// The status that a report tells.
    pub open spec fn of_report(report: Seq<u8>) -> Result<SnapiStatus, SnapiErrorView> {
        if report[0] != SnapiInput::Status.code() {
            Err(SnapiErrorView::UnexpectedValue { value: report[0], name: "status"@ })
        } else {
            match (
                SnapiResponseCode::of_code(report[2]),
                SnapiExtendedResponseCode::of_code(report[3]),
            ) {
                (Err(error), _) => Err(error@),
                (_, Err(error)) => Err(error@),
                (Ok(response_code), Ok(extended_response_code)) => Ok(
                    SnapiStatus { report_id: report[1], response_code, extended_response_code },
                ),
            }
        }
    }

    /// Turns any answer but a success into an error.
    pub fn error_for_status(self) -> (result: Result<(), SnapiError>)
        ensures
            result is Ok <==> self.response_code == SnapiResponseCode::Success,
            result matches Err(error) ==> error@ == (SnapiErrorView::BadStatus { status: self }),
    {
        match self.response_code {
            SnapiResponseCode::Success => Ok(()),
            _ => Err(SnapiError::BadStatus { status: self }),
        }
    }
}

/// How a command ended, by its status report.
pub open spec fn status_checked(report: Seq<u8>) -> Result<(), SnapiErrorView> {
    match SnapiStatus::of_report(report) {
        Ok(status) => if status.response_code == SnapiResponseCode::Success {
            Ok(())
        } else {
            Err(SnapiErrorView::BadStatus { status })
        },
        Err(error) => Err(error),
    }
}

/// The value of an attribute.
#[derive(Debug)]
pub enum SnapiAttributeValue {
    /// Something that is on or off.
    Flag(bool),
    /// An 8-bit number.
    Byte(u8),
    /// A 16-bit number.
    Word(u16),
    /// A 32-bit number.
    DWord(u32),
    /// A text.
    String(String),
    /// A run of bytes.
    Array(Vec<u8>),
}

/// A [`SnapiAttributeValue`] as a mathematical value.
#[verifier::ext_equal]
pub enum SnapiAttributeValueView {
    Flag(bool),
    Byte(u8),
    Word(u16),
    DWord(u32),
    String(Seq<char>),
    Array(Seq<u8>),
}

impl View for SnapiAttributeValue {
    type V = SnapiAttributeValueView;

    open spec fn view(&self) -> SnapiAttributeValueView {
        match *self {
            SnapiAttributeValue::Flag(value) => SnapiAttributeValueView::Flag(value),
            SnapiAttributeValue::Byte(value) => SnapiAttributeValueView::Byte(value),
            SnapiAttributeValue::Word(value) => SnapiAttributeValueView::Word(value),
            SnapiAttributeValue::DWord(value) => SnapiAttributeValueView::DWord(value),
            SnapiAttributeValue::String(value) => SnapiAttributeValueView::String(value@),
            SnapiAttributeValue::Array(value) => SnapiAttributeValueView::Array(value@),
        }
    }
}

/// A value that may be absent, as a mathematical value.
pub open spec fn value_view(value: Option<SnapiAttributeValue>) -> Option<
    SnapiAttributeValueView,
> {
    match value {
        Some(value) => Some(value@),
        None => None,
    }
}

/// Whether an answer has all the bytes that its type needs. The text of a
/// string has at least the byte that ends it. There is no value for an array.
pub open spec fn can_decode(answer: Seq<u8>) -> bool {
    answer.len() < 6 || answer.len() > 6 && match answer[6] {
        0x46 | 0x42 => answer.len() >= 9,
        0x57 => answer.len() >= 10,
        0x44 => answer.len() >= 12,
        0x53 => answer.len() >= 10 && answer[9] >= 1 && answer.len() >= 11 + answer[9],
        0x41 => false,
        _ => true,
    }
}

/// The value that an answer tells, if it tells one: a flag (`F`), a byte (`B`),
/// a word (`W`), a double word (`D`) or a string (`S`).
pub open spec fn decoded(answer: Seq<u8>) -> Result<
    Option<SnapiAttributeValueView>,
    SnapiErrorView,
>
    recommends
        can_decode(answer),
{
    if answer.len() < 6 {
        Ok(None)
    } else {
        match answer[6] {
            0x46 => Ok(Some(SnapiAttributeValueView::Flag(answer[8] > 0))),
            0x42 => Ok(Some(SnapiAttributeValueView::Byte(answer[8]))),
            0x57 => Ok(Some(SnapiAttributeValueView::Word(le16(answer[8], answer[9])))),
            0x44 => Ok(
                Some(
                    SnapiAttributeValueView::DWord(
                        le32(answer[8], answer[9], answer[10], answer[11]),
                    ),
                ),
            ),
            0x53 => {
                // The last byte only ends the text.
                let text = answer.subrange(12, 11 + answer[9]);
                if valid_utf8(text) {
                    Ok(Some(SnapiAttributeValueView::String(decode_utf8(text))))
                } else {
                    Err(SnapiErrorView::InvalidString { data: text })
                }
            },
            0x00 => Ok(None),
            value => Err(SnapiErrorView::UnexpectedValue { value, name: "attribute type"@ }),
        }
    }
}

/// Reads the value that an answer tells.
fn decode(answer: &[u8]) -> (result: Result<Option<SnapiAttributeValue>, SnapiError>)
    requires
        can_decode(answer@),
    ensures
        match result {
            Ok(value) => decoded(answer@) == Ok::<_, SnapiErrorView>(value_view(value)),
            Err(error) => decoded(answer@) == Err::<
                Option<SnapiAttributeValueView>,
                SnapiErrorView,
            >(error@),
        },
{
    if answer.len() < 6 {
        return Ok(None);
    }
    let value = match answer[6] {
        0x46 => SnapiAttributeValue::Flag(answer[8] > 0),
        0x42 => SnapiAttributeValue::Byte(answer[8]),
        0x57 => SnapiAttributeValue::Word(u16_from_le(answer[8], answer[9])),
        0x44 => SnapiAttributeValue::DWord(
            u32_from_le(answer[8], answer[9], answer[10], answer[11]),
        ),
        0x53 => {
            let data = copy_range(answer, 12, 11 + answer[9] as usize);
            match String::from_utf8(copy_all(data.as_slice())) {
                Ok(text) => SnapiAttributeValue::String(text),
                Err(_) => {
                    return Err(SnapiError::InvalidString { data });
                },
            }
        },
        0x00 => {
            return Ok(None);
        },
        value => {
            return Err(SnapiError::UnexpectedValue { value, name: "attribute type" });
        },
    };
    Ok(Some(value))
}

/// Whether [`decode`] takes an answer.
fn is_decodable(answer: &[u8]) -> (result: bool)
    ensures
        result == can_decode(answer@),
{
    if answer.len() < 6 {
        return true;
    }
    if answer.len() == 6 {
        return false;
    }
    match answer[6] {
        0x46 | 0x42 => answer.len() >= 9,
        0x57 => answer.len() >= 10,
        0x44 => answer.len() >= 12,
        0x53 => answer.len() >= 10 && answer[9] >= 1 && answer.len() >= 11 + answer[9] as usize,
        0x41 => false,
        _ => true,
    }
}

/// What was found out about a device.
#[derive(Debug)]
pub struct SnapiDeviceInfo {
    /// The name of the device.
    pub name: String,
    /// Its serial number, where it was asked for.
    pub serial_number: Option<String>,
}

/// A [`SnapiDeviceInfo`] as a mathematical value.
#[verifier::ext_equal]
pub struct SnapiDeviceInfoView {
    pub name: Seq<char>,
    pub serial_number: Option<Seq<char>>,
}

impl View for SnapiDeviceInfo {
    type V = SnapiDeviceInfoView;

    open spec fn view(&self) -> SnapiDeviceInfoView {
        SnapiDeviceInfoView {
            name: self.name@,
            serial_number: match self.serial_number {
                Some(serial_number) => Some(serial_number@),
                None => None,
            },
        }
    }
}

impl SnapiDeviceInfo {
    /// Of a device whose serial number was not asked for.
    pub fn without_serial_number(name: String) -> (info: SnapiDeviceInfo)
        ensures
            info@ == (SnapiDeviceInfoView { name: name@, serial_number: None }),
    {
        SnapiDeviceInfo { name, serial_number: None }
    }

    /// Of a device by the value of the attribute that holds its serial number. A
    /// device is left out where that is not a text.
    pub fn with_serial_number(name: String, value: Option<SnapiAttributeValue>) -> (info: Option<
        SnapiDeviceInfo,
    >)
        ensures
            match value_view(value) {
                Some(SnapiAttributeValueView::String(serial_number)) => info is Some
                    && info->Some_0@ == (SnapiDeviceInfoView {
                    name: name@,
                    serial_number: Some(serial_number),
                }),
                _ => info is None,
            },
    {
        match value {
            Some(SnapiAttributeValue::String(serial_number)) => Some(
                SnapiDeviceInfo { name, serial_number: Some(serial_number) },
            ),
            _ => None,
        }
    }

    /// Of a device by how the reading of its serial number ended. A device is
    /// left out where that failed.
    pub fn listed<E>(name: String, outcome: Result<Option<SnapiAttributeValue>, E>) -> (info:
        Option<SnapiDeviceInfo>)
        ensures
            match outcome {
                Ok(Some(SnapiAttributeValue::String(serial_number))) => info is Some
                    && info->Some_0@ == (SnapiDeviceInfoView {
                    name: name@,
                    serial_number: Some(serial_number@),
                }),
                _ => info is None,
            },
    {
        match outcome {
            Ok(value) => SnapiDeviceInfo::with_serial_number(name, value),
            Err(_) => None,
        }
    }
}

/// What the host does next in an exchange.
#[derive(Debug)]
pub enum DirectAction {
    /// It writes a packet and reads the status report.
    Write(Vec<u8>),
    /// It reads a report and acknowledges it.
    Read,
}

/// What is known of an answer.
#[derive(Debug)]
pub enum Answer {
    /// More of it follows.
    More,
    /// It is whole, and tells this value.
    Whole(Option<SnapiAttributeValue>),
}

/// An [`Answer`] as a mathematical value.
#[verifier::ext_equal]
pub enum AnswerView {
    More,
    Whole(Option<SnapiAttributeValueView>),
}

impl View for Answer {
    type V = AnswerView;

    open spec fn view(&self) -> AnswerView {
        match *self {
            Answer::More => AnswerView::More,
            Answer::Whole(value) => AnswerView::Whole(value_view(value)),
        }
    }
}

/// An attribute request and its answer.
pub struct Snapi {
    packets: Vec<Vec<u8>>,
    confirmed: usize,
    output: Vec<u8>,
}

/// A [`Snapi`] as a mathematical value.
#[verifier::ext_equal]
pub struct SnapiView {
    /// The packets of the request.
    pub packets: Seq<Seq<u8>>,
    /// How many of them the device has confirmed.
    pub confirmed: int,
    /// What was received of the answer.
    pub output: Seq<u8>,
}

impl View for Snapi {
    type V = SnapiView;

    closed spec fn view(&self) -> SnapiView {
        SnapiView {
            packets: views(self.packets@),
            confirmed: self.confirmed as int,
            output: self.output@,
        }
    }
}

/// Whether a report is followed by another one with more of the answer.
pub open spec fn has_next(report: Seq<u8>) -> bool {
    SnapiAttributeResponseFlags::of_byte(report[1]).has_next
}

/// The bytes of the answer that a report holds.
pub open spec fn part(report: Seq<u8>) -> Seq<u8> {
    report.subrange(3, 3 + report[2])
}

impl SnapiView {
    /// The exchange before anything is written.
    pub open spec fn start(request: Seq<u8>) -> SnapiView {
        SnapiView { packets: request_packets(request), confirmed: 0, output: Seq::empty() }
    }

    /// The packet to write next, if the request is not written yet.
    pub open spec fn next_write(self) -> Option<Seq<u8>> {
        if self.confirmed < self.packets.len() {
            Some(self.packets[self.confirmed])
        } else {
            None
        }
    }

    /// The exchange after a status report.
    pub open spec fn after_status(self, report: Seq<u8>) -> SnapiView {
        if status_checked(report) is Ok {
            SnapiView { confirmed: self.confirmed + 1, ..self }
        } else {
            self
        }
    }

    /// The exchange after several status reports.
    pub open spec fn after_statuses(self, reports: Seq<Seq<u8>>) -> SnapiView
        decreases reports.len(),
    {
        if reports.len() == 0 {
            self
        } else {
            self.after_statuses(reports.drop_last()).after_status(reports.last())
        }
    }

    /// Whether a report has all the bytes that are needed in order to tell what
    /// it comes to.
    pub open spec fn can_receive(self, report: Seq<u8>) -> bool {
        report[0] == SnapiInput::Attribute.code() ==> {
            &&& 3 + report[2] <= SNAPI_PACKET_LEN
            &&& has_next(report) || can_decode(self.output + part(report))
        }
    }

    /// The exchange after a report while the answer is waited for, and what is
    /// known of the answer.
    pub open spec fn received(self, report: Seq<u8>) -> (
        SnapiView,
        Result<AnswerView, SnapiErrorView>,
    ) {
        if report[0] != SnapiInput::Attribute.code() {
            (self, Err(SnapiErrorView::UnexpectedValue { value: report[0], name: "attribute"@ }))
        } else {
            let output = self.output + part(report);
            (
                SnapiView { output, ..self },
                if has_next(report) {
                    Ok(AnswerView::More)
                } else {
                    match decoded(output) {
                        Ok(value) => Ok(AnswerView::Whole(value)),
                        Err(error) => Err(error),
                    }
                },
            )
        }
    }

    /// The exchange after several reports.
    pub open spec fn after_reports(self, reports: Seq<Seq<u8>>) -> SnapiView
        decreases reports.len(),
    {
        if reports.len() == 0 {
            self
        } else {
            self.after_reports(reports.drop_last()).received(reports.last()).0
        }
    }
}

/// The bytes of the answer that several reports hold, one after the other.
pub open spec fn parts(reports: Seq<Seq<u8>>) -> Seq<u8>
    decreases reports.len(),
{
    if reports.len() == 0 {
        Seq::empty()
    } else {
        parts(reports.drop_last()) + part(reports.last())
    }
}

proof fn lemma_parts_are_collected(exchange: SnapiView, reports: Seq<Seq<u8>>)
    requires
        forall|i: int|
            0 <= i < reports.len() ==> (#[trigger] reports[i])[0] == SnapiInput::Attribute.code(),
    ensures
        exchange.after_reports(reports) == (SnapiView {
            output: exchange.output + parts(reports),
            ..exchange
        }),
    decreases reports.len(),
{
    if reports.len() == 0 {
        assert(exchange.output + parts(reports) =~= exchange.output);
    } else {
        let before = reports.drop_last();
        assert forall|i: int| 0 <= i < before.len() implies (#[trigger] before[i])[0]
            == SnapiInput::Attribute.code() by {
            assert(before[i] == reports[i]);
        }
        lemma_parts_are_collected(exchange, before);
        assert(reports[reports.len() - 1][0] == SnapiInput::Attribute.code());
        assert(exchange.output + parts(before) + part(reports.last()) =~= exchange.output
            + parts(reports));
    }
}

proof fn lemma_after_statuses(request: Seq<u8>, reports: Seq<Seq<u8>>)
    requires
        forall|i: int| 0 <= i < reports.len() ==> status_checked(#[trigger] reports[i]) is Ok,
    ensures
        SnapiView::start(request).after_statuses(reports) == (SnapiView {
            confirmed: reports.len() as int,
            ..SnapiView::start(request)
        }),
    decreases reports.len(),
{
    if reports.len() > 0 {
        lemma_after_statuses(request, reports.drop_last());
        assert(status_checked(reports[reports.len() - 1]) is Ok);
    }
}

/// Once the device has confirmed every packet of a request, an answer in several
/// reports is read from the bytes of all of them, in order, when the last one is
/// there. Until then there is more to come, and nothing is written.
pub proof fn law_answer_is_put_together(
    request: Seq<u8>,
    statuses: Seq<Seq<u8>>,
    reports: Seq<Seq<u8>>,
)
    requires
        statuses.len() == request_packets(request).len(),
        forall|i: int| 0 <= i < statuses.len() ==> status_checked(#[trigger] statuses[i]) is Ok,
        reports.len() > 0,
        forall|i: int|
            0 <= i < reports.len() ==> (#[trigger] reports[i])[0] == SnapiInput::Attribute.code(),
        forall|i: int|
            0 <= i < reports.len() ==> (has_next(#[trigger] reports[i]) <==> i < reports.len()
                - 1),
    ensures
        ({
            let written = SnapiView::start(request).after_statuses(statuses);
            let last = written.after_reports(reports.drop_last());
            &&& last.next_write() is None
            &&& last.received(reports.last()).1 == match decoded(parts(reports)) {
                Ok(value) => Ok(AnswerView::Whole(value)),
                Err(error) => Err(error),
            }
        }),
        forall|i: int|
            0 <= i < reports.len() - 1 ==> {
                let before = SnapiView::start(request).after_statuses(statuses).after_reports(
                    reports.take(i),
                );
                &&& before.next_write() is None
                &&& before.received(#[trigger] reports[i]).1 == Ok::<_, SnapiErrorView>(
                    AnswerView::More,
                )
            },
{
    let written = SnapiView::start(request).after_statuses(statuses);
    lemma_after_statuses(request, statuses);
    assert forall|i: int| 0 <= i < reports.len() implies written.after_reports(
        #[trigger] reports.take(i),
    ) == (SnapiView { output: parts(reports.take(i)), ..written }) by {
        let some = reports.take(i);
        assert forall|j: int| 0 <= j < some.len() implies (#[trigger] some[j])[0]
            == SnapiInput::Attribute.code() by {
            assert(some[j] == reports[j]);
        }
        lemma_parts_are_collected(written, some);
        assert(written.output + parts(some) =~= parts(some));
    }
    assert forall|i: int| 0 <= i < reports.len() - 1 implies {
        let before = written.after_reports(reports.take(i));
        &&& before.next_write() is None
        &&& before.received(#[trigger] reports[i]).1 == Ok::<_, SnapiErrorView>(AnswerView::More)
    } by {
        assert(written.after_reports(reports.take(i)).packets == written.packets);
    }
    let before = reports.drop_last();
    assert(before =~= reports.take(reports.len() - 1));
    assert(!has_next(reports[reports.len() - 1]));
}

/// While the device confirms every packet, the packets of the request are
/// written in order, each one once, and then nothing more.
pub proof fn law_request_is_written_in_order(request: Seq<u8>, reports: Seq<Seq<u8>>)
    requires
        reports.len() <= request_packets(request).len(),
        forall|i: int| 0 <= i < reports.len() ==> status_checked(#[trigger] reports[i]) is Ok,
    ensures
        match SnapiView::start(request).after_statuses(reports).next_write() {
            Some(packet) => reports.len() < request_packets(request).len() && packet
                == request_packets(request)[reports.len() as int],
            None => reports.len() == request_packets(request).len(),
        },
{
    lemma_after_statuses(request, reports);
}

impl Snapi {
    #[verifier::type_invariant]
    closed spec fn inv(self) -> bool {
        self.confirmed <= self.packets@.len()
    }

    /// Whether a device is one that speaks this protocol.
    pub fn is_supported(vendor_id: u16, product_id: u16) -> (result: bool)
        ensures
            result <==> vendor_id == SNAPI_VENDOR_ID && product_id == SNAPI_PRODUCT_ID,
    {
        vendor_id == SNAPI_VENDOR_ID && product_id == SNAPI_PRODUCT_ID
    }

    /// The requests that have to be made of a device first, in this order.
    pub fn initialize_device() -> (requests: Vec<Vec<u8>>)
        ensures
            views(requests@) == seq![
                seq![0x00u8, 0x06, 0x20, 0x00, 0x04, 0xB0, 0x00, 0x00, 0x00],
                seq![0x00u8, 0x09, 0x05, 0x00, 0x4E, 0x2A, 0x42, 0x00, 0x01],
            ],
    {
        let first: Vec<u8> = vec![0x00, 0x06, 0x20, 0x00, 0x04, 0xB0, 0x00, 0x00, 0x00];
        let second: Vec<u8> = vec![0x00, 0x09, 0x05, 0x00, 0x4E, 0x2A, 0x42, 0x00, 0x01];
        proof {
            assert(first@ =~= seq![0x00u8, 0x06, 0x20, 0x00, 0x04, 0xB0, 0x00, 0x00, 0x00]);
            assert(second@ =~= seq![0x00u8, 0x09, 0x05, 0x00, 0x4E, 0x2A, 0x42, 0x00, 0x01]);
        }
        let requests: Vec<Vec<u8>> = vec![first, second];
        proof {
            assert(views(requests@) =~= seq![first@, second@]);
        }
        requests
    }

    /// The request for the value of an attribute.
    pub fn get_attribute(attribute_id: u16) -> (request: Vec<u8>)
        ensures
            request@ == value_request(attribute_id),
    {
        let mut request: Vec<u8> = vec![0x00, 0x06, 0x02, 0x00];
        push_be16(&mut request, attribute_id);
        proof {
            assert(request@ =~= value_request(attribute_id));
        }
        request
    }

    /// Begins to write an attribute request and to wait for its answer.
    pub fn write_attribute_command(request: &[u8]) -> (exchange: Snapi)
        requires
            request@.len() <= u16::MAX,
        ensures
            exchange@ == SnapiView::start(request@),
    {
        Snapi {
            packets: snapi_encode_attribute_request(request),
            confirmed: 0,
            output: Vec::new(),
        }
    }

    /// What acknowledges a report.
    pub fn write_ack(input: SnapiInput) -> (packet: Vec<u8>)
        ensures
            packet@ == seq![0x01, input.code(), 0x01],
    {
        let packet: Vec<u8> = vec![0x01, input.into(), 0x01];
        proof {
            assert(packet@ =~= seq![0x01, input.code(), 0x01]);
        }
        packet
    }

    /// Tells what to do next.
    pub fn next(&self) -> (action: DirectAction)
        ensures
            match action {
                DirectAction::Write(packet) => self@.next_write() == Some(packet@),
                DirectAction::Read => self@.next_write() is None,
            },
    {
        proof {
            use_type_invariant(self);
        }
        if self.confirmed < self.packets.len() {
            DirectAction::Write(copy_all(self.packets[self.confirmed].as_slice()))
        } else {
            DirectAction::Read
        }
    }

    /// Reads a status report.
    pub fn read_status(report: &[u8; 32]) -> (result: Result<SnapiStatus, SnapiError>)
        ensures
            result_view(result) == SnapiStatus::of_report(report@),
    {
        if report[0] != 0x21 {
            return Err(
                SnapiError::UnexpectedValue { value: report[0], name: "status" },
            );
        }
        let response_code = match SnapiResponseCode::try_from(report[2]) {
            Ok(code) => code,
            Err(error) => {
                return Err(error);
            },
        };
        let extended_response_code = match SnapiExtendedResponseCode::try_from(report[3]) {
            Ok(code) => code,
            Err(error) => {
                return Err(error);
            },
        };
        Ok(SnapiStatus { report_id: report[1], response_code, extended_response_code })
    }

    /// Takes the status report of the packet that was written.
    pub fn confirm(&mut self, report: &[u8; 32]) -> (result: Result<(), SnapiError>)
        requires
            old(self)@.next_write() is Some,
        ensures
            final(self)@ == old(self)@.after_status(report@),
            result_view(result) == status_checked(report@),
    {
        proof {
            use_type_invariant(&*self);
            assert(self.confirmed < self.packets.len());
        }
        let status = match Snapi::read_status(report) {
            Ok(status) => status,
            Err(error) => {
                return Err(error);
            },
        };
        match status.error_for_status() {
            Ok(()) => {
                self.confirmed = self.confirmed + 1;
                Ok(())
            },
            Err(error) => Err(error),
        }
    }

    /// Whether [`Self::read_attribute`] takes a report.
    pub fn can_receive(&self, report: &[u8; 32]) -> (result: bool)
        ensures
            result == self@.can_receive(report@),
    {
        if report[0] != 0x27 {
            return true;
        }
        if report[2] as usize > SNAPI_PACKET_LEN - 3 {
            return false;
        }
        if SnapiAttributeResponseFlags::from_byte(report[1]).has_next {
            return true;
        }
        let mut output = copy_all(self.output.as_slice());
        let mut more = copy_range(report.as_slice(), 3, 3 + report[2] as usize);
        output.append(&mut more);
        is_decodable(output.as_slice())
    }

    /// Takes a report while the answer is waited for.
    pub fn read_attribute(&mut self, report: &[u8; 32]) -> (result: Result<Answer, SnapiError>)
        requires
            old(self)@.next_write() is None,
            old(self)@.can_receive(report@),
        ensures
            final(self)@ == old(self)@.received(report@).0,
            result_view(result) == old(self)@.received(report@).1,
    {
        proof {
            use_type_invariant(&*self);
        }
        if report[0] != 0x27 {
            return Err(
                SnapiError::UnexpectedValue { value: report[0], name: "attribute" },
            );
        }
        let mut output = copy_all(self.output.as_slice());
        let mut more = copy_range(report.as_slice(), 3, 3 + report[2] as usize);
        output.append(&mut more);
        self.output = output;
        if SnapiAttributeResponseFlags::from_byte(report[1]).has_next {
            return Ok(Answer::More);
        }
        match decode(self.output.as_slice()) {
            Ok(value) => Ok(Answer::Whole(value)),
            Err(error) => Err(error),
        }
    }
}

/// Encodes an attribute request into as many packets as are needed.
pub fn snapi_encode_attribute_request(data: &[u8]) -> (packets: Vec<Vec<u8>>)
    requires
        data@.len() <= u16::MAX,
    ensures
        views(packets@) == request_packets(data@),
{
    encode_attribute_request(data)
}

} // verus!
