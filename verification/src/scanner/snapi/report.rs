//! The reports that a SNAPI device sends and takes, by their codes.

use vstd::prelude::*;

verus! {

/// A report that the device sends.
#[derive(Debug, Clone, Copy, Hash, PartialEq, Eq, Structural)]
pub enum HidInput {
    /// The outcome of a command.
    Status,
    /// A part of a scanned barcode.
    Barcode,
    /// A change of mode.
    Notification,
    /// A part of the answer to an attribute request.
    Attribute,
    /// A code that has no meaning of its own here.
    Unknown(u8),
}

impl HidInput {
    /// The value that a code on the wire stands for.
    pub open spec fn of_code(code: u8) -> HidInput {
        match code {
            0x21 => HidInput::Status,
            0x22 => HidInput::Barcode,
            0x24 => HidInput::Notification,
            0x27 => HidInput::Attribute,
            other => HidInput::Unknown(other),
        }
    }

    /// The code on the wire.
    pub open spec fn code(self) -> u8 {
        match self {
            HidInput::Status => 0x21,
            HidInput::Barcode => 0x22,
            HidInput::Notification => 0x24,
            HidInput::Attribute => 0x27,
            HidInput::Unknown(other) => other,
        }
    }

    /// Whether this is the value that its own code stands for: an
    /// `Unknown` around the code of a named value is not.
    pub open spec fn is_canonical(self) -> bool {
        Self::of_code(self.code()) == self
    }

    /// Reads a code on the wire.
    pub fn from_code(code: u8) -> (value: HidInput)
        ensures
            value == HidInput::of_code(code),
    {
        match code {
            0x21 => HidInput::Status,
            0x22 => HidInput::Barcode,
            0x24 => HidInput::Notification,
            0x27 => HidInput::Attribute,
            other => HidInput::Unknown(other),
        }
    }
}

impl From<u8> for HidInput {
    fn from(value: u8) -> (result: Self) {
        HidInput::from_code(value)
    }
}

impl vstd::std_specs::convert::FromSpecImpl<u8> for HidInput {
    open spec fn obeys_from_spec() -> bool {
        true
    }

    open spec fn from_spec(value: u8) -> HidInput {
        HidInput::of_code(value)
    }
}

impl From<HidInput> for u8 {
    fn from(value: HidInput) -> (result: u8) {
        match value {
            HidInput::Status => 0x21,
            HidInput::Barcode => 0x22,
            HidInput::Notification => 0x24,
            HidInput::Attribute => 0x27,
            HidInput::Unknown(other) => other,
        }
    }
}

impl vstd::std_specs::convert::FromSpecImpl<HidInput> for u8 {
    open spec fn obeys_from_spec() -> bool {
        true
    }

    open spec fn from_spec(value: HidInput) -> u8 {
        value.code()
    }
}

/// Every code is kept by `HidInput`: reading it and writing it again gives
/// the same byte, and what was read is canonical.
pub proof fn law_hid_input_codes(code: u8)
    ensures
        HidInput::of_code(code).code() == code,
        HidInput::of_code(code).is_canonical(),
{
}

/// A report that the device takes.
#[derive(Debug, Clone, Copy, Hash, PartialEq, Eq, Structural)]
pub enum HidOutput {
    /// An input report was received.
    Acknowledgement,
    /// Turns the aiming dot on or off.
    Aim,
    /// Selects barcodes, images or video.
    Mode,
    /// Turns the scanner on or off.
    Scanner,
    /// Ends a macro PDF sequence.
    MacroPdf,
    /// Pulls or releases the trigger.
    SoftTrigger,
    /// A part of an attribute request.
    Attribute,
    /// A code that has no meaning of its own here.
    Unknown(u8),
}

impl HidOutput {
    /// The value that a code on the wire stands for.
    pub open spec fn of_code(code: u8) -> HidOutput {
        match code {
            0x01 => HidOutput::Acknowledgement,
            0x02 => HidOutput::Aim,
            0x03 => HidOutput::Mode,
            0x06 => HidOutput::Scanner,
            0x08 => HidOutput::MacroPdf,
            0x0A => HidOutput::SoftTrigger,
            0x0D => HidOutput::Attribute,
            other => HidOutput::Unknown(other),
        }
    }

    /// The code on the wire.
    pub open spec fn code(self) -> u8 {
        match self {
            HidOutput::Acknowledgement => 0x01,
            HidOutput::Aim => 0x02,
            HidOutput::Mode => 0x03,
            HidOutput::Scanner => 0x06,
            HidOutput::MacroPdf => 0x08,
            HidOutput::SoftTrigger => 0x0A,
            HidOutput::Attribute => 0x0D,
            HidOutput::Unknown(other) => other,
        }
    }

    /// Whether this is the value that its own code stands for: an
    /// `Unknown` around the code of a named value is not.
    pub open spec fn is_canonical(self) -> bool {
        Self::of_code(self.code()) == self
    }

    /// Reads a code on the wire.
    pub fn from_code(code: u8) -> (value: HidOutput)
        ensures
            value == HidOutput::of_code(code),
    {
        match code {
            0x01 => HidOutput::Acknowledgement,
            0x02 => HidOutput::Aim,
            0x03 => HidOutput::Mode,
            0x06 => HidOutput::Scanner,
            0x08 => HidOutput::MacroPdf,
            0x0A => HidOutput::SoftTrigger,
            0x0D => HidOutput::Attribute,
            other => HidOutput::Unknown(other),
        }
    }
}

impl From<u8> for HidOutput {
    fn from(value: u8) -> (result: Self) {
        HidOutput::from_code(value)
    }
}

impl vstd::std_specs::convert::FromSpecImpl<u8> for HidOutput {
    open spec fn obeys_from_spec() -> bool {
        true
    }

    open spec fn from_spec(value: u8) -> HidOutput {
        HidOutput::of_code(value)
    }
}

impl From<HidOutput> for u8 {
    fn from(value: HidOutput) -> (result: u8) {
        match value {
            HidOutput::Acknowledgement => 0x01,
            HidOutput::Aim => 0x02,
            HidOutput::Mode => 0x03,
            HidOutput::Scanner => 0x06,
            HidOutput::MacroPdf => 0x08,
            HidOutput::SoftTrigger => 0x0A,
            HidOutput::Attribute => 0x0D,
            HidOutput::Unknown(other) => other,
        }
    }
}

impl vstd::std_specs::convert::FromSpecImpl<HidOutput> for u8 {
    open spec fn obeys_from_spec() -> bool {
        true
    }

    open spec fn from_spec(value: HidOutput) -> u8 {
        value.code()
    }
}

/// Every code is kept by `HidOutput`: reading it and writing it again gives
/// the same byte, and what was read is canonical.
pub proof fn law_hid_output_codes(code: u8)
    ensures
        HidOutput::of_code(code).code() == code,
        HidOutput::of_code(code).is_canonical(),
{
}

/// A change of mode that the device reports.
#[derive(Debug, Clone, Copy, Hash, PartialEq, Eq, Structural)]
pub enum SnapiNotification {
    /// The device reads barcodes.
    BarcodeMode,
    /// The device takes images.
    ImageMode,
    /// The device takes video.
    VideoMode,
    /// A code that has no meaning of its own here.
    Unknown(u8),
}

impl SnapiNotification {
    /// The value that a code on the wire stands for.
    pub open spec fn of_code(code: u8) -> SnapiNotification {
        match code {
            0x10 => SnapiNotification::BarcodeMode,
            0x11 => SnapiNotification::ImageMode,
            0x12 => SnapiNotification::VideoMode,
            other => SnapiNotification::Unknown(other),
        }
    }

    /// The code on the wire.
    pub open spec fn code(self) -> u8 {
        match self {
            SnapiNotification::BarcodeMode => 0x10,
            SnapiNotification::ImageMode => 0x11,
            SnapiNotification::VideoMode => 0x12,
            SnapiNotification::Unknown(other) => other,
        }
    }

    /// Whether this is the value that its own code stands for: an
    /// `Unknown` around the code of a named value is not.
    pub open spec fn is_canonical(self) -> bool {
        Self::of_code(self.code()) == self
    }

    /// Reads a code on the wire.
    pub fn from_code(code: u8) -> (value: SnapiNotification)
        ensures
            value == SnapiNotification::of_code(code),
    {
        match code {
            0x10 => SnapiNotification::BarcodeMode,
            0x11 => SnapiNotification::ImageMode,
            0x12 => SnapiNotification::VideoMode,
            other => SnapiNotification::Unknown(other),
        }
    }
}

impl From<u8> for SnapiNotification {
    fn from(value: u8) -> (result: Self) {
        SnapiNotification::from_code(value)
    }
}

impl vstd::std_specs::convert::FromSpecImpl<u8> for SnapiNotification {
    open spec fn obeys_from_spec() -> bool {
        true
    }

    open spec fn from_spec(value: u8) -> SnapiNotification {
        SnapiNotification::of_code(value)
    }
}

impl From<SnapiNotification> for u8 {
    fn from(value: SnapiNotification) -> (result: u8) {
        match value {
            SnapiNotification::BarcodeMode => 0x10,
            SnapiNotification::ImageMode => 0x11,
            SnapiNotification::VideoMode => 0x12,
            SnapiNotification::Unknown(other) => other,
        }
    }
}

impl vstd::std_specs::convert::FromSpecImpl<SnapiNotification> for u8 {
    open spec fn obeys_from_spec() -> bool {
        true
    }

    open spec fn from_spec(value: SnapiNotification) -> u8 {
        value.code()
    }
}

/// Every code is kept by `SnapiNotification`: reading it and writing it again gives
/// the same byte, and what was read is canonical.
pub proof fn law_snapi_notification_codes(code: u8)
    ensures
        SnapiNotification::of_code(code).code() == code,
        SnapiNotification::of_code(code).is_canonical(),
{
}

/// What the device captures.
#[derive(Debug, Clone, Copy, PartialEq, Eq, Structural)]
pub enum SnapiMode {
    /// Barcodes.
    Barcode,
    /// Images.
    Image,
    /// Video.
    Video,
    /// A code that has no meaning of its own here.
    Unknown(u8),
}

impl SnapiMode {
    /// The value that a code on the wire stands for.
    pub open spec fn of_code(code: u8) -> SnapiMode {
        match code {
            0x00 => SnapiMode::Barcode,
            0x01 => SnapiMode::Image,
            0x02 => SnapiMode::Video,
            other => SnapiMode::Unknown(other),
        }
    }

    /// The code on the wire.
    pub open spec fn code(self) -> u8 {
        match self {
            SnapiMode::Barcode => 0x00,
            SnapiMode::Image => 0x01,
            SnapiMode::Video => 0x02,
            SnapiMode::Unknown(other) => other,
        }
    }

    /// Whether this is the value that its own code stands for: an
    /// `Unknown` around the code of a named value is not.
    pub open spec fn is_canonical(self) -> bool {
        Self::of_code(self.code()) == self
    }

    /// Reads a code on the wire.
    pub fn from_code(code: u8) -> (value: SnapiMode)
        ensures
            value == SnapiMode::of_code(code),
    {
        match code {
            0x00 => SnapiMode::Barcode,
            0x01 => SnapiMode::Image,
            0x02 => SnapiMode::Video,
            other => SnapiMode::Unknown(other),
        }
    }
}

impl From<u8> for SnapiMode {
    fn from(value: u8) -> (result: Self) {
        SnapiMode::from_code(value)
    }
}

impl vstd::std_specs::convert::FromSpecImpl<u8> for SnapiMode {
    open spec fn obeys_from_spec() -> bool {
        true
    }

    open spec fn from_spec(value: u8) -> SnapiMode {
        SnapiMode::of_code(value)
    }
}

impl From<SnapiMode> for u8 {
    fn from(value: SnapiMode) -> (result: u8) {
        match value {
            SnapiMode::Barcode => 0x00,
            SnapiMode::Image => 0x01,
            SnapiMode::Video => 0x02,
            SnapiMode::Unknown(other) => other,
        }
    }
}

impl vstd::std_specs::convert::FromSpecImpl<SnapiMode> for u8 {
    open spec fn obeys_from_spec() -> bool {
        true
    }

    open spec fn from_spec(value: SnapiMode) -> u8 {
        value.code()
    }
}

/// Every code is kept by `SnapiMode`: reading it and writing it again gives
/// the same byte, and what was read is canonical.
pub proof fn law_snapi_mode_codes(code: u8)
    ensures
        SnapiMode::of_code(code).code() == code,
        SnapiMode::of_code(code).is_canonical(),
{
}

/// What happens to the macro PDF parts that the device holds.
#[derive(Debug, Clone, Copy, PartialEq, Eq, Structural)]
pub enum MacroPdfAction {
    /// They are sent as they are.
    Flush,
    /// They are thrown away.
    Abort,
}

impl MacroPdfAction {
    /// The code on the wire.
    pub open spec fn code(self) -> u8 {
        match self {
            MacroPdfAction::Flush => 0x00,
            MacroPdfAction::Abort => 0x01,
        }
    }
}

impl From<MacroPdfAction> for u8 {
    fn from(value: MacroPdfAction) -> (result: u8) {
        match value {
            MacroPdfAction::Flush => 0x00,
            MacroPdfAction::Abort => 0x01,
        }
    }
}

impl vstd::std_specs::convert::FromSpecImpl<MacroPdfAction> for u8 {
    open spec fn obeys_from_spec() -> bool {
        true
    }

    open spec fn from_spec(value: MacroPdfAction) -> u8 {
        value.code()
    }
}

} // verus!
