//! SNAPI, the protocol of Symbol and Zebra scanners.

pub mod attribute;
pub mod code_types;
pub mod collate;
pub mod device;
pub mod error;
pub mod exchange;
pub mod flags;
pub mod packet;
pub mod pending;
pub mod report;
pub mod request;
pub mod status;
pub mod usb_data;

pub use device::{after_packet, Command, CommandView, PacketStep, Snapi, SnapiView};
pub use error::{SnapiError, SnapiErrorView};
pub use exchange::{
    AttributeExchange, AttributeExchangeView, AttributeIdScan, AttributeIdScanView, AttributeRead,
    AttributeReadStep, AttributeReadStepView, AttributeReadView, ExchangeAction,
};
pub use pending::{Pending, PendingSender, PendingView, Route};
pub use report::{HidInput, HidOutput, MacroPdfAction, SnapiMode, SnapiNotification};
pub use usb_data::{
    SnapiData, SnapiDataView, UsbReader, UsbReaderView, UsbStep, HEADER_LEN, USB_BUFFER_LEN,
    USB_CONFIGURATION, USB_INTERFACE,
};

use vstd::prelude::*;

verus! {

/// The number of the vendor.
pub const USB_VENDOR_ID: u16 = 0x05E0;

/// The number of the product.
pub const USB_PRODUCT_ID: u16 = 0x1900;

} // verus!
