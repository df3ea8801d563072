//! How devices are selected and their reports and interfaces handled.

use vstd::prelude::*;

use crate::laws::numbers::{law_decimal_tells_the_number, numeral};
use crate::text::decimal;
use crate::transports::hid::{frame_input_report, WebHidError};
use crate::transports::usb::{endpoint_number, Interfaces, UsbError};
use crate::transports::UsbFilter;

verus! {

/// A device is selected exactly if some filter names its vendor and its product.
pub proof fn law_devices_are_selected(
    filters: &[UsbFilter],
    vendor_id: u16,
    product_id: u16,
    result: bool,
)
    requires
        call_ensures(UsbFilter::any_accepts, (filters, vendor_id, product_id), result),
    ensures
        result <==> filters@.contains(UsbFilter { vendor_id, product_id }),
{
}

/// The number of an input report is put in front of its data, which may be one
/// byte longer than the buffer. Longer data is refused with both lengths.
pub proof fn law_report_is_framed(
    report_id: u8,
    data: &[u8],
    buffer_len: usize,
    result: Result<Vec<u8>, WebHidError>,
)
    requires
        data@.len() > 0,
        call_ensures(frame_input_report, (report_id, data, buffer_len), result),
    ensures
        match result {
            Ok(report) => {
                &&& data@.len() <= buffer_len + 1
                &&& report@.len() == data@.len() + 1
                &&& report@[0] == report_id
                &&& report@.skip(1) == data@
            },
            Err(error) => {
                &&& data@.len() > buffer_len + 1
                &&& error.message@ == "packet length "@ + decimal(data@.len())
                    + " was greater than buffer length "@ + decimal(buffer_len as nat)
            },
        },
        numeral(decimal(data@.len())) == data@.len(),
        numeral(decimal(buffer_len as nat)) == buffer_len,
{
    law_decimal_tells_the_number(data@.len());
    law_decimal_tells_the_number(buffer_len as nat);
    if let Ok(report) = result {
        assert(report@.skip(1) =~= data@);
    }
}

/// An error keeps its message, and the number of an endpoint is the rest of its
/// address by sixteen.
pub proof fn law_message_and_number(text: String, error: WebHidError, address: u8, number: u8)
    requires
        call_ensures(WebHidError::new, (text,), error),
        call_ensures(endpoint_number, (address,), number),
    ensures
        error.message@ == text@,
        number < 16,
        (address - number) % 16 == 0,
{
}

/// An interface that was claimed is found, others are as they were, and one that
/// is released is no longer claimed.
pub proof fn law_interfaces_are_claimed_and_released<T>(
    new: Interfaces<T>,
    claiming: &mut Interfaces<T>,
    interface: u8,
    claimed: T,
    releasing: &mut Interfaces<T>,
    other: u8,
    found: Result<&T, UsbError>,
    found_other: Result<&T, UsbError>,
    is_claimed: bool,
    found_before: Result<&T, UsbError>,
    found_later: Result<&T, UsbError>,
    found_other_later: Result<&T, UsbError>,
    found_at_first: Result<&T, UsbError>,
)
    requires
        other != interface,
        call_ensures(Interfaces::<T>::new, (), new),
        call_ensures(Interfaces::<T>::claimed, (&new, other), found_at_first),
        call_ensures(Interfaces::<T>::claimed, (&*old(claiming), other), found_before),
        call_ensures(Interfaces::<T>::claim_interface, (claiming, interface, claimed), ()),
        call_ensures(Interfaces::<T>::claimed, (&*final(claiming), interface), found),
        call_ensures(Interfaces::<T>::claimed, (&*final(claiming), other), found_other),
        call_ensures(Interfaces::<T>::is_claimed, (&*final(claiming), other), is_claimed),
        *old(releasing) == *final(claiming),
        call_ensures(Interfaces::<T>::release_interface, (releasing, interface), ()),
        call_ensures(Interfaces::<T>::claimed, (&*final(releasing), interface), found_later),
        call_ensures(Interfaces::<T>::claimed, (&*final(releasing), other), found_other_later),
    ensures
        found_at_first is Err,
        found matches Ok(handle) && *handle == claimed,
        found_other is Ok <==> found_before is Ok,
        found_other is Ok ==> *found_other->Ok_0 == *found_before->Ok_0,
        is_claimed <==> found_other is Ok,
        found_other matches Err(UsbError::UnclaimedInterface { interface: told }) ==> told == other,
        found_later matches Err(UsbError::UnclaimedInterface { interface: told }) && told
            == interface,
        found_other_later is Ok <==> found_before is Ok,
        found_other_later is Ok ==> *found_other_later->Ok_0 == *found_before->Ok_0,
{
}

} // verus!
