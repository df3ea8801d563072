//! Reports of HID devices in a browser.

use vstd::prelude::*;
use vstd::string::StringExecFns;

use crate::text::{decimal, push_decimal};
use crate::wire::push_bytes;

verus! {

/// What went wrong with a HID device in a browser.
#[derive(Debug)]
pub struct WebHidError {
    /// What it was.
    pub message: String,
}

impl WebHidError {
    /// An error with the given message.
    pub fn new(message: String) -> (error: WebHidError)
        ensures
            error.message@ == message@,
    {
        WebHidError { message }
    }
}

/// The message about a report that is too long.
pub open spec fn too_long(len: nat, buffer_len: nat) -> Seq<char> {
    "packet length "@ + decimal(len) + " was greater than buffer length "@ + decimal(buffer_len)
}

/// Puts the number of an input report, which a browser gives on its own, in
/// front of its data.
///
/// The data may be longer than the buffer by one byte.
pub fn frame_input_report(report_id: u8, data: &[u8], buffer_len: usize) -> (result: Result<
    Vec<u8>,
    WebHidError,
>)
    requires
        data@.len() > 0,
    ensures
        match result {
            Ok(report) => data@.len() - 1 <= buffer_len && report@ == seq![report_id] + data@,
            Err(error) => data@.len() - 1 > buffer_len && error.message@ == too_long(
                data@.len(),
                buffer_len as nat,
            ),
        },
{
    if data.len() - 1 > buffer_len {
        let mut message = "packet length ".to_owned();
        push_decimal(&mut message, data.len());
        message.append(" was greater than buffer length ");
        push_decimal(&mut message, buffer_len);
        return Err(WebHidError::new(message));
    }
    let mut report: Vec<u8> = vec![report_id];
    push_bytes(&mut report, data);
    proof {
        assert(report@ =~= seq![report_id] + data@);
    }
    Ok(report)
}

} // verus!
