//! Who gets a report.

use vstd::prelude::*;

use crate::laws::packets::same_error;
use crate::scanner::snapi::{HidInput, Pending, PendingSender, Route, SnapiError};

verus! {

/// The kind of a report, by its first byte.
pub open spec fn is_kind(hid_input: HidInput, first: u8) -> bool {
    match hid_input {
        HidInput::Status => first == 0x21,
        HidInput::Barcode => first == 0x22,
        HidInput::Notification => first == 0x24,
        HidInput::Attribute => first == 0x27,
        HidInput::Unknown(other) => first == other && first != 0x21 && first != 0x22 && first
            != 0x24 && first != 0x27,
    }
}

/// Where nobody waits, every report goes to the general stream.
pub proof fn law_nobody_waits_at_first<S, M>(
    pending: Pending<S, M>,
    later: &mut Pending<S, M>,
    hid_input: HidInput,
    route: Result<Route<S>, SnapiError>,
    multiple: Option<&M>,
)
    requires
        call_ensures(Pending::<S, M>::new, (), pending),
        *old(later) == pending,
        call_ensures(Pending::<S, M>::send_for_input, (later, hid_input), route),
        call_ensures(Pending::<S, M>::multiple, (&pending, hid_input), multiple),
    ensures
        route matches Ok(Route::Others),
        multiple is None,
        final(later)@ == old(later)@,
{
}

/// One who waits for a single report gets the next one of the kind, a second one
/// is refused, and after the waiting it goes to the general stream.
pub proof fn law_single_wait<S, M>(
    waiting: &mut Pending<S, M>,
    sender: S,
    hid_input: HidInput,
    first: &mut Pending<S, M>,
    sent: Result<Route<S>, SnapiError>,
    second: &mut Pending<S, M>,
    refused: Result<Route<S>, SnapiError>,
    multiple: Option<&M>,
    finished: &mut Pending<S, M>,
    third: &mut Pending<S, M>,
    passed: Result<Route<S>, SnapiError>,
)
    requires
        call_ensures(Pending::<S, M>::multiple, (&*final(waiting), hid_input), multiple),
        call_ensures(Pending::<S, M>::input_single, (waiting, hid_input, sender), ()),
        *old(first) == *final(waiting),
        call_ensures(Pending::<S, M>::send_for_input, (first, hid_input), sent),
        *old(second) == *final(first),
        call_ensures(Pending::<S, M>::send_for_input, (second, hid_input), refused),
        *old(finished) == *final(second),
        call_ensures(Pending::<S, M>::finish, (finished, hid_input), ()),
        *old(third) == *final(finished),
        call_ensures(Pending::<S, M>::send_for_input, (third, hid_input), passed),
    ensures
        multiple is None,
        sent == Ok::<_, SnapiError>(Route::Single(sender)),
        refused matches Err(SnapiError::Channel { name }) && name@
            == "already used single use pending sender"@,
        passed matches Ok(Route::Others),
{
}

/// One who waits for any number of reports gets each one of the kind, and after
/// the waiting they go to the general stream.
pub proof fn law_multiple_wait<S, M>(
    waiting: &mut Pending<S, M>,
    sender: M,
    hid_input: HidInput,
    first: &mut Pending<S, M>,
    sent: Result<Route<S>, SnapiError>,
    second: &mut Pending<S, M>,
    again: Result<Route<S>, SnapiError>,
    to: Option<&M>,
    finished: &mut Pending<S, M>,
    third: &mut Pending<S, M>,
    passed: Result<Route<S>, SnapiError>,
)
    requires
        call_ensures(Pending::<S, M>::input_multi, (waiting, hid_input, sender), ()),
        *old(first) == *final(waiting),
        call_ensures(Pending::<S, M>::send_for_input, (first, hid_input), sent),
        *old(second) == *final(first),
        call_ensures(Pending::<S, M>::send_for_input, (second, hid_input), again),
        call_ensures(Pending::<S, M>::multiple, (&*final(second), hid_input), to),
        *old(finished) == *final(second),
        call_ensures(Pending::<S, M>::finish, (finished, hid_input), ()),
        *old(third) == *final(finished),
        call_ensures(Pending::<S, M>::send_for_input, (third, hid_input), passed),
    ensures
        sent matches Ok(Route::Multiple),
        again matches Ok(Route::Multiple),
        to matches Some(to) && *to == sender,
        passed matches Ok(Route::Others),
{
}

/// Whether two routes are the same.
pub open spec fn same_route<S>(
    route: Result<Route<S>, SnapiError>,
    other: Result<Route<S>, SnapiError>,
) -> bool {
    match (route, other) {
        (Ok(route), Ok(other)) => route == other,
        (Err(error), Err(other)) => same_error(error, other),
        _ => false,
    }
}

/// Those who begin or cease to wait for one kind of report, and the reports of
/// that kind, make no difference to the reports of another kind.
pub proof fn law_kinds_are_apart<S, M>(
    start: Pending<S, M>,
    plain: &mut Pending<S, M>,
    expected: Result<Route<S>, SnapiError>,
    single: &mut Pending<S, M>,
    one: S,
    multi: &mut Pending<S, M>,
    many: M,
    sending: &mut Pending<S, M>,
    ignored: Result<Route<S>, SnapiError>,
    finishing: &mut Pending<S, M>,
    hid_input: HidInput,
    later: &mut Pending<S, M>,
    other: HidInput,
    route: Result<Route<S>, SnapiError>,
)
    requires
        other != hid_input,
        *old(plain) == start,
        call_ensures(Pending::<S, M>::send_for_input, (plain, other), expected),
        *old(single) == start,
        call_ensures(Pending::<S, M>::input_single, (single, hid_input, one), ()),
        *old(multi) == start,
        call_ensures(Pending::<S, M>::input_multi, (multi, hid_input, many), ()),
        *old(sending) == start,
        call_ensures(Pending::<S, M>::send_for_input, (sending, hid_input), ignored),
        *old(finishing) == start,
        call_ensures(Pending::<S, M>::finish, (finishing, hid_input), ()),
        *old(later) == *final(single) || *old(later) == *final(multi) || *old(later)
            == *final(sending) || *old(later) == *final(finishing),
        call_ensures(Pending::<S, M>::send_for_input, (later, other), route),
    ensures
        same_route(route, expected),
{
}

/// One who waits for a single report gets no other, and one who waits for any
/// number keeps waiting.
pub proof fn law_senders<S, M>(
    sender: &mut PendingSender<S, M>,
    route: Result<Route<S>, SnapiError>,
)
    requires
        call_ensures(PendingSender::<S, M>::send, (sender,), route),
    ensures
        match *old(sender) {
            PendingSender::Single(Some(single)) => route == Ok::<_, SnapiError>(
                Route::Single(single),
            ) && *final(sender) == PendingSender::<S, M>::Single(None),
            PendingSender::Single(None) => *final(sender) == *old(sender) && (route matches Err(
                SnapiError::Channel { name },
            ) && name@ == "already used single use pending sender"@),
            PendingSender::Multiple(_) => *final(sender) == *old(sender) && route matches Ok(
                Route::Multiple,
            ),
        },
{
}

/// A report is routed by its first byte.
pub proof fn law_report_is_routed_by_its_kind<S, M>(
    pending: &mut Pending<S, M>,
    data: &[u8],
    route: Result<Route<S>, SnapiError>,
    other: &mut Pending<S, M>,
    hid_input: HidInput,
    expected: Result<Route<S>, SnapiError>,
)
    requires
        data@.len() > 0,
        is_kind(hid_input, data@[0]),
        *old(other) == *old(pending),
        call_ensures(Pending::<S, M>::handle_read, (pending, data), route),
        call_ensures(Pending::<S, M>::send_for_input, (other, hid_input), expected),
    ensures
        same_route(route, expected),
        final(pending)@ == final(other)@,
{
}

/// A report that cannot be delivered is an error that names where it was to go.
pub proof fn law_undelivered_reports<S>(route: &Route<S>, error: SnapiError)
    requires
        call_ensures(Route::<S>::undelivered, (route,), error),
    ensures
        error matches SnapiError::Channel { name } && name@ == match *route {
            Route::Others => "others"@,
            Route::Single(_) => "pending single"@,
            Route::Multiple => "pending multiple"@,
        },
{
}

} // verus!
