//! How attributes are talked about.

use vstd::prelude::*;

use crate::laws::commands::{bytes_of, is_outcome, says_success};
use crate::laws::packets::{lemma_same_error, same_error};
use crate::laws::values::{lemma_same_response, same_optional_value, same_response};
use crate::scanner::snapi::collate::views;
use crate::scanner::snapi::packet::{
    encode_attribute_request, SnapiAttributeResponse, SnapiAttributeValue, SnapiOutput,
};
use crate::scanner::snapi::{
    AttributeExchange, AttributeIdScan, AttributeRead, AttributeReadStep, AttributeReadView,
    ExchangeAction, HidOutput, Snapi, SnapiError,
};

verus! {

/// An exchange begins with the packets of its request, of which none is
/// confirmed.
pub proof fn law_exchange_begins(
    request: &[u8],
    exchange: AttributeExchange,
    packets: Vec<Vec<u8>>,
)
    requires
        request@.len() <= u16::MAX,
        call_ensures(Snapi::write_attribute_command, (request,), exchange),
        call_ensures(encode_attribute_request, (request,), packets),
    ensures
        exchange@.confirmed == 0,
        exchange@.packets.len() == packets@.len(),
        forall|i: int|
            0 <= i < packets@.len() ==> #[trigger] exchange@.packets[i] == packets@[i]@,
{
    assert forall|i: int| 0 <= i < packets@.len() implies #[trigger] exchange@.packets[i]
        == packets@[i]@ by {
        assert(views(packets@)[i] == packets@[i]@);
    }
}

/// What is written next is the first packet that is not confirmed, as a command
/// of attributes whose status is read. Where there is none, the answer is waited
/// for.
pub proof fn law_next_packet_is_written(exchange: &AttributeExchange, action: ExchangeAction)
    requires
        call_ensures(AttributeExchange::next, (exchange,), action),
    ensures
        match action {
            ExchangeAction::Write(command) => {
                &&& exchange@.confirmed < exchange@.packets.len()
                &&& command.packet@ == exchange@.packets[exchange@.confirmed]
                &&& command.hid_output is Attribute
                &&& command.read_status
            },
            ExchangeAction::Await => exchange@.confirmed >= exchange@.packets.len(),
        },
{
}

/// A packet is confirmed by a report that says so, and by nothing else.
pub proof fn law_packet_is_confirmed(
    exchange: &mut AttributeExchange,
    report: Option<&[u8]>,
    result: Result<(), SnapiError>,
)
    requires
        report matches Some(report) ==> report@.len() > 0,
        call_ensures(AttributeExchange::confirm, (exchange, report), result),
    ensures
        is_outcome(HidOutput::Attribute, bytes_of(report), result),
        final(exchange)@.packets == old(exchange)@.packets,
        final(exchange)@.confirmed == if report is Some && says_success(
            report->Some_0@,
            HidOutput::Attribute,
        ) {
            old(exchange)@.confirmed + 1
        } else {
            old(exchange)@.confirmed
        },
{
}

/// While an answer is waited for, a report is processed as any other. A whole
/// answer is the answer, nothing is waited over, and any other output is an
/// error with the first byte of the report.
pub proof fn law_answer_is_waited_for(
    exchange: &AttributeExchange,
    device: &mut Snapi,
    report: Option<Vec<u8>>,
    result: Result<Option<SnapiAttributeResponse>, SnapiError>,
    other: &mut Snapi,
    data: Vec<u8>,
    output: Result<Option<SnapiOutput>, SnapiError>,
)
    requires
        old(other)@ == old(device)@,
        report matches Some(report) ==> report@ == data@,
        call_ensures(AttributeExchange::receive, (exchange, device, report), result),
        call_ensures(Snapi::process_packet, (other, data), output),
    ensures
        report is None ==> final(device)@ == old(device)@ && (result matches Err(
            SnapiError::Channel { name },
        ) && name@ == "attribute response"@),
        report is Some ==> final(device)@ == final(other)@ && match output {
            Ok(Some(SnapiOutput::Attribute(response))) => result matches Ok(Some(answer))
                && same_response(answer, response),
            Ok(Some(_)) => result matches Err(SnapiError::UnexpectedValue { value, name }) && value
                == data@[0] && name@ == "attribute"@,
            Ok(None) => result matches Ok(None),
            Err(error) => result matches Err(other) && same_error(other, error),
        },
{
    if report is Some {
        if let (Ok(Some(SnapiOutput::Attribute(response))), Ok(Some(answer))) = (output, result) {
            lemma_same_response(answer, response);
        }
        if let (Err(error), Err(other)) = (output, result) {
            lemma_same_error(other, error);
        }
    }
}

/// The first request for a value names the attribute.
pub proof fn law_value_is_asked_for(
    attribute_id: u16,
    read: AttributeRead,
    can_request: bool,
    request: Vec<u8>,
)
    requires
        call_ensures(Snapi::get_attribute, (attribute_id,), read),
        call_ensures(AttributeRead::can_request, (&read,), can_request),
        call_ensures(AttributeRead::request, (&read,), request),
    ensures
        can_request,
        request@.len() == 6,
        request@.take(4) == seq![0x00u8, 0x06, 0x02, 0x00],
        256 * request@[4] + request@[5] == attribute_id,
{
    assert(request@.take(4) =~= seq![0x00u8, 0x06, 0x02, 0x00]);
}

/// Where the first answer holds a value, or says that there is none, this is the
/// outcome. Any other answer is an error, and so is an error that does not tell
/// of a value that came in part.
pub proof fn law_first_answer_is_the_outcome(
    attribute_id: u16,
    read: AttributeRead,
    answer: Result<SnapiAttributeResponse, SnapiError>,
    step: AttributeReadStep,
)
    requires
        call_ensures(Snapi::get_attribute, (attribute_id,), read),
        call_ensures(AttributeRead::step, (read, answer), step),
    ensures
        match answer {
            Ok(SnapiAttributeResponse::Get(value)) => match step {
                AttributeReadStep::Done(Ok(outcome)) => same_optional_value(outcome, value),
                _ => false,
            },
            Ok(_) => match step {
                AttributeReadStep::Done(Err(SnapiError::MismatchedData { name })) => name@
                    == "attribute get"@,
                _ => false,
            },
            Err(SnapiError::PartialData { .. }) => true,
            Err(error) => match step {
                AttributeReadStep::Done(Err(outcome)) => same_error(outcome, error),
                _ => false,
            },
        },
{
    if let Ok(SnapiAttributeResponse::Get(value)) = answer {
        if let AttributeReadStep::Done(Ok(outcome)) = step {
            if let (Some(outcome), Some(value)) = (outcome, value) {
                assert(outcome@ == value@);
            }
        }
    }
}

/// The steps by which a long value is read: the first answer holds a part of it,
/// and each piece is taken by the reading that the one before it left.
pub open spec fn are_readings(
    attribute_id: u16,
    expected: usize,
    got: Vec<u8>,
    pieces: Seq<Vec<u8>>,
    first: AttributeRead,
    readings: Seq<AttributeRead>,
    outcome: AttributeReadStep,
) -> bool {
    &&& readings.len() == pieces.len()
    &&& pieces.len() > 0
    &&& call_ensures(Snapi::get_attribute, (attribute_id,), first)
    &&& call_ensures(
        AttributeRead::step,
        (first, Err::<SnapiAttributeResponse, _>(SnapiError::PartialData { expected, got })),
        AttributeReadStep::Continue(readings[0]),
    )
    &&& forall|i: int|
        0 <= i < pieces.len() - 1 ==> #[trigger] call_ensures(
            AttributeRead::step,
            (readings[i], Ok::<_, SnapiError>(SnapiAttributeResponse::GetOffset(pieces[i]))),
            AttributeReadStep::Continue(readings[i + 1]),
        )
    &&& call_ensures(
        AttributeRead::step,
        (
            readings[pieces.len() - 1],
            Ok::<_, SnapiError>(SnapiAttributeResponse::GetOffset(pieces[pieces.len() - 1])),
        ),
        outcome,
    )
}

/// The part that came first and the first `n` pieces, one after the other.
pub open spec fn fetched(got: Vec<u8>, pieces: Seq<Vec<u8>>, n: int) -> Seq<u8> {
    got@ + pieces.take(n).map_values(|piece: Vec<u8>| piece@).flatten()
}

proof fn lemma_fetched_grows(got: Vec<u8>, pieces: Seq<Vec<u8>>, n: int)
    requires
        0 <= n < pieces.len(),
    ensures
        fetched(got, pieces, n + 1) == fetched(got, pieces, n) + pieces[n]@,
        fetched(got, pieces, 0) == got@,
{
    let some = pieces.take(n).map_values(|piece: Vec<u8>| piece@);
    let more = pieces.take(n + 1).map_values(|piece: Vec<u8>| piece@);
    some.lemma_flatten_and_flatten_alt_are_equivalent();
    more.lemma_flatten_and_flatten_alt_are_equivalent();
    assert(more.drop_last() =~= some);
    assert(fetched(got, pieces, n + 1) =~= fetched(got, pieces, n) + pieces[n]@);
    let none = pieces.take(0).map_values(|piece: Vec<u8>| piece@);
    none.lemma_flatten_and_flatten_alt_are_equivalent();
    assert(none.len() == 0);
    assert(fetched(got, pieces, 0) =~= got@);
}

proof fn lemma_readings(
    attribute_id: u16,
    expected: usize,
    got: Vec<u8>,
    pieces: Seq<Vec<u8>>,
    first: AttributeRead,
    readings: Seq<AttributeRead>,
    outcome: AttributeReadStep,
    n: int,
)
    requires
        are_readings(attribute_id, expected, got, pieces, first, readings, outcome),
        0 <= n < pieces.len(),
    ensures
        readings[n]@ == (AttributeReadView::Rest {
            attribute_id,
            expected: expected as int,
            got: fetched(got, pieces, n),
        }),
        fetched(got, pieces, n).len() < expected,
    decreases n,
{
    lemma_fetched_grows(got, pieces, 0);
    if n == 0 {
        let step = AttributeReadStep::Continue(readings[0]);
        assert(step@ is Continue);
    } else {
        lemma_readings(attribute_id, expected, got, pieces, first, readings, outcome, n - 1);
        lemma_fetched_grows(got, pieces, n - 1);
        assert(call_ensures(
            AttributeRead::step,
            (readings[n - 1], Ok::<_, SnapiError>(SnapiAttributeResponse::GetOffset(pieces[n - 1]))),
            AttributeReadStep::Continue(readings[n - 1 + 1]),
        ));
        let step = AttributeReadStep::Continue(readings[n]);
        assert(step@ is Continue);
    }
}

/// A long value is the part that came first and the pieces, one after the other,
/// as soon as they are as long as the whole, and not before. Each request names
/// the attribute and the number of bytes that are there.
pub proof fn law_long_value_is_fetched(
    attribute_id: u16,
    expected: usize,
    got: Vec<u8>,
    pieces: Seq<Vec<u8>>,
    first: AttributeRead,
    readings: Seq<AttributeRead>,
    outcome: AttributeReadStep,
    place: int,
    can_request: bool,
    request: Vec<u8>,
)
    requires
        are_readings(attribute_id, expected, got, pieces, first, readings, outcome),
        0 <= place < pieces.len(),
        call_ensures(AttributeRead::can_request, (&readings[place],), can_request),
        can_request ==> call_ensures(AttributeRead::request, (&readings[place],), request),
    ensures
        ({
            let all = fetched(got, pieces, pieces.len() as int);
            match outcome {
                AttributeReadStep::Continue(_) => all.len() < expected,
                AttributeReadStep::Done(Ok(Some(SnapiAttributeValue::Array(bytes)))) => all.len()
                    >= expected && bytes@ == all,
                _ => false,
            }
        }),
        can_request <==> fetched(got, pieces, place).len() <= 0xFFFF,
        can_request ==> {
            &&& request@.len() == 8
            &&& request@.take(4) == seq![0x00u8, 0x08, 0x04, 0x00]
            &&& 256 * request@[4] + request@[5] == attribute_id
            &&& 256 * request@[6] + request@[7] == fetched(got, pieces, place).len()
        },
{
    let last = pieces.len() - 1;
    lemma_readings(attribute_id, expected, got, pieces, first, readings, outcome, last);
    lemma_readings(attribute_id, expected, got, pieces, first, readings, outcome, place);
    lemma_fetched_grows(got, pieces, last);
    if let AttributeReadStep::Done(Ok(Some(value))) = outcome {
        assert(value@ is Array);
    }
    if can_request {
        assert(request@.take(4) =~= seq![0x00u8, 0x08, 0x04, 0x00]);
    }
}

/// A first part that is long enough is the value, and one that is not is followed
/// by more.
pub proof fn law_first_part(
    attribute_id: u16,
    read: AttributeRead,
    expected: usize,
    got: Vec<u8>,
    step: AttributeReadStep,
)
    requires
        call_ensures(Snapi::get_attribute, (attribute_id,), read),
        call_ensures(
            AttributeRead::step,
            (read, Err::<SnapiAttributeResponse, _>(SnapiError::PartialData { expected, got })),
            step,
        ),
    ensures
        match step {
            AttributeReadStep::Continue(_) => got@.len() < expected,
            AttributeReadStep::Done(Ok(Some(SnapiAttributeValue::Array(bytes)))) => got@.len()
                >= expected && bytes@ == got@,
            _ => false,
        },
{
    if let AttributeReadStep::Done(Ok(Some(value))) = step {
        assert(value@ is Array);
    }
}

/// While a long value is read, any answer but a piece of it is an error.
pub proof fn law_rest_has_to_be_pieces(
    attribute_id: u16,
    expected: usize,
    got: Vec<u8>,
    pieces: Seq<Vec<u8>>,
    first: AttributeRead,
    readings: Seq<AttributeRead>,
    outcome: AttributeReadStep,
    place: int,
    answer: Result<SnapiAttributeResponse, SnapiError>,
    step: AttributeReadStep,
)
    requires
        are_readings(attribute_id, expected, got, pieces, first, readings, outcome),
        0 <= place < pieces.len(),
        call_ensures(AttributeRead::step, (readings[place], answer), step),
    ensures
        match answer {
            Ok(SnapiAttributeResponse::GetOffset(_)) => true,
            Ok(_) => match step {
                AttributeReadStep::Done(Err(SnapiError::MismatchedData { name })) => name@
                    == "attribute get offset"@,
                _ => false,
            },
            Err(error) => match step {
                AttributeReadStep::Done(Err(outcome)) => same_error(outcome, error),
                _ => false,
            },
        },
{
    lemma_readings(attribute_id, expected, got, pieces, first, readings, outcome, place);
}

/// The search for numbers begins at zero with none found.
pub proof fn law_search_begins(scan: AttributeIdScan, request: Vec<u8>, ids: Vec<u16>)
    requires
        call_ensures(Snapi::get_all_attribute_ids, (), scan),
        call_ensures(AttributeIdScan::request, (&scan,), request),
        call_ensures(AttributeIdScan::into_ids, (scan,), ids),
    ensures
        request@ == seq![0x00u8, 0x06, 0x01, 0x00, 0x00, 0x00],
        ids@.len() == 0,
{
    assert(request@ =~= seq![0x00u8, 0x06, 0x01, 0x00, 0x00, 0x00]);
}

/// A batch ends the search exactly if it is empty or its last number is 0xFFFF.
/// All its numbers but that one are found, behind those that were found before.
/// After a batch that does not end the search, the next one is asked for from
/// right behind its last number.
pub proof fn law_batch_is_taken(
    scan: &mut AttributeIdScan,
    batch: Vec<u16>,
    over: bool,
    before: Vec<u16>,
    after: Vec<u16>,
    request: Vec<u8>,
)
    requires
        call_ensures(AttributeIdScan::into_ids, (*old(scan),), before),
        call_ensures(AttributeIdScan::receive, (scan, batch), over),
        call_ensures(AttributeIdScan::into_ids, (*final(scan),), after),
        call_ensures(AttributeIdScan::request, (&*final(scan),), request),
    ensures
        over <==> batch@.len() == 0 || batch@[batch@.len() - 1] == 0xFFFF,
        after@.len() == before@.len() + batch@.len() - (if over && batch@.len() > 0 {
            1int
        } else {
            0
        }),
        forall|i: int|
            0 <= i < after@.len() ==> #[trigger] after@[i] == if i < before@.len() {
                before@[i]
            } else {
                batch@[i - before@.len()]
            },
        !over ==> {
            &&& request@.len() == 6
            &&& request@.take(4) == seq![0x00u8, 0x06, 0x01, 0x00]
            &&& 256 * request@[4] + request@[5] == batch@[batch@.len() - 1] + 1
        },
{
    assert(after@ == old(scan)@.after(batch@).ids);
    assert(before@ == old(scan)@.ids);
    if !over {
        assert(request@.take(4) =~= seq![0x00u8, 0x06, 0x01, 0x00]);
    }
}

} // verus!
