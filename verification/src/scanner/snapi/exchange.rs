//! The order of an exchange: what is written next, and when it is over.

use vstd::prelude::*;

use crate::scanner::snapi::attribute::{
    law_partial_value_is_short, option_result_view, SnapiAttributeResponse,
    SnapiAttributeResponseView, SnapiAttributeValue, SnapiAttributeValueView,
};
use crate::scanner::snapi::collate::{views, SnapiOutput, SnapiOutputView};
use crate::scanner::snapi::device::{
    ids_request, offset_request, status_checked, value_request, Command, CommandView, Snapi,
};
use crate::scanner::snapi::error::{result_view, SnapiError, SnapiErrorView};
use crate::scanner::snapi::report::HidOutput;
use crate::scanner::snapi::request::{encode_attribute_request, request_packets};
use crate::wire::{copy_all, push_be16, push_bytes};

verus! {

/// What the host does next in an attribute exchange.
#[derive(Debug)]
pub enum ExchangeAction {
    /// It sends a command and reads its status.
    Write(Command),
    /// It waits for a part of the answer.
    Await,
}

/// One attribute request and its answer.
///
/// The packets of the request are written one after the other, each one once
/// the device has confirmed the one before it. Then the parts of the answer are
/// taken until it is whole.
pub struct AttributeExchange {
    packets: Vec<Vec<u8>>,
    confirmed: usize,
}

/// An [`AttributeExchange`] as a mathematical value.
#[verifier::ext_equal]
pub struct AttributeExchangeView {
    /// The packets of the request.
    pub packets: Seq<Seq<u8>>,
    /// How many of them the device has confirmed.
    pub confirmed: int,
}

impl View for AttributeExchange {
    type V = AttributeExchangeView;

    closed spec fn view(&self) -> AttributeExchangeView {
        AttributeExchangeView { packets: views(self.packets@), confirmed: self.confirmed as int }
    }
}

impl AttributeExchangeView {
    /// The exchange before anything is written.
    pub open spec fn start(request: Seq<u8>) -> AttributeExchangeView {
        AttributeExchangeView { packets: request_packets(request), confirmed: 0 }
    }

    /// The command to send next, if the request is not written yet.
    pub open spec fn next_write(self) -> Option<CommandView> {
        if self.confirmed < self.packets.len() {
            Some(
                CommandView {
                    hid_output: HidOutput::Attribute,
                    packet: self.packets[self.confirmed],
                    read_status: true,
                },
            )
        } else {
            None
        }
    }

    /// The exchange after the status of the command was read.
    pub open spec fn after_status(self, report: Option<Seq<u8>>) -> AttributeExchangeView {
        if status_checked(HidOutput::Attribute, report) is Ok {
            AttributeExchangeView { confirmed: self.confirmed + 1, ..self }
        } else {
            self
        }
    }

    /// The exchange after several statuses were read.
    pub open spec fn after_statuses(self, reports: Seq<Option<Seq<u8>>>) -> AttributeExchangeView
        decreases reports.len(),
    {
        if reports.len() == 0 {
            self
        } else {
            self.after_statuses(reports.drop_last()).after_status(reports.last())
        }
    }
}

/// While the device confirms every packet, the packets of the request are
/// written in order, each one once, and then nothing more.
pub proof fn law_request_is_written_in_order(request: Seq<u8>, reports: Seq<Option<Seq<u8>>>)
    requires
        reports.len() <= request_packets(request).len(),
        forall|i: int|
            0 <= i < reports.len() ==> status_checked(
                HidOutput::Attribute,
                #[trigger] reports[i],
            ) is Ok,
    ensures
        ({
            let exchange = AttributeExchangeView::start(request).after_statuses(reports);
            match exchange.next_write() {
                Some(command) => reports.len() < request_packets(request).len() && command.packet
                    == request_packets(request)[reports.len() as int] && command.is_labelled(),
                None => reports.len() == request_packets(request).len(),
            }
        }),
{
    lemma_after_statuses(request, reports);
}

proof fn lemma_after_statuses(request: Seq<u8>, reports: Seq<Option<Seq<u8>>>)
    requires
        forall|i: int|
            0 <= i < reports.len() ==> status_checked(
                HidOutput::Attribute,
                #[trigger] reports[i],
            ) is Ok,
    ensures
        AttributeExchangeView::start(request).after_statuses(reports) == (AttributeExchangeView {
            packets: request_packets(request),
            confirmed: reports.len() as int,
        }),
    decreases reports.len(),
{
    if reports.len() > 0 {
        lemma_after_statuses(request, reports.drop_last());
        assert(status_checked(HidOutput::Attribute, reports[reports.len() - 1]) is Ok);
    }
}

/// What an output means to a host that waits for an answer: the answer, an
/// error if it is anything else, or nothing yet. `value` is the first byte of
/// the report that it came of.
pub open spec fn answer_of(
    value: u8,
    processed: Result<Option<SnapiOutputView>, SnapiErrorView>,
) -> Result<Option<SnapiAttributeResponseView>, SnapiErrorView> {
    match processed {
        Ok(Some(SnapiOutputView::Attribute(response))) => Ok(Some(response)),
        Ok(Some(_)) => Err(SnapiErrorView::UnexpectedValue { value, name: "attribute"@ }),
        Ok(None) => Ok(None),
        Err(error) => Err(error),
    }
}

impl AttributeExchange {
    #[verifier::type_invariant]
    closed spec fn inv(self) -> bool {
        self.confirmed <= self.packets@.len()
    }

    /// Tells what to do next.
    pub fn next(&self) -> (action: ExchangeAction)
        ensures
            match action {
                ExchangeAction::Write(command) => self@.next_write() == Some(command@),
                ExchangeAction::Await => self@.next_write() is None,
            },
    {
        proof {
            use_type_invariant(self);
        }
        if self.confirmed < self.packets.len() {
            let command = Command {
                hid_output: HidOutput::Attribute,
                packet: copy_all(self.packets[self.confirmed].as_slice()),
                read_status: true,
            };
            ExchangeAction::Write(command)
        } else {
            ExchangeAction::Await
        }
    }

    /// Takes the status of the command that was sent. There is no report where
    /// the reports have ended.
    pub fn confirm(&mut self, report: Option<&[u8]>) -> (result: Result<(), SnapiError>)
        requires
            old(self)@.next_write() is Some,
            report matches Some(report) ==> report@.len() > 0,
        ensures
            ({
                let report = match report {
                    Some(report) => Some(report@),
                    None => None,
                };
                &&& final(self)@ == old(self)@.after_status(report)
                &&& result_view(result) == status_checked(HidOutput::Attribute, report)
            }),
    {
        proof {
            use_type_invariant(&*self);
            assert(self.confirmed < self.packets.len());
        }
        match Snapi::check_status(HidOutput::Attribute, report) {
            Ok(()) => {
                self.confirmed = self.confirmed + 1;
                Ok(())
            },
            Err(error) => Err(error),
        }
    }

    /// Takes a report while the answer is waited for. The report has to be
    /// acknowledged first. There is no report where the reports have ended.
    pub fn receive(&self, device: &mut Snapi, report: Option<Vec<u8>>) -> (result: Result<
        Option<SnapiAttributeResponse>,
        SnapiError,
    >)
        requires
            self@.next_write() is None,
            report matches Some(report) ==> old(device)@.can_process(report@),
        ensures
            match report {
                Some(report) => {
                    &&& final(device)@ == old(device)@.processed(report@).0
                    &&& option_result_view(result) == answer_of(
                        report@[0],
                        old(device)@.processed(report@).1,
                    )
                },
                None => {
                    &&& final(device)@ == old(device)@
                    &&& option_result_view(result) == Err::<
                        Option<SnapiAttributeResponseView>,
                        SnapiErrorView,
                    >(SnapiErrorView::Channel { name: "attribute response"@ })
                },
            },
    {
        let report = match report {
            Some(report) => report,
            None => {
                return Err(SnapiError::Channel { name: "attribute response" });
            },
        };
        let value = report[0];
        match device.process_packet(report) {
            Ok(Some(SnapiOutput::Attribute(response))) => Ok(Some(response)),
            Ok(Some(_)) => Err(
                SnapiError::UnexpectedValue { value, name: "attribute".to_owned() },
            ),
            Ok(None) => Ok(None),
            Err(error) => Err(error),
        }
    }
}

/// What comes next in reading an attribute.
#[derive(Debug)]
pub enum AttributeReadStep {
    /// Another request has to be made.
    Continue(AttributeRead),
    /// This is the outcome.
    Done(Result<Option<SnapiAttributeValue>, SnapiError>),
}

/// The reading of an attribute.
///
/// A long value comes only in part. The rest of it is asked for piece by piece.
#[derive(Debug)]
pub struct AttributeRead {
    attribute_id: u16,
    partial: Option<(usize, Vec<u8>)>,
}

/// An [`AttributeRead`] as a mathematical value.
#[verifier::ext_equal]
pub enum AttributeReadView {
    /// Nothing was received yet.
    First { attribute_id: u16 },
    /// The beginning of a long value was received.
    Rest { attribute_id: u16, expected: int, got: Seq<u8> },
}

/// An [`AttributeReadStep`] as a mathematical value.
#[verifier::ext_equal]
pub enum AttributeReadStepView {
    Continue(AttributeReadView),
    Done(Result<Option<SnapiAttributeValueView>, SnapiErrorView>),
}

impl View for AttributeRead {
    type V = AttributeReadView;

    closed spec fn view(&self) -> AttributeReadView {
        match self.partial {
            None => AttributeReadView::First { attribute_id: self.attribute_id },
            Some((expected, got)) => AttributeReadView::Rest {
                attribute_id: self.attribute_id,
                expected: expected as int,
                got: got@,
            },
        }
    }
}

impl View for AttributeReadStep {
    type V = AttributeReadStepView;

    open spec fn view(&self) -> AttributeReadStepView {
        match *self {
            AttributeReadStep::Continue(read) => AttributeReadStepView::Continue(read@),
            AttributeReadStep::Done(result) => AttributeReadStepView::Done(
                option_result_view(result),
            ),
        }
    }
}

impl AttributeReadView {
    /// Whether the place of the rest can be told in a request.
    pub open spec fn can_request(self) -> bool {
        match self {
            AttributeReadView::First { .. } => true,
            AttributeReadView::Rest { got, .. } => got.len() <= u16::MAX,
        }
    }

    /// The request to make.
    pub open spec fn request(self) -> Seq<u8>
        recommends
            self.can_request(),
    {
        match self {
            AttributeReadView::First { attribute_id } => value_request(attribute_id),
            AttributeReadView::Rest { attribute_id, got, .. } => offset_request(
                attribute_id,
                got.len() as u16,
            ),
        }
    }

    /// What comes next when this much of a long value was received.
    pub open spec fn so_far(
        attribute_id: u16,
        expected: int,
        got: Seq<u8>,
    ) -> AttributeReadStepView {
        if got.len() < expected {
            AttributeReadStepView::Continue(
                AttributeReadView::Rest { attribute_id, expected, got },
            )
        } else {
            AttributeReadStepView::Done(Ok(Some(SnapiAttributeValueView::Array(got))))
        }
    }

    /// What comes next after the answer to the request.
    pub open spec fn step(
        self,
        answer: Result<SnapiAttributeResponseView, SnapiErrorView>,
    ) -> AttributeReadStepView {
        match self {
            AttributeReadView::First { attribute_id } => match answer {
                Ok(SnapiAttributeResponseView::Get(value)) => AttributeReadStepView::Done(
                    Ok(value),
                ),
                Ok(_) => AttributeReadStepView::Done(
                    Err(SnapiErrorView::MismatchedData { name: "attribute get"@ }),
                ),
                Err(SnapiErrorView::PartialData { expected, got }) => Self::so_far(
                    attribute_id,
                    expected,
                    got,
                ),
                Err(error) => AttributeReadStepView::Done(Err(error)),
            },
            AttributeReadView::Rest { attribute_id, expected, got } => match answer {
                Ok(SnapiAttributeResponseView::GetOffset(data)) => Self::so_far(
                    attribute_id,
                    expected,
                    got + data,
                ),
                Ok(_) => AttributeReadStepView::Done(
                    Err(SnapiErrorView::MismatchedData { name: "attribute get offset"@ }),
                ),
                Err(error) => AttributeReadStepView::Done(Err(error)),
            },
        }
    }

    /// What comes next after several pieces of the rest.
    pub open spec fn after_pieces(self, pieces: Seq<Seq<u8>>) -> AttributeReadStepView
        decreases pieces.len(),
    {
        if pieces.len() == 0 {
            AttributeReadStepView::Continue(self)
        } else {
            match self.after_pieces(pieces.drop_last()) {
                AttributeReadStepView::Continue(read) => read.step(
                    Ok(SnapiAttributeResponseView::GetOffset(pieces.last())),
                ),
                done => done,
            }
        }
    }
}

/// Pieces, one after the other.
pub open spec fn joined(pieces: Seq<Seq<u8>>) -> Seq<u8>
    decreases pieces.len(),
{
    if pieces.len() == 0 {
        Seq::empty()
    } else {
        joined(pieces.drop_last()) + pieces.last()
    }
}

/// A long value is the part that came first and the pieces of the rest, one
/// after the other: reading goes on while they are shorter than the whole, and
/// ends with them as soon as they are not. Each request asks for what follows
/// the bytes that are there.
pub proof fn law_long_value_is_read_whole(
    attribute_id: u16,
    expected: int,
    got: Seq<u8>,
    pieces: Seq<Seq<u8>>,
)
    requires
        forall|n: int|
            0 <= n < pieces.len() ==> (got + joined(#[trigger] pieces.take(n))).len() < expected,
    ensures
        ({
            let first = AttributeReadView::Rest { attribute_id, expected, got };
            let all = got + joined(pieces);
            pieces.len() > 0 ==> match first.after_pieces(pieces) {
                AttributeReadStepView::Continue(read) => all.len() < expected && read.request()
                    == offset_request(attribute_id, all.len() as u16),
                AttributeReadStepView::Done(result) => all.len() >= expected && result
                    == Ok::<_, SnapiErrorView>(Some(SnapiAttributeValueView::Array(all))),
            }
        }),
{
    if pieces.len() > 0 {
        lemma_after_pieces(attribute_id, expected, got, pieces);
    }
}

/// A long attribute is fetched whole: where the first answer holds only the
/// beginning of a value and the pieces of the rest make up what is missing, the
/// outcome is the beginning and the pieces, one after the other. The place of
/// each piece can be told in its request.
pub proof fn law_long_attribute_is_fetched(
    attribute_id: u16,
    answer: Seq<u8>,
    pieces: Seq<Seq<u8>>,
)
    requires
        SnapiAttributeResponseView::can_decode(answer),
        SnapiAttributeResponseView::decoded(answer) matches Err(
            SnapiErrorView::PartialData { expected, got },
        ) && (got + joined(pieces)).len() == expected && forall|n: int|
            0 <= n < pieces.len() ==> (got + joined(#[trigger] pieces.take(n))).len() < expected,
    ensures
        ({
            let first = AttributeReadView::First { attribute_id };
            let got = SnapiAttributeResponseView::decoded(answer)->Err_0->got;
            &&& first.step(SnapiAttributeResponseView::decoded(answer)) matches
                AttributeReadStepView::Continue(rest) && rest.after_pieces(pieces)
                == AttributeReadStepView::Done(
                Ok(Some(SnapiAttributeValueView::Array(got + joined(pieces)))),
            ) && forall|n: int|
                0 <= n < pieces.len() ==> (rest.after_pieces(#[trigger] pieces.take(n)) matches
                    AttributeReadStepView::Continue(read) && read.can_request()
                    && read.request() == offset_request(
                    attribute_id,
                    (got + joined(pieces.take(n))).len() as u16,
                ))
        }),
{
    law_partial_value_is_short(answer);
    if let Err(SnapiErrorView::PartialData { expected, got }) =
        SnapiAttributeResponseView::decoded(answer) {
        let rest = AttributeReadView::Rest { attribute_id, expected, got };
        if pieces.len() == 0 {
            assert(got + joined(pieces) =~= got);
        }
        lemma_after_pieces(attribute_id, expected, got, pieces);
        assert forall|n: int| 0 <= n < pieces.len() implies (rest.after_pieces(
            #[trigger] pieces.take(n),
        ) matches AttributeReadStepView::Continue(read) && read.can_request() && read.request()
            == offset_request(attribute_id, (got + joined(pieces.take(n))).len() as u16)) by {
            let some = pieces.take(n);
            assert forall|m: int| 0 <= m < some.len() implies (got + joined(
                #[trigger] some.take(m),
            )).len() < expected by {
                assert(some.take(m) =~= pieces.take(m));
            }
            if n == 0 {
                assert(got + joined(some) =~= got);
            } else {
                lemma_after_pieces(attribute_id, expected, got, some);
            }
        }
    }
}

proof fn lemma_after_pieces(
    attribute_id: u16,
    expected: int,
    got: Seq<u8>,
    pieces: Seq<Seq<u8>>,
)
    requires
        pieces.len() > 0,
        forall|n: int|
            0 <= n < pieces.len() ==> (got + joined(#[trigger] pieces.take(n))).len() < expected,
    ensures
        (AttributeReadView::Rest { attribute_id, expected, got }).after_pieces(pieces)
            == AttributeReadView::so_far(attribute_id, expected, got + joined(pieces)),
    decreases pieces.len(),
{
    let first = AttributeReadView::Rest { attribute_id, expected, got };
    let before = pieces.drop_last();
    assert(before =~= pieces.take(pieces.len() - 1));
    assert(got + joined(pieces) =~= got + joined(before) + pieces.last());
    if before.len() == 0 {
        assert(got + joined(before) =~= got);
    } else {
        assert forall|n: int| 0 <= n < before.len() implies (got + joined(
            #[trigger] before.take(n),
        )).len() < expected by {
            assert(before.take(n) =~= pieces.take(n));
        }
        lemma_after_pieces(attribute_id, expected, got, before);
        assert((got + joined(pieces.take(pieces.len() - 1))).len() < expected);
    }
}

/// Reads on, or ends with what there is.
fn so_far(attribute_id: u16, expected: usize, got: Vec<u8>) -> (step: AttributeReadStep)
    ensures
        step@ == AttributeReadView::so_far(attribute_id, expected as int, got@),
{
    if got.len() < expected {
        AttributeReadStep::Continue(
            AttributeRead { attribute_id, partial: Some((expected, got)) },
        )
    } else {
        AttributeReadStep::Done(Ok(Some(SnapiAttributeValue::Array(got))))
    }
}

impl AttributeRead {
    /// Whether the place of the rest can be told in a request.
    pub fn can_request(&self) -> (result: bool)
        ensures
            result == self@.can_request(),
    {
        match &self.partial {
            None => true,
            Some((_, got)) => got.len() <= u16::MAX as usize,
        }
    }

    /// The request to make.
    pub fn request(&self) -> (request: Vec<u8>)
        requires
            self@.can_request(),
        ensures
            request@ == self@.request(),
    {
        let request = match &self.partial {
            None => {
                let mut request: Vec<u8> = vec![0x00, 0x06, 0x02, 0x00];
                push_be16(&mut request, self.attribute_id);
                request
            },
            Some((_, got)) => {
                let mut request: Vec<u8> = vec![0x00, 0x08, 0x04, 0x00];
                push_be16(&mut request, self.attribute_id);
                push_be16(&mut request, got.len() as u16);
                request
            },
        };
        proof {
            assert(request@ =~= self@.request());
        }
        request
    }

    /// Takes the answer to the request.
    pub fn step(self, answer: Result<SnapiAttributeResponse, SnapiError>) -> (step:
        AttributeReadStep)
        ensures
            step@ == self@.step(result_view(answer)),
    {
        let attribute_id = self.attribute_id;
        match self.partial {
            None => match answer {
                Ok(SnapiAttributeResponse::Get(value)) => AttributeReadStep::Done(Ok(value)),
                Ok(_) => AttributeReadStep::Done(
                    Err(SnapiError::MismatchedData { name: "attribute get" }),
                ),
                Err(SnapiError::PartialData { expected, got }) => so_far(
                    attribute_id,
                    expected,
                    got,
                ),
                Err(error) => AttributeReadStep::Done(Err(error)),
            },
            Some((expected, got)) => match answer {
                Ok(SnapiAttributeResponse::GetOffset(data)) => {
                    let mut got = got;
                    push_bytes(&mut got, data.as_slice());
                    so_far(attribute_id, expected, got)
                },
                Ok(_) => AttributeReadStep::Done(
                    Err(SnapiError::MismatchedData { name: "attribute get offset" }),
                ),
                Err(error) => AttributeReadStep::Done(Err(error)),
            },
        }
    }
}

/// The search for all attribute numbers.
///
/// The numbers come in batches, each one asked for from behind the last number
/// of the one before it. An empty batch, or the number that marks the end, ends
/// the search.
pub struct AttributeIdScan {
    ids: Vec<u16>,
    offset: u16,
}

/// An [`AttributeIdScan`] as a mathematical value.
#[verifier::ext_equal]
pub struct AttributeIdScanView {
    /// The numbers that were found.
    pub ids: Seq<u16>,
    /// Where the next batch starts.
    pub offset: u16,
}

/// The number that marks the end of all numbers.
pub const END_OF_IDS: u16 = 0xFFFF;

impl View for AttributeIdScan {
    type V = AttributeIdScanView;

    closed spec fn view(&self) -> AttributeIdScanView {
        AttributeIdScanView { ids: self.ids@, offset: self.offset }
    }
}

impl AttributeIdScanView {
    /// The search before any batch.
    pub open spec fn start() -> AttributeIdScanView {
        AttributeIdScanView { ids: Seq::empty(), offset: 0 }
    }

    /// Whether a batch ends the search.
    pub open spec fn ends_with(batch: Seq<u16>) -> bool {
        batch.len() == 0 || batch.last() == END_OF_IDS
    }

    /// The search after a batch.
    pub open spec fn after(self, batch: Seq<u16>) -> AttributeIdScanView {
        if batch.len() == 0 {
            self
        } else if batch.last() == END_OF_IDS {
            AttributeIdScanView { ids: self.ids + batch.drop_last(), ..self }
        } else {
            AttributeIdScanView {
                ids: self.ids + batch,
                offset: (batch.last() + 1) as u16,
            }
        }
    }

    /// The search after several batches.
    pub open spec fn after_batches(self, batches: Seq<Seq<u16>>) -> AttributeIdScanView
        decreases batches.len(),
    {
        if batches.len() == 0 {
            self
        } else {
            self.after_batches(batches.drop_last()).after(batches.last())
        }
    }
}

/// Batches of numbers, one after the other.
pub open spec fn joined_ids(batches: Seq<Seq<u16>>) -> Seq<u16>
    decreases batches.len(),
{
    if batches.len() == 0 {
        Seq::empty()
    } else {
        joined_ids(batches.drop_last()) + batches.last()
    }
}

/// The search finds the numbers of all batches in order, without the mark at
/// the end of the last one, and after each batch that does not end it goes on
/// right behind the batch's last number.
pub proof fn law_search_finds_all_ids(batches: Seq<Seq<u16>>)
    requires
        batches.len() > 0,
        forall|i: int|
            0 <= i < batches.len() - 1 ==> !AttributeIdScanView::ends_with(
                #[trigger] batches[i],
            ),
    ensures
        ({
            let scan = AttributeIdScanView::start().after_batches(batches);
            let last = batches.last();
            &&& scan.ids == joined_ids(batches.drop_last()) + if last.len() > 0 && last.last()
                == END_OF_IDS {
                last.drop_last()
            } else {
                last
            }
            &&& !AttributeIdScanView::ends_with(last) ==> scan.offset == last.last() + 1
        }),
    decreases batches.len(),
{
    let before = batches.drop_last();
    let scan = AttributeIdScanView::start().after_batches(before);
    if before.len() > 0 {
        assert forall|i: int| 0 <= i < before.len() - 1 implies !AttributeIdScanView::ends_with(
            #[trigger] before[i],
        ) by {
            assert(before[i] == batches[i]);
        }
        law_search_finds_all_ids(before);
        assert(!AttributeIdScanView::ends_with(batches[batches.len() - 2]));
    }
    assert(scan.ids =~= joined_ids(before));
    assert(scan.ids + Seq::<u16>::empty() =~= scan.ids);
    if batches.last().len() == 0 {
        assert(batches.last() =~= Seq::<u16>::empty());
    }
}

impl AttributeIdScan {
    /// The request to make.
    pub fn request(&self) -> (request: Vec<u8>)
        ensures
            request@ == ids_request(self@.offset),
    {
        Snapi::get_attribute_ids(self.offset)
    }

    /// Takes a batch, and tells whether the search is over.
    pub fn receive(&mut self, batch: Vec<u16>) -> (over: bool)
        ensures
            final(self)@ == old(self)@.after(batch@),
            over == AttributeIdScanView::ends_with(batch@),
    {
        let mut batch = batch;
        if batch.len() == 0 {
            return true;
        }
        let ghost whole = batch@;
        let id = batch[batch.len() - 1];
        let over = id == END_OF_IDS;
        if over {
            batch.pop();
        }
        self.ids.append(&mut batch);
        if over {
            proof {
                assert(self@.ids =~= old(self)@.after(whole).ids);
            }
        } else {
            self.offset = id + 1;
            proof {
                assert(self@.ids =~= old(self)@.after(whole).ids);
            }
        }
        over
    }

    /// The numbers that were found.
    pub fn into_ids(self) -> (ids: Vec<u16>)
        ensures
            ids@ == self@.ids,
    {
        self.ids
    }
}

impl Snapi {
    /// Begins to write an attribute request and to wait for its answer.
    pub fn write_attribute_command(request: &[u8]) -> (exchange: AttributeExchange)
        requires
            request@.len() <= u16::MAX,
        ensures
            exchange@ == AttributeExchangeView::start(request@),
    {
        AttributeExchange { packets: encode_attribute_request(request), confirmed: 0 }
    }

    /// Begins to get the value of an attribute by its number.
    pub fn get_attribute(attribute_id: u16) -> (read: AttributeRead)
        ensures
            read@ == (AttributeReadView::First { attribute_id }),
    {
        AttributeRead { attribute_id, partial: None }
    }

    /// Begins to get the numbers of all attributes.
    pub fn get_all_attribute_ids() -> (scan: AttributeIdScan)
        ensures
            scan@ == AttributeIdScanView::start(),
    {
        AttributeIdScan { ids: Vec::new(), offset: 0 }
    }
}

} // verus!
