//! Who gets a report: one who waits for its kind, or the general stream.

use std::collections::HashMap;

use vstd::prelude::*;

use crate::scanner::snapi::error::{SnapiError, SnapiErrorView};
use crate::scanner::snapi::report::HidInput;

verus! {

/// One who waits for reports of a kind: for a single one, or for any number.
pub enum PendingSender<S, M> {
    /// A single report, where it was not sent yet.
    Single(Option<S>),
    /// Any number of reports.
    Multiple(M),
}

/// Where a report goes.
#[derive(Debug)]
pub enum Route<S> {
    /// To the general stream.
    Others,
    /// To one who waits for this report only.
    Single(S),
    /// To the one who waits for any number of reports of the kind.
    Multiple,
}

impl<S> Route<S> {
    /// What a report that cannot be delivered there is an error of.
    pub open spec fn channel(self) -> Seq<char> {
        match self {
            Route::Others => "others"@,
            Route::Single(_) => "pending single"@,
            Route::Multiple => "pending multiple"@,
        }
    }

    /// The error of a report that cannot be delivered there.
    pub fn undelivered(&self) -> (error: SnapiError)
        ensures
            error@ == (SnapiErrorView::Channel { name: self.channel() }),
    {
        match self {
            Route::Others => SnapiError::Channel { name: "others" },
            Route::Single(_) => SnapiError::Channel { name: "pending single" },
            Route::Multiple => SnapiError::Channel { name: "pending multiple" },
        }
    }
}

impl<S, M> PendingSender<S, M> {
    /// Who waits after a report was sent.
    pub open spec fn after_send(self) -> PendingSender<S, M> {
        match self {
            PendingSender::Single(_) => PendingSender::Single(None),
            PendingSender::Multiple(sender) => PendingSender::Multiple(sender),
        }
    }

    /// Where a report is sent.
    pub open spec fn sent(self) -> Result<Route<S>, SnapiErrorView> {
        match self {
            PendingSender::Single(Some(sender)) => Ok(Route::Single(sender)),
            PendingSender::Single(None) => Err(
                SnapiErrorView::Channel { name: "already used single use pending sender"@ },
            ),
            PendingSender::Multiple(_) => Ok(Route::Multiple),
        }
    }

    /// Tells where to send a report. One who waits for a single report gets no
    /// other.
    pub fn send(&mut self) -> (result: Result<Route<S>, SnapiError>)
        ensures
            *final(self) == old(self).after_send(),
            routed(result) == old(self).sent(),
    {
        match self {
            PendingSender::Single(sender) => match sender.take() {
                Some(sender) => Ok(Route::Single(sender)),
                None => Err(
                    SnapiError::Channel { name: "already used single use pending sender" },
                ),
            },
            PendingSender::Multiple(_) => Ok(Route::Multiple),
        }
    }
}

/// A result whose error is taken by its view.
pub open spec fn routed<S>(result: Result<Route<S>, SnapiError>) -> Result<
    Route<S>,
    SnapiErrorView,
> {
    match result {
        Ok(route) => Ok(route),
        Err(error) => Err(error@),
    }
}

/// Those who wait for reports of a kind.
///
/// Certain commands are answered by reports that have to be kept out of the
/// general stream. They register for the kind of report that they expect.
pub struct Pending<S, M> {
    subscribers: HashMap<u16, PendingSender<S, M>>,
}

/// A [`Pending`] as a mathematical value: who waits for which kind.
#[verifier::ext_equal]
pub struct PendingView<S, M> {
    pub subscribers: Map<HidInput, PendingSender<S, M>>,
}

/// A number for a kind of report, another one for each.
spec fn number_of(hid_input: HidInput) -> u16 {
    match hid_input {
        HidInput::Unknown(code) => (0x100 + code) as u16,
        _ => hid_input.code() as u16,
    }
}

fn number(hid_input: HidInput) -> (result: u16)
    ensures
        result == number_of(hid_input),
{
    match hid_input {
        HidInput::Unknown(code) => 0x100 + code as u16,
        _ => {
            let code: u8 = hid_input.into();
            code as u16
        },
    }
}

impl<S, M> View for Pending<S, M> {
    type V = PendingView<S, M>;

    closed spec fn view(&self) -> PendingView<S, M> {
        PendingView {
            subscribers: Map::new(
                |hid_input: HidInput| self.subscribers@.contains_key(number_of(hid_input)),
                |hid_input: HidInput| self.subscribers@[number_of(hid_input)],
            ),
        }
    }
}

impl<S, M> PendingView<S, M> {
    /// Those who wait after another one began to.
    pub open spec fn registered(
        self,
        hid_input: HidInput,
        sender: PendingSender<S, M>,
    ) -> PendingView<S, M> {
        PendingView { subscribers: self.subscribers.insert(hid_input, sender) }
    }

    /// Those who wait after the one for the given kind ceased to.
    pub open spec fn finished(self, hid_input: HidInput) -> PendingView<S, M> {
        PendingView { subscribers: self.subscribers.remove(hid_input) }
    }

    /// Those who wait after a report of the given kind.
    pub open spec fn after_report(self, hid_input: HidInput) -> PendingView<S, M> {
        if self.subscribers.contains_key(hid_input) {
            self.registered(hid_input, self.subscribers[hid_input].after_send())
        } else {
            self
        }
    }

    /// Where a report of the given kind goes.
    pub open spec fn route(self, hid_input: HidInput) -> Result<Route<S>, SnapiErrorView> {
        if self.subscribers.contains_key(hid_input) {
            self.subscribers[hid_input].sent()
        } else {
            Ok(Route::Others)
        }
    }
}

/// One who waits for a single report gets the first one of the kind. A second
/// one is refused until the waiting is over, and then goes where it would have
/// gone before it, if nobody else waited.
pub proof fn law_single_report_is_delivered_once<S, M>(
    pending: PendingView<S, M>,
    hid_input: HidInput,
    sender: S,
)
    ensures
        ({
            let waiting = pending.registered(hid_input, PendingSender::Single(Some(sender)));
            let used = waiting.after_report(hid_input);
            &&& waiting.route(hid_input) == Ok::<_, SnapiErrorView>(Route::Single(sender))
            &&& used.route(hid_input) is Err
            &&& used.after_report(hid_input) == used
            &&& used.finished(hid_input).route(hid_input) == Ok::<Route<S>, SnapiErrorView>(
                Route::Others,
            )
            &&& !pending.subscribers.contains_key(hid_input) ==> used.finished(hid_input)
                == pending
        }),
{
    let waiting = pending.registered(hid_input, PendingSender::Single(Some(sender)));
    let used = waiting.after_report(hid_input);
    assert(used.after_report(hid_input) =~= used);
    if !pending.subscribers.contains_key(hid_input) {
        assert(used.finished(hid_input) =~= pending);
    }
}

/// One who waits for any number of reports gets every one of the kind.
pub proof fn law_multiple_reports_are_delivered<S, M>(
    pending: PendingView<S, M>,
    hid_input: HidInput,
    sender: M,
)
    ensures
        ({
            let waiting = pending.registered(hid_input, PendingSender::Multiple(sender));
            &&& waiting.route(hid_input) == Ok::<Route<S>, SnapiErrorView>(Route::Multiple)
            &&& waiting.after_report(hid_input) == waiting
            &&& !pending.subscribers.contains_key(hid_input) ==> waiting.finished(hid_input)
                == pending
        }),
{
    let waiting = pending.registered(hid_input, PendingSender::Multiple(sender));
    assert(waiting.after_report(hid_input) =~= waiting);
    if !pending.subscribers.contains_key(hid_input) {
        assert(waiting.finished(hid_input) =~= pending);
    }
}

/// Who waits for one kind of report has no part in where the others go.
pub proof fn law_other_reports_go_on<S, M>(
    pending: PendingView<S, M>,
    hid_input: HidInput,
    sender: PendingSender<S, M>,
    other: HidInput,
)
    requires
        other != hid_input,
    ensures
        pending.registered(hid_input, sender).route(other) == pending.route(other),
        pending.finished(hid_input).route(other) == pending.route(other),
        pending.after_report(hid_input).route(other) == pending.route(other),
{
}

impl<S, M> Pending<S, M> {
    /// Nobody waits.
    pub fn new() -> (pending: Pending<S, M>)
        ensures
            pending@.subscribers == Map::<HidInput, PendingSender<S, M>>::empty(),
    {
        broadcast use vstd::std_specs::hash::group_hash_axioms;

        let pending = Pending { subscribers: HashMap::new() };
        proof {
            assert(pending@.subscribers =~= Map::<HidInput, PendingSender<S, M>>::empty());
        }
        pending
    }

    fn register(&mut self, hid_input: HidInput, sender: PendingSender<S, M>)
        ensures
            final(self)@ == old(self)@.registered(hid_input, sender),
    {
        broadcast use vstd::std_specs::hash::group_hash_axioms;

        self.subscribers.insert(number(hid_input), sender);
        proof {
            assert(self@ =~= old(self)@.registered(hid_input, sender));
        }
    }

    /// Registers one who waits for a single report.
    pub fn input_single(&mut self, hid_input: HidInput, sender: S)
        ensures
            final(self)@ == old(self)@.registered(hid_input, PendingSender::Single(Some(sender))),
    {
        self.register(hid_input, PendingSender::Single(Some(sender)));
    }

    /// Registers one who waits for any number of reports.
    pub fn input_multi(&mut self, hid_input: HidInput, sender: M)
        ensures
            final(self)@ == old(self)@.registered(hid_input, PendingSender::Multiple(sender)),
    {
        self.register(hid_input, PendingSender::Multiple(sender));
    }

    /// Ends the waiting for a kind of report.
    pub fn finish(&mut self, hid_input: HidInput)
        ensures
            final(self)@ == old(self)@.finished(hid_input),
    {
        broadcast use vstd::std_specs::hash::group_hash_axioms;

        self.subscribers.remove(&number(hid_input));
        proof {
            assert(self@ =~= old(self)@.finished(hid_input));
        }
    }

    /// The one who waits for any number of reports of the given kind.
    pub fn multiple(&self, hid_input: HidInput) -> (sender: Option<&M>)
        ensures
            match sender {
                Some(sender) => self@.subscribers.contains_key(hid_input)
                    && self@.subscribers[hid_input] == PendingSender::<S, M>::Multiple(*sender),
                None => self@.subscribers.contains_key(hid_input)
                    ==> self@.subscribers[hid_input] is Single,
            },
    {
        broadcast use vstd::std_specs::hash::group_hash_axioms;

        match self.subscribers.get(&number(hid_input)) {
            Some(PendingSender::Multiple(sender)) => Some(sender),
            _ => None,
        }
    }

    /// Tells where a report of the given kind goes: to the one who waits for
    /// it, or else to the general stream.
    pub fn send_for_input(&mut self, hid_input: HidInput) -> (result: Result<
        Route<S>,
        SnapiError,
    >)
        ensures
            final(self)@ == old(self)@.after_report(hid_input),
            routed(result) == old(self)@.route(hid_input),
    {
        broadcast use vstd::std_specs::hash::group_hash_axioms;

        match self.subscribers.remove(&number(hid_input)) {
            Some(sender) => {
                let mut sender = sender;
                let result = sender.send();
                self.register(hid_input, sender);
                proof {
                    assert(self@ =~= old(self)@.after_report(hid_input));
                }
                result
            },
            None => {
                proof {
                    assert(self@ =~= old(self)@);
                }
                Ok(Route::Others)
            },
        }
    }

    /// Tells where a report goes, by its first byte.
    pub fn handle_read(&mut self, data: &[u8]) -> (result: Result<Route<S>, SnapiError>)
        requires
            data@.len() > 0,
        ensures
            final(self)@ == old(self)@.after_report(HidInput::of_code(data@[0])),
            routed(result) == old(self)@.route(HidInput::of_code(data@[0])),
    {
        self.send_for_input(HidInput::from_code(data[0]))
    }
}

} // verus!
