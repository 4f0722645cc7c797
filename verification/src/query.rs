//! One run of the query, as a state machine.
//!
//! A run goes through four stages in turn: it parses the command line,
//! acquires a runtime for the chain, queries the chain for the commitments and
//! reports. Each stage may fail, and a failure leads straight to the report;
//! no stage is entered twice.
//!
//! The library decides and the caller acts. [`start`] parses the command line
//! and gives the first [`Action`]; the caller performs it and feeds its outcome
//! back as an [`Event`] to [`step`], which gives the next action, until the
//! action is a report.

use crate::arguments::Field;
use crate::command::{
    gives, lemma_omitted_option_is_refused, parse_args, CommandView, QueryPacketCommitmentsCmd,
};
use crate::identifier::{channel_id_fault, port_id_fault, ChainId, ChannelId, PortId};
use crate::packet::{Height, PacketSeqs, PacketSeqsView, Sequence};
use crate::report::{exit_status, Output, OutputView, QueryError, QueryErrorView};
use vstd::prelude::*;

verus! {

/// Where a run stands once the command line was parsed.
#[derive(Debug, PartialEq, Eq)]
pub enum State {
    /// The runtime for the chain is being acquired. The channel end to query
    /// waits here.
    Acquiring(PortId, ChannelId),
    /// The chain is being asked for the commitments.
    Querying,
    /// The report was made: the run is over.
    Reporting,
}

/// What the caller is to do next.
#[derive(Debug, PartialEq, Eq)]
pub enum Action {
    /// Acquire a runtime for this chain.
    Acquire(ChainId),
    /// Ask the chain for the commitments on this channel end.
    Lookup(PortId, ChannelId),
    /// Emit this report and exit.
    Report(Output),
}

/// The outcome of an action.
#[derive(Debug, PartialEq, Eq)]
pub enum Event {
    /// The runtime was acquired.
    Acquired,
    /// The runtime could not be acquired, with the failure's message.
    AcquisitionFailed(String),
    /// The chain answered with these sequence numbers at this height.
    Commitments(Vec<Sequence>, Height),
    /// The chain did not answer, with the failure's message.
    LookupFailed(String),
}

/// A state over the text of the identifiers it holds.
pub enum StateView {
    Acquiring(Seq<char>, Seq<char>),
    Querying,
    Reporting,
}

/// An action over the views of what it holds.
pub enum ActionView {
    Acquire(Seq<char>),
    Lookup(Seq<char>, Seq<char>),
    Report(OutputView),
}

/// An event over the views of what it holds.
pub enum EventView {
    Acquired,
    AcquisitionFailed(Seq<char>),
    Commitments(Seq<Sequence>, Height),
    LookupFailed(Seq<char>),
}

impl View for State {
    type V = StateView;

    open spec fn view(&self) -> StateView {
        match self {
            State::Acquiring(port_id, channel_id) => StateView::Acquiring(port_id@, channel_id@),
            State::Querying => StateView::Querying,
            State::Reporting => StateView::Reporting,
        }
    }
}

impl View for Action {
    type V = ActionView;

    open spec fn view(&self) -> ActionView {
        match self {
            Action::Acquire(chain_id) => ActionView::Acquire(chain_id@),
            Action::Lookup(port_id, channel_id) => ActionView::Lookup(port_id@, channel_id@),
            Action::Report(output) => ActionView::Report(output@),
        }
    }
}

impl View for Event {
    type V = EventView;

    open spec fn view(&self) -> EventView {
        match self {
            Event::Acquired => EventView::Acquired,
            Event::AcquisitionFailed(m) => EventView::AcquisitionFailed(m@),
            Event::Commitments(seqs, height) => EventView::Commitments(seqs@, *height),
            Event::LookupFailed(m) => EventView::LookupFailed(m@),
        }
    }
}

/// The report of a failure.
pub open spec fn failure(e: QueryErrorView) -> (StateView, ActionView) {
    (StateView::Reporting, ActionView::Report(OutputView::Error(e)))
}

/// How a run begins on a command: the runtime for its chain is acquired, and
/// its channel end waits.
pub open spec fn opening(cmd: CommandView) -> (StateView, ActionView) {
    (StateView::Acquiring(cmd.port_id, cmd.channel_id), ActionView::Acquire(cmd.chain_id))
}

/// How a run begins on a command line. One that is accepted leads to the
/// acquisition of the runtime for its chain; one that is refused ends the run
/// at once.
pub open spec fn first(args: Seq<Seq<char>>) -> (StateView, ActionView) {
    match parse_args(args) {
        Ok(cmd) => opening(cmd),
        Err(e) => failure(QueryErrorView::Argument(e)),
    }
}

/// How a run goes on. Each state waits for the two outcomes of its own action:
/// success leads to the next stage, failure to the report of that failure. Any
/// other event ends the run with the report of an unexpected event.
pub open spec fn next(state: StateView, event: EventView) -> (StateView, ActionView) {
    match (state, event) {
        (StateView::Acquiring(port_id, channel_id), EventView::Acquired) => (
            StateView::Querying,
            ActionView::Lookup(port_id, channel_id),
        ),
        (StateView::Acquiring(_, _), EventView::AcquisitionFailed(m)) => failure(
            QueryErrorView::Acquisition(m),
        ),
        (StateView::Querying, EventView::Commitments(seqs, height)) => (
            StateView::Reporting,
            ActionView::Report(OutputView::Success(PacketSeqsView { height, seqs })),
        ),
        (StateView::Querying, EventView::LookupFailed(m)) => failure(QueryErrorView::Lookup(m)),
        _ => failure(QueryErrorView::UnexpectedEvent),
    }
}

/// The actions that `events` draw from a run in `state`, one for each event,
/// up to the report: events behind it are not read.
pub open spec fn after(state: StateView, events: Seq<EventView>) -> Seq<ActionView>
    decreases events.len(),
{
    if state is Reporting || events.len() == 0 {
        Seq::empty()
    } else {
        seq![next(state, events[0]).1] + after(next(state, events[0]).0, events.drop_first())
    }
}

/// The actions of the run on the command line `args` to which the caller
/// answers with `events`.
pub open spec fn run(args: Seq<Seq<char>>, events: Seq<EventView>) -> Seq<ActionView> {
    seq![first(args).1] + after(first(args).0, events)
}

/// Every run has one of three shapes. A command line that is refused yields
/// the report of that refusal and nothing else. After a command line that is
/// accepted the runtime is acquired; if that succeeds the chain is asked, and
/// the outcome of that is reported; any other outcome of the acquisition is
/// reported at once.
pub proof fn lemma_run_is_linear(args: Seq<Seq<char>>, events: Seq<EventView>)
    ensures
        match parse_args(args) {
            Err(e) => run(args, events) == seq![
                ActionView::Report(OutputView::Error(QueryErrorView::Argument(e))),
            ],
            Ok(cmd) => {
                let waiting = StateView::Acquiring(cmd.port_id, cmd.channel_id);
                if events.len() == 0 {
                    run(args, events) == seq![ActionView::Acquire(cmd.chain_id)]
                } else if !(events[0] is Acquired) {
                    &&& next(waiting, events[0]).1 is Report
                    &&& run(args, events) == seq![
                        ActionView::Acquire(cmd.chain_id),
                        next(waiting, events[0]).1,
                    ]
                } else if events.len() == 1 {
                    run(args, events) == seq![
                        ActionView::Acquire(cmd.chain_id),
                        ActionView::Lookup(cmd.port_id, cmd.channel_id),
                    ]
                } else {
                    &&& next(StateView::Querying, events[1]).1 is Report
                    &&& run(args, events) == seq![
                        ActionView::Acquire(cmd.chain_id),
                        ActionView::Lookup(cmd.port_id, cmd.channel_id),
                        next(StateView::Querying, events[1]).1,
                    ]
                }
            },
        },
{
    reveal_with_fuel(after, 3);
    match parse_args(args) {
        Err(e) => {
            assert(run(args, events) =~= seq![
                ActionView::Report(OutputView::Error(QueryErrorView::Argument(e))),
            ]);
        },
        Ok(cmd) => {
            let waiting = StateView::Acquiring(cmd.port_id, cmd.channel_id);
            if events.len() == 0 {
                assert(run(args, events) =~= seq![ActionView::Acquire(cmd.chain_id)]);
            } else if !(events[0] is Acquired) {
                assert(next(waiting, events[0]).0 is Reporting);
                assert(run(args, events) =~= seq![
                    ActionView::Acquire(cmd.chain_id),
                    next(waiting, events[0]).1,
                ]);
            } else if events.len() == 1 {
                assert(events.drop_first().len() == 0);
                assert(run(args, events) =~= seq![
                    ActionView::Acquire(cmd.chain_id),
                    ActionView::Lookup(cmd.port_id, cmd.channel_id),
                ]);
            } else {
                let tail = events.drop_first();
                assert(tail[0] == events[1]);
                assert(next(StateView::Querying, events[1]).0 is Reporting);
                assert(run(args, events) =~= seq![
                    ActionView::Acquire(cmd.chain_id),
                    ActionView::Lookup(cmd.port_id, cmd.channel_id),
                    next(StateView::Querying, events[1]).1,
                ]);
            }
        },
    }
}

/// A command line that does not give one of the three options never leads to a
/// call to the chain: whatever events follow, the run is the report of the
/// refusal, and the process exits with a status other than 0.
pub proof fn lemma_omitted_option_ends_run(
    args: Seq<Seq<char>>,
    f: Field,
    events: Seq<EventView>,
)
    requires
        !gives(args, f),
    ensures
        parse_args(args) is Err,
        ({
            let refusal = OutputView::Error(QueryErrorView::Argument(parse_args(args)->Err_0));
            &&& run(args, events) == seq![ActionView::Report(refusal)]
            &&& exit_status(refusal) != 0
        }),
{
    lemma_omitted_option_is_refused(args, f);
    lemma_run_is_linear(args, events);
}

/// A failed acquisition ends the run: the chain is never asked for the
/// commitments in a run whose acquisition failed.
pub proof fn lemma_failed_acquisition_short_circuits(
    args: Seq<Seq<char>>,
    events: Seq<EventView>,
)
    requires
        events.len() > 0,
        events[0] is AcquisitionFailed,
    ensures
        forall|i: int|
            0 <= i < run(args, events).len() ==> !(#[trigger] run(args, events)[i] is Lookup),
        parse_args(args) matches Ok(cmd) ==> run(args, events) == seq![
            ActionView::Acquire(cmd.chain_id),
            ActionView::Report(
                OutputView::Error(QueryErrorView::Acquisition(events[0]->AcquisitionFailed_0)),
            ),
        ],
{
    lemma_run_is_linear(args, events);
}

/// The chain is called only for a command line that was accepted, and in
/// order: the first action of a run acquires the runtime for the chain that
/// the command line names; the second, and only after the acquisition
/// succeeded, asks for the commitments on the channel end that it names, whose
/// port and channel are identifiers of their kind. No other action is a call.
pub proof fn lemma_calls_follow_validation(args: Seq<Seq<char>>, events: Seq<EventView>, i: int)
    requires
        0 <= i < run(args, events).len(),
        !(run(args, events)[i] is Report),
    ensures
        parse_args(args) is Ok,
        port_id_fault(parse_args(args)->Ok_0.port_id) is None,
        channel_id_fault(parse_args(args)->Ok_0.channel_id) is None,
        i == 0 || i == 1,
        i == 0 ==> run(args, events)[i] == ActionView::Acquire(parse_args(args)->Ok_0.chain_id),
        i == 1 ==> events.len() > 0 && events[0] is Acquired && run(args, events)[i]
            == ActionView::Lookup(
            parse_args(args)->Ok_0.port_id,
            parse_args(args)->Ok_0.channel_id,
        ),
{
    lemma_run_is_linear(args, events);
}

/// What the chain answers is reported as it came: the report holds the
/// sequence numbers in the order in which the chain gave them, none added and
/// none left out, and the height of the answer; and the process exits with
/// status 0. An answer without sequence numbers is an answer like any other.
pub proof fn lemma_answer_is_reported_as_received(
    args: Seq<Seq<char>>,
    seqs: Seq<Sequence>,
    height: Height,
)
    requires
        parse_args(args) is Ok,
    ensures
        ({
            let cmd = parse_args(args)->Ok_0;
            let answer = OutputView::Success(PacketSeqsView { height, seqs });
            &&& run(args, seq![EventView::Acquired, EventView::Commitments(seqs, height)]) == seq![
                ActionView::Acquire(cmd.chain_id),
                ActionView::Lookup(cmd.port_id, cmd.channel_id),
                ActionView::Report(answer),
            ]
            &&& exit_status(answer) == 0
        }),
{
    lemma_run_is_linear(args, seq![EventView::Acquired, EventView::Commitments(seqs, height)]);
}

/// Begins a run on a command.
pub fn begin(cmd: QueryPacketCommitmentsCmd) -> (r: (State, Action))
    ensures
        (r.0@, r.1@) == opening(cmd@),
{
    let QueryPacketCommitmentsCmd { chain_id, port_id, channel_id } = cmd;
    (State::Acquiring(port_id, channel_id), Action::Acquire(chain_id))
}

/// Begins a run on a command line.
pub fn start(args: &[&str]) -> (r: (State, Action))
    ensures
        (r.0@, r.1@) == first(args.deep_view()),
        r.0 is Reporting <==> r.1 is Report,
        r.1 is Report <==> parse_args(args.deep_view()) is Err,
{
    match QueryPacketCommitmentsCmd::try_parse_from(args) {
        Ok(cmd) => begin(cmd),
        Err(e) => (State::Reporting, Action::Report(Output::Error(QueryError::Argument(e)))),
    }
}

/// Takes a run one step on: from its state and the outcome of its last action
/// to its next state and action.
pub fn step(state: State, event: Event) -> (r: (State, Action))
    ensures
        (r.0@, r.1@) == next(state@, event@),
        r.0 is Reporting <==> r.1 is Report,
        !(r.1 is Acquire),
        r.1 is Lookup <==> state is Acquiring && event is Acquired,
        state is Querying ==> (event matches Event::Commitments(seqs, height) ==> r.1@
            == ActionView::Report(OutputView::Success(PacketSeqsView { height, seqs: seqs@ }))),
{
    match state {
        State::Acquiring(port_id, channel_id) => match event {
            Event::Acquired => (State::Querying, Action::Lookup(port_id, channel_id)),
            Event::AcquisitionFailed(m) => (
                State::Reporting,
                Action::Report(Output::Error(QueryError::Acquisition(m))),
            ),
            _ => (State::Reporting, Action::Report(Output::Error(QueryError::UnexpectedEvent))),
        },
        State::Querying => match event {
            Event::Commitments(seqs, height) => (
                State::Reporting,
                Action::Report(Output::Success(PacketSeqs { height, seqs })),
            ),
            Event::LookupFailed(m) => (
                State::Reporting,
                Action::Report(Output::Error(QueryError::Lookup(m))),
            ),
            _ => (State::Reporting, Action::Report(Output::Error(QueryError::UnexpectedEvent))),
        },
        State::Reporting => (
            State::Reporting,
            Action::Report(Output::Error(QueryError::UnexpectedEvent)),
        ),
    }
}

} // verus!
