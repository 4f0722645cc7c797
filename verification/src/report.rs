//! How a run ends: the record of the answer, or the failure that stopped it.

use crate::arguments::{argument_text, ArgumentError};
use crate::packet::{PacketSeqs, PacketSeqsView};
use vstd::prelude::*;

verus! {

/// Why a run failed. The variant names the stage that failed; a failure of the
/// chain carries the message that came with it.
#[derive(Debug, PartialEq, Eq)]
pub enum QueryError {
    /// The command line was refused. No call to the chain was made.
    Argument(ArgumentError),
    /// No runtime for the chain could be acquired.
    Acquisition(String),
    /// The chain did not answer the query for the commitments.
    Lookup(String),
    /// The run was fed an event that it did not wait for.
    UnexpectedEvent,
}

/// A failure with its message as a sequence of characters.
pub enum QueryErrorView {
    Argument(ArgumentError),
    Acquisition(Seq<char>),
    Lookup(Seq<char>),
    UnexpectedEvent,
}

impl View for QueryError {
    type V = QueryErrorView;

    open spec fn view(&self) -> QueryErrorView {
        match self {
            QueryError::Argument(e) => QueryErrorView::Argument(*e),
            QueryError::Acquisition(m) => QueryErrorView::Acquisition(m@),
            QueryError::Lookup(m) => QueryErrorView::Lookup(m@),
            QueryError::UnexpectedEvent => QueryErrorView::UnexpectedEvent,
        }
    }
}

/// The message of a failure: the stage that failed, and behind it, unchanged,
/// the message that the chain's failure came with.
pub open spec fn message_text(e: QueryErrorView) -> Seq<char> {
    match e {
        QueryErrorView::Argument(e) => argument_text(e),
        QueryErrorView::Acquisition(m) => "failed to acquire a runtime for the chain: "@ + m,
        QueryErrorView::Lookup(m) => "failed to query the packet commitments: "@ + m,
        QueryErrorView::UnexpectedEvent => "the query was fed an event that it did not wait for"@,
    }
}

/// The message of a failure of the chain ends with the message that the
/// failure came with, unchanged.
pub proof fn lemma_message_keeps_the_failure(m: Seq<char>)
    ensures
        m.is_suffix_of(message_text(QueryErrorView::Acquisition(m))),
        m.is_suffix_of(message_text(QueryErrorView::Lookup(m))),
{
    let acquisition = message_text(QueryErrorView::Acquisition(m));
    let lookup = message_text(QueryErrorView::Lookup(m));
    assert(acquisition.subrange(acquisition.len() - m.len(), acquisition.len() as int) =~= m);
    assert(lookup.subrange(lookup.len() - m.len(), lookup.len() as int) =~= m);
}

impl QueryError {
    /// The message of the failure, for a human reader.
    pub fn message(&self) -> (s: String)
        ensures
            s@ == message_text(self@),
    {
        match self {
            QueryError::Argument(e) => e.message(),
            QueryError::Acquisition(m) => {
                let mut s = "failed to acquire a runtime for the chain: ".to_owned();
                s.append(m.as_str());
                s
            },
            QueryError::Lookup(m) => {
                let mut s = "failed to query the packet commitments: ".to_owned();
                s.append(m.as_str());
                s
            },
            QueryError::UnexpectedEvent => {
                "the query was fed an event that it did not wait for".to_owned()
            },
        }
    }
}

/// What a run reports when it ends.
#[derive(Debug, PartialEq, Eq)]
pub enum Output {
    /// The chain's answer.
    Success(PacketSeqs),
    /// The failure that stopped the run.
    Error(QueryError),
}

/// A report over the views of what it holds.
pub enum OutputView {
    Success(PacketSeqsView),
    Error(QueryErrorView),
}

impl View for Output {
    type V = OutputView;

    open spec fn view(&self) -> OutputView {
        match self {
            Output::Success(p) => OutputView::Success(p@),
            Output::Error(e) => OutputView::Error(e@),
        }
    }
}

/// The status with which the process exits after a report: 0 for an answer, 2
/// for a command line that was refused, 1 for any other failure.
pub open spec fn exit_status(output: OutputView) -> i32 {
    match output {
        OutputView::Success(_) => 0,
        OutputView::Error(QueryErrorView::Argument(_)) => 2,
        OutputView::Error(_) => 1,
    }
}

impl Output {
    /// The status with which the process exits after this report.
    pub fn exit_code(&self) -> (code: i32)
        ensures
            code == exit_status(self@),
            code == 0 <==> self is Success,
    {
        match self {
            Output::Success(_) => 0,
            Output::Error(QueryError::Argument(_)) => 2,
            Output::Error(_) => 1,
        }
    }
}

} // verus!
