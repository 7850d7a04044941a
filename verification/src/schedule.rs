//! The scheduled delivery loop as a state machine: the library decides
//! every transition; the outer shell only performs the actions it is
//! handed (fetch, send, wait) and reports back what happened.

use vstd::prelude::*;

use crate::category::Category;
use crate::message::{format_telegram_message, spec_telegram_message};

verus! {

/// Seconds between delivery cycles: six hours, fixed.
pub const WAIT_SECONDS: u64 = 21600;

/// Where the delivery loop stands. It cycles through fetching, sending
/// and waiting forever; only process termination ends it.
pub enum LoopState {
    /// Not started yet.
    Idle,
    /// A fetch of the next fact is outstanding.
    Fetching,
    /// The message built from a fetched fact is being sent.
    Sending { message: String },
    /// The fixed pause before the next cycle.
    Waiting,
}

/// What the outer shell reports back to the loop.
pub enum LoopEvent {
    /// The loop is asked to begin.
    Start,
    /// A fetch came back with a fact.
    Fetched { fact: String },
    /// A fetch failed outright.
    FetchFailed,
    /// The outstanding send was delivered.
    Sent,
    /// The outstanding send failed.
    SendFailed,
    /// The pause between cycles has elapsed.
    WaitElapsed,
}

/// What the outer shell is asked to do next.
pub enum LoopAction {
    /// Fetch one fact for the configured category.
    DoFetch,
    /// Send this message to the configured channel.
    DoSend { message: String },
    /// Suspend for this many seconds.
    DoWait { seconds: u64 },
    /// Nothing: the event did not belong to the current state.
    Stay,
}

/// The mathematical shadow of `LoopState`.
pub enum SpecLoopState {
    Idle,
    Fetching,
    Sending { message: Seq<char> },
    Waiting,
}

/// The mathematical shadow of `LoopEvent`.
pub enum SpecLoopEvent {
    Start,
    Fetched { fact: Seq<char> },
    FetchFailed,
    Sent,
    SendFailed,
    WaitElapsed,
}

/// The mathematical shadow of `LoopAction`.
pub enum SpecLoopAction {
    DoFetch,
    DoSend { message: Seq<char> },
    DoWait { seconds: u64 },
    Stay,
}

impl View for LoopState {
    type V = SpecLoopState;

    open spec fn view(&self) -> SpecLoopState {
        match self {
            LoopState::Idle => SpecLoopState::Idle,
            LoopState::Fetching => SpecLoopState::Fetching,
            LoopState::Sending { message } => SpecLoopState::Sending { message: message@ },
            LoopState::Waiting => SpecLoopState::Waiting,
        }
    }
}

impl View for LoopEvent {
    type V = SpecLoopEvent;

    open spec fn view(&self) -> SpecLoopEvent {
        match self {
            LoopEvent::Start => SpecLoopEvent::Start,
            LoopEvent::Fetched { fact } => SpecLoopEvent::Fetched { fact: fact@ },
            LoopEvent::FetchFailed => SpecLoopEvent::FetchFailed,
            LoopEvent::Sent => SpecLoopEvent::Sent,
            LoopEvent::SendFailed => SpecLoopEvent::SendFailed,
            LoopEvent::WaitElapsed => SpecLoopEvent::WaitElapsed,
        }
    }
}

impl View for LoopAction {
    type V = SpecLoopAction;

    open spec fn view(&self) -> SpecLoopAction {
        match self {
            LoopAction::DoFetch => SpecLoopAction::DoFetch,
            LoopAction::DoSend { message } => SpecLoopAction::DoSend { message: message@ },
            LoopAction::DoWait { seconds } => SpecLoopAction::DoWait { seconds: *seconds },
            LoopAction::Stay => SpecLoopAction::Stay,
        }
    }
}

/// The transition relation of the delivery loop. A fetched fact is
/// turned into the delivery message and its send is started; a fetch
/// failure skips the send; a send outcome, delivered or failed alike,
/// leads to the same fixed wait; an elapsed wait starts the next cycle.
/// An event that does not belong to the current state changes nothing.
pub open spec fn spec_step(state: SpecLoopState, category: Category, event: SpecLoopEvent) -> (
    SpecLoopState,
    SpecLoopAction,
) {
    match (state, event) {
        (SpecLoopState::Idle, SpecLoopEvent::Start) => (
            SpecLoopState::Fetching,
            SpecLoopAction::DoFetch,
        ),
        (SpecLoopState::Fetching, SpecLoopEvent::Fetched { fact }) => (
            SpecLoopState::Sending { message: spec_telegram_message(fact, category) },
            SpecLoopAction::DoSend { message: spec_telegram_message(fact, category) },
        ),
        (SpecLoopState::Fetching, SpecLoopEvent::FetchFailed) => (
            SpecLoopState::Waiting,
            SpecLoopAction::DoWait { seconds: WAIT_SECONDS },
        ),
        (SpecLoopState::Sending { message }, SpecLoopEvent::Sent) => (
            SpecLoopState::Waiting,
            SpecLoopAction::DoWait { seconds: WAIT_SECONDS },
        ),
        (SpecLoopState::Sending { message }, SpecLoopEvent::SendFailed) => (
            SpecLoopState::Waiting,
            SpecLoopAction::DoWait { seconds: WAIT_SECONDS },
        ),
        (SpecLoopState::Waiting, SpecLoopEvent::WaitElapsed) => (
            SpecLoopState::Fetching,
            SpecLoopAction::DoFetch,
        ),
        (s, _) => (s, SpecLoopAction::Stay),
    }
}

/// One transition of the delivery loop.
pub fn step(state: LoopState, category: Category, event: LoopEvent) -> (r: (LoopState, LoopAction))
    ensures
        (r.0@, r.1@) == spec_step(state@, category, event@),
{
    match (state, event) {
        (LoopState::Idle, LoopEvent::Start) => (LoopState::Fetching, LoopAction::DoFetch),
        (LoopState::Fetching, LoopEvent::Fetched { fact }) => {
            let message = format_telegram_message(fact.as_str(), category);
            let sent = message.clone();
            (LoopState::Sending { message }, LoopAction::DoSend { message: sent })
        },
        (LoopState::Fetching, LoopEvent::FetchFailed) => (
            LoopState::Waiting,
            LoopAction::DoWait { seconds: WAIT_SECONDS },
        ),
        (LoopState::Sending { message: _ }, LoopEvent::Sent) => (
            LoopState::Waiting,
            LoopAction::DoWait { seconds: WAIT_SECONDS },
        ),
        (LoopState::Sending { message: _ }, LoopEvent::SendFailed) => (
            LoopState::Waiting,
            LoopAction::DoWait { seconds: WAIT_SECONDS },
        ),
        (LoopState::Waiting, LoopEvent::WaitElapsed) => (
            LoopState::Fetching,
            LoopAction::DoFetch,
        ),
        (s, _) => (s, LoopAction::Stay),
    }
}

/// A delivered send and a failed send lead to the same place: the loop
/// waits the same fixed six hours either way and is not stopped by the
/// failure.
pub proof fn lemma_send_outcome_indifferent(message: Seq<char>, category: Category)
    ensures
        spec_step(SpecLoopState::Sending { message }, category, SpecLoopEvent::Sent) == spec_step(
            SpecLoopState::Sending { message },
            category,
            SpecLoopEvent::SendFailed,
        ),
        (spec_step(SpecLoopState::Sending { message }, category, SpecLoopEvent::Sent).0
            == SpecLoopState::Waiting),
        (spec_step(SpecLoopState::Sending { message }, category, SpecLoopEvent::Sent).1
            == SpecLoopAction::DoWait { seconds: WAIT_SECONDS }),
{
}

/// One full delivery cycle: from fetching, a failed fetch goes straight
/// to the fixed wait; a fetched fact starts exactly one send, of the
/// message built from that fact; either send outcome ends in the same
/// fixed wait; and the elapsed wait begins the next fetch. So each
/// six-hour period holds one fetch-then-send attempt, and no outcome
/// alters the wait.
pub proof fn lemma_delivery_cycle(category: Category, fact: Seq<char>)
    ensures
        spec_step(SpecLoopState::Fetching, category, SpecLoopEvent::FetchFailed) == (
            SpecLoopState::Waiting,
            SpecLoopAction::DoWait { seconds: WAIT_SECONDS },
        ),
        spec_step(SpecLoopState::Fetching, category, SpecLoopEvent::Fetched { fact }) == (
            SpecLoopState::Sending { message: spec_telegram_message(fact, category) },
            SpecLoopAction::DoSend { message: spec_telegram_message(fact, category) },
        ),
        spec_step(
            SpecLoopState::Sending { message: spec_telegram_message(fact, category) },
            category,
            SpecLoopEvent::Sent,
        ) == (SpecLoopState::Waiting, SpecLoopAction::DoWait { seconds: WAIT_SECONDS }),
        spec_step(
            SpecLoopState::Sending { message: spec_telegram_message(fact, category) },
            category,
            SpecLoopEvent::SendFailed,
        ) == (SpecLoopState::Waiting, SpecLoopAction::DoWait { seconds: WAIT_SECONDS }),
        spec_step(SpecLoopState::Waiting, category, SpecLoopEvent::WaitElapsed) == (
            SpecLoopState::Fetching,
            SpecLoopAction::DoFetch,
        ),
{
}

} // verus!
