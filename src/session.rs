//! The decisions of the example program's main flow: wait for the host to send
//! data, wait for a storage card, start the card's driver, then idle. The program
//! performs each action and reports what it saw as the next event.
use vstd::prelude::*;

verus! {

/// Where the main flow stands.
#[derive(PartialEq, Eq, Structural)]
pub enum Phase {
    WaitingForHost,
    WaitingForCard,
    CardMissing,
    StartingStorage,
    Idle,
}

/// What the main flow saw since its last step.
pub enum Event {
    /// The received flag was polled and read `received`.
    HostPolled { received: bool },
    /// The card-detect input was polled and read `present`.
    CardPolled { present: bool },
    /// The storage driver's start-up finished, successfully or not.
    StorageStarted { ok: bool },
    /// A delay elapsed.
    Tick,
}

/// What the main flow does next.
#[derive(PartialEq, Eq, Structural)]
pub enum Action {
    /// Toggle the indicator and wait one polling interval.
    BlinkAndWait,
    /// Wait one polling interval.
    Wait,
    /// Tell the operator that no card is present, then wait one polling interval.
    ReportNoCard,
    /// Tell the operator that a card was found, then start the driver.
    AnnounceCard,
    /// Report the card's size and list its volumes.
    ListStorage,
    /// Tell the operator that the driver failed to start.
    ReportInitFailure,
}

/// The next phase and action from `phase` on `event`.
pub open spec fn step_spec(phase: Phase, event: Event) -> (Phase, Action) {
    match (phase, event) {
        (Phase::WaitingForHost, Event::HostPolled { received }) => if received {
            (Phase::WaitingForCard, Action::Wait)
        } else {
            (Phase::WaitingForHost, Action::BlinkAndWait)
        },
        (Phase::WaitingForCard, Event::CardPolled { present }) => if present {
            (Phase::StartingStorage, Action::AnnounceCard)
        } else {
            (Phase::CardMissing, Action::ReportNoCard)
        },
        (Phase::CardMissing, Event::CardPolled { present }) => if present {
            (Phase::StartingStorage, Action::AnnounceCard)
        } else {
            (Phase::CardMissing, Action::Wait)
        },
        (Phase::StartingStorage, Event::StorageStarted { ok }) => if ok {
            (Phase::Idle, Action::ListStorage)
        } else {
            (Phase::Idle, Action::ReportInitFailure)
        },
        (Phase::Idle, _) => (Phase::Idle, Action::BlinkAndWait),
        (p, _) => (p, Action::Wait),
    }
}

/// Decides the next phase and action from `phase` on `event`.
pub fn step(phase: Phase, event: Event) -> (r: (Phase, Action))
    ensures
        r == step_spec(phase, event),
{
    match (phase, event) {
        (Phase::WaitingForHost, Event::HostPolled { received }) => {
            if received {
                (Phase::WaitingForCard, Action::Wait)
            } else {
                (Phase::WaitingForHost, Action::BlinkAndWait)
            }
        },
        (Phase::WaitingForCard, Event::CardPolled { present }) => {
            if present {
                (Phase::StartingStorage, Action::AnnounceCard)
            } else {
                (Phase::CardMissing, Action::ReportNoCard)
            }
        },
        (Phase::CardMissing, Event::CardPolled { present }) => {
            if present {
                (Phase::StartingStorage, Action::AnnounceCard)
            } else {
                (Phase::CardMissing, Action::Wait)
            }
        },
        (Phase::StartingStorage, Event::StorageStarted { ok }) => {
            if ok {
                (Phase::Idle, Action::ListStorage)
            } else {
                (Phase::Idle, Action::ReportInitFailure)
            }
        },
        (Phase::Idle, _) => (Phase::Idle, Action::BlinkAndWait),
        (p, _) => (p, Action::Wait),
    }
}

/// The phase after a sequence of events, from `phase`.
pub open spec fn run_spec(phase: Phase, events: Seq<Event>) -> Phase
    decreases events.len(),
{
    if events.len() == 0 {
        phase
    } else {
        step_spec(run_spec(phase, events.drop_last()), events.last()).0
    }
}

/// A failed start of the storage driver is reported to the operator, and the
/// program then stays in its idle loop, blinking, whatever it sees afterwards.
pub proof fn lemma_init_failure_reported_then_idle(events: Seq<Event>)
    ensures
        step_spec(Phase::StartingStorage, Event::StorageStarted { ok: false }) == (
        Phase::Idle,
        Action::ReportInitFailure,
        ),
        run_spec(Phase::Idle, events) == Phase::Idle,
        forall|e: Event| #[trigger] step_spec(Phase::Idle, e) == (Phase::Idle, Action::BlinkAndWait),
    decreases events.len(),
{
    if events.len() > 0 {
        lemma_init_failure_reported_then_idle(events.drop_last());
    }
}

} // verus!
