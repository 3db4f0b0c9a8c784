//! The poll-loop state machine. The loop itself performs network calls
//! and sleeps; every decision it takes — compare, notify, retry, update
//! the last-seen record — is made here, as a verified step function
//! from state and event to next state and action.

use vstd::prelude::*;

use crate::notify::{format_notification, notification_text};
use crate::record::{FetchError, RecordView, TournamentInformation};

verus! {

/// What the change detector decides about a freshly fetched record.
#[derive(Clone, Copy, Debug, PartialEq, Eq, Structural)]
pub enum Decision {
    /// No record has been seen yet: adopt this one silently.
    Bootstrap,
    /// The record equals the last-seen one: nothing to do.
    Unchanged,
    /// The record differs from the last-seen one: notify.
    Changed,
}

/// The abstract value of an optional record.
pub open spec fn opt_record_view(last: Option<TournamentInformation>) -> Option<RecordView> {
    match last {
        Option::None => Option::None,
        Option::Some(r) => Option::Some(r@),
    }
}

/// The change decision: `Bootstrap` when nothing was seen yet,
/// `Unchanged` when the candidate equals the last-seen record in all
/// three fields, `Changed` otherwise.
pub open spec fn decide(last: Option<RecordView>, candidate: RecordView) -> Decision {
    match last {
        Option::None => Decision::Bootstrap,
        Option::Some(prev) => if prev == candidate {
            Decision::Unchanged
        } else {
            Decision::Changed
        },
    }
}

/// Decide whether `candidate` is new against the last-seen record.
pub fn has_changed(last_seen: &Option<TournamentInformation>, candidate: &TournamentInformation) -> (
    decision: Decision)
    ensures
        decision == decide(opt_record_view(*last_seen), candidate@),
{
    match last_seen {
        Option::None => Decision::Bootstrap,
        Option::Some(prev) => {
            if prev.same_record(candidate) {
                Decision::Unchanged
            } else {
                Decision::Changed
            }
        },
    }
}

/// `hasChanged(None, R)` is `Bootstrap` for any `R`; `hasChanged(Some(R), R)`
/// is `Unchanged` for any `R`; `hasChanged(Some(P), R)` is `Changed`
/// whenever `P` and `R` differ in any field.
pub proof fn lemma_decide_cases(last: Option<RecordView>, candidate: RecordView)
    ensures
        last is None ==> decide(last, candidate) == Decision::Bootstrap,
        last == Option::Some(candidate) ==> decide(last, candidate) == Decision::Unchanged,
        (last matches Option::Some(prev) && prev != candidate) ==> decide(last, candidate)
            == Decision::Changed,
{
}

/// Where the loop stands between two events.
#[derive(Debug)]
pub enum PollState {
    /// A fetch is in flight (or about to be retried).
    Fetching,
    /// A new record was detected; its notification is not delivered yet.
    Notifying(TournamentInformation),
    /// The poll-interval sleep runs.
    Sleeping,
}

/// Abstract value of a loop state.
pub enum PollStateView {
    Fetching,
    Notifying(RecordView),
    Sleeping,
}

impl View for PollState {
    type V = PollStateView;

    open spec fn view(&self) -> PollStateView {
        match self {
            PollState::Fetching => PollStateView::Fetching,
            PollState::Notifying(r) => PollStateView::Notifying(r@),
            PollState::Sleeping => PollStateView::Sleeping,
        }
    }
}

/// What the outside world reports back to the loop.
#[derive(Debug)]
pub enum PollEvent {
    /// The fetch produced a record.
    FetchSucceeded(TournamentInformation),
    /// The fetch failed, with the error it failed with.
    FetchFailed(FetchError),
    /// The notification was delivered.
    NotifySucceeded,
    /// The delivery attempt failed.
    NotifyFailed,
    /// The requested sleep has elapsed.
    Slept,
}

/// Abstract value of an event.
pub enum PollEventView {
    FetchSucceeded(RecordView),
    FetchFailed(FetchError),
    NotifySucceeded,
    NotifyFailed,
    Slept,
}

impl View for PollEvent {
    type V = PollEventView;

    open spec fn view(&self) -> PollEventView {
        match self {
            PollEvent::FetchSucceeded(r) => PollEventView::FetchSucceeded(r@),
            PollEvent::FetchFailed(e) => PollEventView::FetchFailed(*e),
            PollEvent::NotifySucceeded => PollEventView::NotifySucceeded,
            PollEvent::NotifyFailed => PollEventView::NotifyFailed,
            PollEvent::Slept => PollEventView::Slept,
        }
    }
}

/// What the loop must do next.
#[derive(Debug, PartialEq)]
pub enum PollAction {
    /// Perform the login fetch now.
    Fetch,
    /// Deliver this message now.
    Notify(String),
    /// Sleep the poll interval, then report `Slept`.
    SleepPoll,
    /// Sleep the retry delay, then report `Slept`.
    SleepRetry,
}

/// Abstract value of an action.
pub enum PollActionView {
    Fetch,
    Notify(Seq<char>),
    SleepPoll,
    SleepRetry,
}

impl View for PollAction {
    type V = PollActionView;

    open spec fn view(&self) -> PollActionView {
        match self {
            PollAction::Fetch => PollActionView::Fetch,
            PollAction::Notify(m) => PollActionView::Notify(m@),
            PollAction::SleepPoll => PollActionView::SleepPoll,
            PollAction::SleepRetry => PollActionView::SleepRetry,
        }
    }
}

/// The loop's whole state: the last reported record and where the loop
/// stands.
#[derive(Debug)]
pub struct Controller {
    pub last_seen: Option<TournamentInformation>,
    pub state: PollState,
}

/// Abstract value of a controller.
pub struct ControllerView {
    pub last_seen: Option<RecordView>,
    pub state: PollStateView,
}

impl View for Controller {
    type V = ControllerView;

    open spec fn view(&self) -> ControllerView {
        ControllerView { last_seen: opt_record_view(self.last_seen), state: self.state@ }
    }
}

/// Which events can arrive in which state: fetch outcomes while
/// fetching, delivery outcomes or the elapsed retry delay while
/// notifying, the elapsed poll interval while sleeping.
pub open spec fn accepts(c: ControllerView, e: PollEventView) -> bool {
    match c.state {
        PollStateView::Fetching => e is FetchSucceeded || e is FetchFailed,
        PollStateView::Notifying(_) => e is NotifySucceeded || e is NotifyFailed || e is Slept,
        PollStateView::Sleeping => e is Slept,
    }
}

/// The loop's transition relation, one event at a time.
///
/// - A fetched record is compared: `Bootstrap` adopts it silently,
///   `Unchanged` does nothing, `Changed` begins its notification;
///   the latter two leave the last-seen record alone.
/// - A failed fetch is retried immediately, with no delay.
/// - A delivered notification — and nothing else — moves the pending
///   record into the last-seen slot.
/// - A failed delivery waits the retry delay and sends the same
///   message again; the notification is never abandoned.
pub open spec fn step_spec(c: ControllerView, e: PollEventView) -> (ControllerView, PollActionView) {
    match c.state {
        PollStateView::Fetching => match e {
            PollEventView::FetchSucceeded(r) => match decide(c.last_seen, r) {
                Decision::Bootstrap => (
                    ControllerView {
                        last_seen: Option::Some(r),
                        state: PollStateView::Sleeping,
                    },
                    PollActionView::SleepPoll,
                ),
                Decision::Unchanged => (
                    ControllerView { last_seen: c.last_seen, state: PollStateView::Sleeping },
                    PollActionView::SleepPoll,
                ),
                Decision::Changed => (
                    ControllerView {
                        last_seen: c.last_seen,
                        state: PollStateView::Notifying(r),
                    },
                    PollActionView::Notify(notification_text(r)),
                ),
            },
            _ => (c, PollActionView::Fetch),
        },
        PollStateView::Notifying(r) => match e {
            PollEventView::NotifySucceeded => (
                ControllerView { last_seen: Option::Some(r), state: PollStateView::Sleeping },
                PollActionView::SleepPoll,
            ),
            PollEventView::NotifyFailed => (c, PollActionView::SleepRetry),
            _ => (c, PollActionView::Notify(notification_text(r))),
        },
        PollStateView::Sleeping => (
            ControllerView { last_seen: c.last_seen, state: PollStateView::Fetching },
            PollActionView::Fetch,
        ),
    }
}

/// The controller's invariant: a pending notification is always for a
/// record that differs from the last-seen one, which exists — only a
/// `Changed` decision begins a notification.
pub open spec fn controller_inv(c: ControllerView) -> bool {
    match c.state {
        PollStateView::Notifying(r) => match c.last_seen {
            Option::Some(prev) => prev != r,
            Option::None => false,
        },
        _ => true,
    }
}

impl Controller {
    /// A fresh loop: nothing seen yet, first fetch due.
    pub fn new() -> (c: Controller)
        ensures
            c@.last_seen is None,
            c@.state is Fetching,
            controller_inv(c@),
    {
        Controller { last_seen: Option::None, state: PollState::Fetching }
    }

    /// Take one step: consume the event the outside world reported and
    /// say what to do next. The new state and the action are exactly
    /// `step_spec` of the old state and the event.
    pub fn step(&mut self, event: PollEvent) -> (action: PollAction)
        requires
            accepts(old(self)@, event@),
        ensures
            (final(self)@, action@) == step_spec(old(self)@, event@),
    {
        match event {
            PollEvent::FetchSucceeded(candidate) => {
                let decision = has_changed(&self.last_seen, &candidate);
                match decision {
                    Decision::Bootstrap => {
                        self.last_seen = Option::Some(candidate);
                        self.state = PollState::Sleeping;
                        PollAction::SleepPoll
                    },
                    Decision::Unchanged => {
                        self.state = PollState::Sleeping;
                        PollAction::SleepPoll
                    },
                    Decision::Changed => {
                        let text = format_notification(&candidate);
                        self.state = PollState::Notifying(candidate);
                        PollAction::Notify(text)
                    },
                }
            },
            PollEvent::FetchFailed(_) => PollAction::Fetch,
            PollEvent::NotifySucceeded => {
                let delivered = match &self.state {
                    PollState::Notifying(pending) => pending.duplicate(),
                    _ => {
                        proof {
                            assert(false);
                        }
                        TournamentInformation {
                            tournament_name: String::new(),
                            tournament_type: String::new(),
                            tournament_start_time: String::new(),
                        }
                    },
                };
                self.last_seen = Option::Some(delivered);
                self.state = PollState::Sleeping;
                PollAction::SleepPoll
            },
            PollEvent::NotifyFailed => PollAction::SleepRetry,
            PollEvent::Slept => {
                match &self.state {
                    PollState::Notifying(pending) => PollAction::Notify(
                        format_notification(pending),
                    ),
                    PollState::Sleeping => {
                        self.state = PollState::Fetching;
                        PollAction::Fetch
                    },
                    PollState::Fetching => {
                        proof {
                            assert(false);
                        }
                        PollAction::Fetch
                    },
                }
            },
        }
    }
}

/// On a fetched record, a notification is begun exactly when the
/// decision is `Changed`; its message is the notification text of that
/// record, and the record becomes the pending one.
pub proof fn lemma_notify_iff_changed(c: ControllerView, r: RecordView)
    requires
        c.state is Fetching,
    ensures
        ({
            let (c2, action) = step_spec(c, PollEventView::FetchSucceeded(r));
            &&& (action is Notify <==> decide(c.last_seen, r) == Decision::Changed)
            &&& (c2.state is Notifying <==> decide(c.last_seen, r) == Decision::Changed)
            &&& (decide(c.last_seen, r) == Decision::Changed ==> c2.state
                == PollStateView::Notifying(r) && action == PollActionView::Notify(
                notification_text(r),
            ))
        }),
{
}

/// The step is a fetch that decides `Bootstrap`: a first record arrived
/// while nothing was seen yet.
pub open spec fn is_bootstrap_fetch(c: ControllerView, e: PollEventView) -> bool {
    c.state is Fetching && match e {
        PollEventView::FetchSucceeded(r) => decide(c.last_seen, r) == Decision::Bootstrap,
        _ => false,
    }
}

/// The last-seen record changes exactly on a silent bootstrap or on a
/// successful delivery — for a changed record, only after its
/// notification went through — and it then becomes that record.
pub proof fn lemma_last_seen_update(c: ControllerView, e: PollEventView)
    requires
        controller_inv(c),
        accepts(c, e),
    ensures
        step_spec(c, e).0.last_seen != c.last_seen <==> (is_bootstrap_fetch(c, e) || (
        c.state is Notifying && e is NotifySucceeded)),
        ({
            match e {
                PollEventView::FetchSucceeded(r) => (c.state is Fetching && decide(c.last_seen, r)
                    == Decision::Bootstrap) ==> step_spec(c, e).0.last_seen == Option::Some(r),
                _ => true,
            }
        }),
        ({
            match c.state {
                PollStateView::Notifying(r) => e is NotifySucceeded ==> step_spec(
                    c,
                    e,
                ).0.last_seen == Option::Some(r),
                _ => true,
            }
        }),
{
}

/// Every accepted step preserves the controller's invariant.
pub proof fn lemma_step_preserves_inv(c: ControllerView, e: PollEventView)
    requires
        controller_inv(c),
        accepts(c, e),
    ensures
        controller_inv(step_spec(c, e).0),
{
}

} // verus!
