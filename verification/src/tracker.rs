//! The execution lifecycle tracker.
//!
//! The tracker is a state machine that decides; it performs no I/O and reads
//! no clock. Its driver asks [`Tracker::next_action`] what to do, does it (a
//! status poll, a wait), and hands back what happened together with the
//! seconds that have passed since tracking began. The service alone decides
//! the state of an execution: the tracker records what was reported and
//! never moves to a state that it was not told.
//!
//! Policy where the protocol leaves a choice: the deadline has passed once
//! more seconds have gone by than it allows; a timeout ends the tracking
//! only, the remote execution is left running.

use crate::error::{DuneError, ErrorView};
use crate::types::{CancelExecutionResponse, ExecuteResponse, ExecutionState, ExecutionStatusResponse};
use vstd::prelude::*;

verus! {

/// How often to poll and how long to keep trying.
#[derive(Debug, Clone, Copy)]
pub struct TrackerConfig {
    /// Seconds to leave between one status poll and the next.
    pub poll_interval_secs: u64,
    /// The most seconds, counted from the start of tracking, to wait for a
    /// terminal state; `None` sets no limit.
    pub deadline_secs: Option<u64>,
}

/// What one status poll brought back.
#[derive(Debug, Clone)]
pub struct StatusReport {
    /// The status as the service reported it.
    pub status: ExecutionStatusResponse,
    /// The message that the service sent with it, if any.
    pub message: Option<String>,
}

impl StatusReport {
    /// The message of the report, empty where none was sent.
    pub open spec fn message_text(&self) -> Seq<char> {
        match self.message {
            Some(m) => m@,
            None => Seq::empty(),
        }
    }
}

/// What the driver is to do next.
#[derive(Debug)]
pub enum TrackerAction {
    /// Ask the service for the status now.
    Poll,
    /// Let this many seconds pass, then ask again what to do.
    Wait { seconds: u64 },
    /// Stop: the execution completed and its results may be fetched.
    Succeed,
    /// Stop with this error.
    Fail { error: DuneError },
}

/// The mathematical value of a [`TrackerAction`].
pub enum ActionView {
    Poll,
    Wait { seconds: u64 },
    Succeed,
    Fail { error: ErrorView },
}

impl ActionView {
    /// The action ends the tracking.
    pub open spec fn stops(self) -> bool {
        self is Succeed || self is Fail
    }
}

impl View for TrackerAction {
    type V = ActionView;

    open spec fn view(&self) -> ActionView {
        match *self {
            TrackerAction::Poll => ActionView::Poll,
            TrackerAction::Wait { seconds } => ActionView::Wait { seconds },
            TrackerAction::Succeed => ActionView::Succeed,
            TrackerAction::Fail { error } => ActionView::Fail { error: error@ },
        }
    }
}

/// One status report as the tracker takes it: what was reported, and when.
pub struct Observation {
    /// The reported state.
    pub state: ExecutionState,
    /// The message that came with it, empty where none did.
    pub message: Seq<char>,
    /// Seconds since tracking began at which the report was taken.
    pub at: u64,
}

/// The report at `index` is the first in `reports` with a terminal state.
pub open spec fn first_terminal_at(reports: Seq<Observation>, index: int) -> bool {
    &&& 0 <= index < reports.len()
    &&& reports[index].state.terminal()
    &&& forall|i: int| 0 <= i < index ==> !(#[trigger] reports[i]).state.terminal()
}

/// The mathematical value of a [`Tracker`]: what it was configured with and
/// what it has been told so far.
pub struct TrackerView {
    /// The execution that is tracked.
    pub execution_id: Seq<char>,
    /// Seconds to leave between polls.
    pub poll_interval_secs: u64,
    /// Seconds after which tracking gives up, if limited.
    pub deadline_secs: Option<u64>,
    /// The state that the service reported last.
    pub state: ExecutionState,
    /// The message that came with that state.
    pub message: Seq<char>,
    /// When the last status report was taken, in seconds since the start.
    pub last_poll_at: Option<u64>,
    /// Whether the service has accepted a request to cancel.
    pub cancel_accepted: bool,
}

impl TrackerView {
    /// The tracker as it starts: it knows the handle and nothing else.
    pub open spec fn start(
        execution_id: Seq<char>,
        state: ExecutionState,
        config: TrackerConfig,
    ) -> TrackerView {
        TrackerView {
            execution_id,
            poll_interval_secs: config.poll_interval_secs,
            deadline_secs: config.deadline_secs,
            state,
            message: Seq::empty(),
            last_poll_at: None,
            cancel_accepted: false,
        }
    }

    /// More seconds have passed than the deadline allows.
    pub open spec fn deadline_passed(self, elapsed: u64) -> bool {
        self.deadline_secs matches Some(limit) && elapsed > limit
    }

    /// Seconds still to let pass before the next poll is due: none before
    /// the first poll, else what is left of the interval since the last one.
    /// A clock reading from before the last poll counts as no time passed.
    pub open spec fn wait_left(self, elapsed: u64) -> int {
        match self.last_poll_at {
            None => 0,
            Some(at) => if elapsed <= at {
                self.poll_interval_secs as int
            } else if elapsed - at >= self.poll_interval_secs {
                0
            } else {
                self.poll_interval_secs - (elapsed - at)
            },
        }
    }

    /// What to do once `elapsed` seconds have passed. A terminal state
    /// decides by itself, whatever the clock says; short of one, the deadline
    /// is checked before any poll or wait.
    pub open spec fn action_at(self, elapsed: u64) -> ActionView {
        match self.state {
            ExecutionState::Completed => ActionView::Succeed,
            ExecutionState::Failed => ActionView::Fail {
                error: ErrorView::ExecutionFailed { message: self.message },
            },
            ExecutionState::Cancelled => ActionView::Fail { error: ErrorView::Cancelled },
            _ => if self.deadline_passed(elapsed) {
                ActionView::Fail { error: ErrorView::Timeout { seconds: elapsed } }
            } else if self.wait_left(elapsed) == 0 {
                ActionView::Poll
            } else {
                ActionView::Wait { seconds: self.wait_left(elapsed) as u64 }
            },
        }
    }

    /// The tracker after a status report taken at `elapsed` seconds. Short
    /// of a terminal state it holds exactly what was reported; a terminal
    /// state, once held, is never left.
    pub open spec fn observed(
        self,
        state: ExecutionState,
        message: Seq<char>,
        elapsed: u64,
    ) -> TrackerView {
        if self.state.terminal() {
            self
        } else {
            TrackerView { state, message, last_poll_at: Some(elapsed), ..self }
        }
    }

    /// The tracker after a run of status reports, taken in order.
    pub open spec fn observed_all(self, reports: Seq<Observation>) -> TrackerView
        decreases reports.len(),
    {
        if reports.len() == 0 {
            self
        } else {
            self.observed_all(reports.drop_last()).observed(
                reports.last().state,
                reports.last().message,
                reports.last().at,
            )
        }
    }

    /// The tracker after the service answered a request to cancel.
    pub open spec fn cancel_answered(self, accepted: bool) -> TrackerView {
        TrackerView { cancel_accepted: self.cancel_accepted || accepted, ..self }
    }

    /// The tracker with another interval between polls.
    pub open spec fn with_interval(self, seconds: u64) -> TrackerView {
        TrackerView { poll_interval_secs: seconds, ..self }
    }
}

/// Follows one execution from its handle to a terminal state.
#[derive(Debug)]
pub struct Tracker {
    execution_id: String,
    config: TrackerConfig,
    state: ExecutionState,
    message: String,
    last_poll_at: Option<u64>,
    cancel_accepted: bool,
}

impl View for Tracker {
    type V = TrackerView;

    closed spec fn view(&self) -> TrackerView {
        TrackerView {
            execution_id: self.execution_id@,
            poll_interval_secs: self.config.poll_interval_secs,
            deadline_secs: self.config.deadline_secs,
            state: self.state,
            message: self.message@,
            last_poll_at: self.last_poll_at,
            cancel_accepted: self.cancel_accepted,
        }
    }
}

impl Tracker {
    /// Starts tracking the execution behind `handle`.
    pub fn new(handle: &ExecuteResponse, config: TrackerConfig) -> (tracker: Tracker)
        ensures
            tracker@ == TrackerView::start(handle.execution_id@, handle.state, config),
    {
        Tracker {
            execution_id: handle.execution_id.clone(),
            config,
            state: handle.state,
            message: String::new(),
            last_poll_at: None,
            cancel_accepted: false,
        }
    }

    /// The identifier under which the driver polls.
    pub fn execution_id(&self) -> (id: &str)
        ensures
            id@ == self@.execution_id,
    {
        self.execution_id.as_str()
    }

    /// The state that the service reported last.
    pub fn state(&self) -> (state: ExecutionState)
        ensures
            state == self@.state,
    {
        self.state
    }

    /// Whether the service has accepted a request to cancel.
    pub fn cancel_accepted(&self) -> (accepted: bool)
        ensures
            accepted == self@.cancel_accepted,
    {
        self.cancel_accepted
    }

    /// Changes the interval between polls, for a driver whose policy is to
    /// back off. What was reported so far is kept.
    pub fn set_poll_interval(&mut self, seconds: u64)
        ensures
            final(self)@ == old(self)@.with_interval(seconds),
    {
        self.config.poll_interval_secs = seconds;
    }

    /// What the driver is to do once `elapsed_secs` seconds have passed
    /// since tracking began. The tracker is not changed: asking again with
    /// the same reading gives the same answer.
    pub fn next_action(&self, elapsed_secs: u64) -> (action: TrackerAction)
        ensures
            action@ == self@.action_at(elapsed_secs),
    {
        match self.state {
            ExecutionState::Completed => TrackerAction::Succeed,
            ExecutionState::Failed => TrackerAction::Fail {
                error: DuneError::ExecutionFailed { message: self.message.clone() },
            },
            ExecutionState::Cancelled => TrackerAction::Fail { error: DuneError::Cancelled },
            _ => {
                if let Some(limit) = self.config.deadline_secs {
                    if elapsed_secs > limit {
                        return TrackerAction::Fail {
                            error: DuneError::Timeout { seconds: elapsed_secs },
                        };
                    }
                }
                match self.last_poll_at {
                    None => TrackerAction::Poll,
                    Some(at) => {
                        let interval = self.config.poll_interval_secs;
                        if elapsed_secs <= at {
                            if interval == 0 {
                                TrackerAction::Poll
                            } else {
                                TrackerAction::Wait { seconds: interval }
                            }
                        } else if elapsed_secs - at >= interval {
                            TrackerAction::Poll
                        } else {
                            TrackerAction::Wait { seconds: interval - (elapsed_secs - at) }
                        }
                    },
                }
            },
        }
    }

    /// Records a status report taken at `elapsed_secs` seconds.
    pub fn observe(&mut self, report: &StatusReport, elapsed_secs: u64)
        ensures
            final(self)@ == old(self)@.observed(
                report.status.state,
                report.message_text(),
                elapsed_secs,
            ),
    {
        if !self.state.is_terminal() {
            self.state = report.status.state;
            self.message =
            match &report.message {
                Some(m) => m.clone(),
                None => String::new(),
            };
            self.last_poll_at = Some(elapsed_secs);
        }
    }

    /// Takes the outcome of one status poll, made at `elapsed_secs` seconds,
    /// and says what to do next. A report is recorded and then decides; a
    /// poll that failed ends the tracking with its own error and leaves the
    /// tracker as it was.
    pub fn step(&mut self, polled: Result<StatusReport, DuneError>, elapsed_secs: u64) -> (action:
        TrackerAction)
        ensures
            match polled {
                Ok(report) => final(self)@ == old(self)@.observed(
                    report.status.state,
                    report.message_text(),
                    elapsed_secs,
                ) && action@ == final(self)@.action_at(elapsed_secs),
                Err(error) => final(self)@ == old(self)@ && action@ == (ActionView::Fail {
                    error: error@,
                }),
            },
    {
        match polled {
            Ok(report) => {
                self.observe(&report, elapsed_secs);
                self.next_action(elapsed_secs)
            },
            Err(error) => TrackerAction::Fail { error },
        }
    }

    /// Records the service's answer to a request to cancel and returns
    /// whether the request was accepted. The answer is no status report: the
    /// state stays what the service last reported.
    pub fn cancel_answered(&mut self, answer: &CancelExecutionResponse) -> (accepted: bool)
        ensures
            accepted == answer.success,
            final(self)@ == old(self)@.cancel_answered(answer.success),
    {
        if answer.success {
            self.cancel_accepted = true;
        }
        answer.success
    }
}

/// No transition leaves a terminal state: a tracker that holds one is not
/// changed by any later report, and its verdict is the same at every time.
pub proof fn lemma_terminal_is_final(
    t: TrackerView,
    state: ExecutionState,
    message: Seq<char>,
    at: u64,
    earlier: u64,
    later: u64,
)
    requires
        t.state.terminal(),
    ensures
        t.observed(state, message, at) == t,
        t.action_at(earlier).stops(),
        t.observed(state, message, at).action_at(later) == t.action_at(earlier),
{
}

/// The tracker moves only where the service says: short of a terminal
/// state, the state after a report is the reported one, and the verdict on
/// it is the verdict on what was reported.
pub proof fn lemma_state_is_as_reported(
    t: TrackerView,
    state: ExecutionState,
    message: Seq<char>,
    at: u64,
)
    requires
        !t.state.terminal(),
    ensures
        t.observed(state, message, at).state == state,
        t.observed(state, message, at).message == message,
        state == ExecutionState::Completed ==> t.observed(state, message, at).action_at(at)
            == ActionView::Succeed,
        state == ExecutionState::Failed ==> t.observed(state, message, at).action_at(at) == (
        ActionView::Fail { error: ErrorView::ExecutionFailed { message } }),
        state == ExecutionState::Cancelled ==> t.observed(state, message, at).action_at(at) == (
        ActionView::Fail { error: ErrorView::Cancelled }),
        !state.terminal() ==> !(t.observed(state, message, at).action_at(at) is Succeed),
{
}

/// Reports taken one run after another are reports taken in one run.
proof fn lemma_observed_all_splits(t: TrackerView, first: Seq<Observation>, rest: Seq<Observation>)
    ensures
        t.observed_all(first + rest) == t.observed_all(first).observed_all(rest),
    decreases rest.len(),
{
    if rest.len() == 0 {
        assert(first + rest =~= first);
    } else {
        lemma_observed_all_splits(t, first, rest.drop_last());
        assert((first + rest).drop_last() =~= first + rest.drop_last());
        assert((first + rest).last() == rest.last());
    }
}

/// As long as no report is terminal the tracker holds the latest one.
proof fn lemma_latest_report_is_held(t: TrackerView, reports: Seq<Observation>)
    requires
        !t.state.terminal(),
        forall|i: int| 0 <= i < reports.len() ==> !(#[trigger] reports[i]).state.terminal(),
    ensures
        !t.observed_all(reports).state.terminal(),
        reports.len() > 0 ==> t.observed_all(reports).state == reports.last().state
            && t.observed_all(reports).message == reports.last().message
            && t.observed_all(reports).last_poll_at == Some(reports.last().at),
        t.observed_all(reports).deadline_secs == t.deadline_secs,
        t.observed_all(reports).poll_interval_secs == t.poll_interval_secs,
    decreases reports.len(),
{
    if reports.len() > 0 {
        lemma_latest_report_is_held(t, reports.drop_last());
    }
}

/// A tracker that holds a terminal state holds it after any run of reports.
proof fn lemma_terminal_outlasts_reports(t: TrackerView, reports: Seq<Observation>)
    requires
        t.state.terminal(),
    ensures
        t.observed_all(reports) == t,
    decreases reports.len(),
{
    if reports.len() > 0 {
        lemma_terminal_outlasts_reports(t, reports.drop_last());
    }
}

/// The first terminal report decides, and nothing before or after it does.
/// Of a run of reports whose first terminal one is at `index`: after any
/// fewer reports the tracker holds no terminal state, so it has not
/// succeeded and goes on polling while the deadline allows; after that
/// report it holds the reported state with its message, and every later
/// report leaves it so. Tracking thus ends on poll number `index + 1`, with
/// success for `Completed`, with the service's message for `Failed`, and with
/// the cancellation error for `Cancelled`.
pub proof fn lemma_first_terminal_report_decides(
    t: TrackerView,
    reports: Seq<Observation>,
    index: int,
    elapsed: u64,
)
    requires
        !t.state.terminal(),
        first_terminal_at(reports, index),
    ensures
        forall|n: int|
            0 <= n <= index ==> !(#[trigger] t.observed_all(reports.take(n))).state.terminal(),
        forall|n: int|
            index < n <= reports.len() ==> (#[trigger] t.observed_all(reports.take(n))).state
                == reports[index].state && t.observed_all(reports.take(n)).message
                == reports[index].message,
        t.observed_all(reports).state == reports[index].state,
        t.observed_all(reports).action_at(elapsed) == match reports[index].state {
            ExecutionState::Completed => ActionView::Succeed,
            ExecutionState::Failed => ActionView::Fail {
                error: ErrorView::ExecutionFailed { message: reports[index].message },
            },
            _ => ActionView::Fail { error: ErrorView::Cancelled },
        },
{
    assert forall|n: int| 0 <= n <= index implies !(#[trigger] t.observed_all(
        reports.take(n),
    )).state.terminal() by {
        lemma_latest_report_is_held(t, reports.take(n));
    }
    assert forall|n: int| index < n <= reports.len() implies (#[trigger] t.observed_all(
        reports.take(n),
    )).state == reports[index].state && t.observed_all(reports.take(n)).message
        == reports[index].message by {
        let before = reports.take(index);
        let upto = reports.take(index + 1);
        let after = reports.subrange(index + 1, n);
        lemma_latest_report_is_held(t, before);
        assert(upto.drop_last() =~= before);
        assert(upto.last() == reports[index]);
        assert(t.observed_all(upto).state == reports[index].state);
        lemma_terminal_outlasts_reports(t.observed_all(upto), after);
        lemma_observed_all_splits(t, upto, after);
        assert(upto + after =~= reports.take(n));
    }
    assert(reports.take(reports.len() as int) =~= reports);
}

/// Short of a terminal report only the deadline stops the tracking. After
/// a run of reports none of which is terminal, the tracker stops exactly when
/// more seconds have passed than the deadline allows, and then with a timeout
/// that carries the seconds passed; until then it asks for the next poll, or
/// for a wait of at most the interval.
pub proof fn lemma_only_the_deadline_stops_an_open_run(
    t: TrackerView,
    reports: Seq<Observation>,
    elapsed: u64,
)
    requires
        !t.state.terminal(),
        forall|i: int| 0 <= i < reports.len() ==> !(#[trigger] reports[i]).state.terminal(),
    ensures
        t.observed_all(reports).action_at(elapsed).stops() <==> t.deadline_passed(elapsed),
        t.deadline_passed(elapsed) ==> t.observed_all(reports).action_at(elapsed) == (
        ActionView::Fail { error: ErrorView::Timeout { seconds: elapsed } }),
        t.observed_all(reports).action_at(elapsed) matches ActionView::Wait { seconds }
            ==> seconds <= t.poll_interval_secs,
{
    lemma_latest_report_is_held(t, reports);
}

/// Every change of the tracker's state is a transition of the lifecycle,
/// as long as the service does not report `Pending` for an execution that it
/// reported `Executing` before.
pub proof fn lemma_changes_follow_the_lifecycle(
    t: TrackerView,
    state: ExecutionState,
    message: Seq<char>,
    at: u64,
)
    requires
        !(t.state == ExecutionState::Executing && state == ExecutionState::Pending),
    ensures
        t.observed(state, message, at).state == t.state || t.state.may_become(
            t.observed(state, message, at).state,
        ),
{
}

/// The tracker stops exactly when it holds a terminal state or the
/// deadline has passed, and it succeeds exactly on `Completed`.
pub proof fn lemma_stops_exactly_when_due(t: TrackerView, elapsed: u64)
    ensures
        t.action_at(elapsed).stops() <==> t.state.terminal() || t.deadline_passed(elapsed),
        t.action_at(elapsed) is Succeed <==> t.state == ExecutionState::Completed,
        t.action_at(elapsed) matches ActionView::Fail { error: ErrorView::Timeout { seconds } }
            ==> seconds == elapsed && !t.state.terminal(),
{
}

/// Once the tracker has said to stop, it never asks for a poll or a wait
/// again: not as time goes on, and not after a further report.
pub proof fn lemma_stop_is_final(
    t: TrackerView,
    stopped_at: u64,
    state: ExecutionState,
    message: Seq<char>,
    at: u64,
    later: u64,
)
    requires
        t.action_at(stopped_at).stops(),
        stopped_at <= later,
    ensures
        t.action_at(later).stops(),
        t.observed(state, message, at).action_at(later).stops(),
{
}

/// Polls keep their distance. Where the tracker asks for a poll, the
/// interval has passed since the last one; where it asks for a wait, the wait
/// is no longer than the interval and ends when the next poll is due, so a
/// deadline is overrun by less than one interval.
pub proof fn lemma_polls_keep_interval(t: TrackerView, elapsed: u64)
    ensures
        t.action_at(elapsed) is Poll ==> (t.last_poll_at matches Some(at) ==> at
            + t.poll_interval_secs <= elapsed || t.poll_interval_secs == 0),
        t.action_at(elapsed) matches ActionView::Wait { seconds } ==> {
            &&& 0 < seconds <= t.poll_interval_secs
            &&& t.last_poll_at matches Some(at) && (at <= elapsed ==> at + t.poll_interval_secs
                == elapsed + seconds)
            &&& t.deadline_secs matches Some(limit) ==> elapsed + seconds <= limit
                + t.poll_interval_secs
        },
{
}

/// An answer to a request to cancel ends nothing: whatever the service
/// answered, the tracker's state is unchanged and so is what it says to do.
/// Only a status report of `Cancelled` yields the `Cancelled` error.
pub proof fn lemma_cancel_answer_decides_nothing(t: TrackerView, accepted: bool, elapsed: u64)
    ensures
        t.cancel_answered(accepted).state == t.state,
        t.cancel_answered(accepted).action_at(elapsed) == t.action_at(elapsed),
        t.action_at(elapsed) == (ActionView::Fail { error: ErrorView::Cancelled }) <==> t.state
            == ExecutionState::Cancelled,
{
}

} // verus!
