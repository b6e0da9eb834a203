//! The background worker that tracks jobs.
//!
//! The worker alternates between work that only its surroundings can do
//! (calling the engine, sending and receiving on channels, sleeping) and
//! decisions. The decisions stand here: [`JobTracker`] holds the jobs and
//! the step the worker is at, says which action comes next, and takes the
//! outcome of that action as an event.

use crate::errors::{ErrorView, GalionError};
use crate::jobs::{
    any_waiting, inserted_entry, key_lt, lemma_inserted_entry, lemma_next_waiting,
    lemma_sorted_state_of, next_waiting, sorted, state_of, CommandView, EntryView, JobKey,
    JobState, JobStateView, JobStatus, JobsList, StatusView, SyncJob, SyncJobData,
};
use crate::json::{json_compact, parse_json, Json};
use crate::rclone::{
    reply_view, spec_decode, spec_job_id, spec_sync, Rclone, ReplyView,
};
use crate::text::{joined, option_text};
use vstd::prelude::*;
use vstd::string::*;

verus! {

/// Milliseconds that the worker sleeps when jobs are outstanding and no
/// command is waiting.
pub const POLL_INTERVAL_MS: u64 = 500;

/// The error raised for a report of the engine in which `field` is missing
/// or of the wrong kind.
pub open spec fn bad_status(field: Seq<char>) -> ErrorView {
    ErrorView::plain("invalid job status: "@ + field)
}

/// The report that a document of the engine holds: `success` as a truth
/// value, `duration` as a number, `error` and `startTime` as strings. The
/// first of them that is missing or of another kind gives the error.
/// `debug` is the whole report as text.
pub open spec fn spec_status(value: Json, debug: Option<Seq<char>>) -> Result<
    StatusView,
    ErrorView,
> {
    match value.spec_get("success"@) {
        Some(Json::Bool(success)) => match value.spec_get("duration"@) {
            Some(Json::Number(number)) if number.decimal is Some => match value.spec_get(
                "error"@,
            ) {
                Some(Json::Text(error)) => match value.spec_get("startTime"@) {
                    Some(Json::Text(start_time)) => Ok(
                        StatusView {
                            success,
                            duration: number.decimal->0@,
                            error: error@,
                            start_time: start_time@,
                            debug_str: debug,
                        },
                    ),
                    _ => Err(bad_status("startTime"@)),
                },
                _ => Err(bad_status("error"@)),
            },
            _ => Err(bad_status("duration"@)),
        },
        _ => Err(bad_status("success"@)),
    }
}

/// Whether a report says that the job has finished: its member `finished`
/// is `true`.
pub open spec fn spec_finished(value: Json) -> bool {
    value.spec_get("finished"@) == Some(Json::Bool(true))
}

/// What a poll of one job brought.
#[derive(Debug, PartialEq, Eq)]
pub enum PollOutcome {
    /// The engine could not be reached or did not answer with a document.
    Unavailable,
    /// The engine answered with a document that is no report.
    Malformed(GalionError),
    /// The engine reported.
    Report {
        /// Whether the job has finished.
        finished: bool,
        /// The report.
        status: JobStatus,
    },
}

/// The mathematical value of a [`PollOutcome`].
pub enum OutcomeView {
    Unavailable,
    Malformed(ErrorView),
    Report { finished: bool, status: StatusView },
}

impl View for PollOutcome {
    type V = OutcomeView;

    open spec fn view(&self) -> OutcomeView {
        match self {
            PollOutcome::Unavailable => OutcomeView::Unavailable,
            PollOutcome::Malformed(error) => OutcomeView::Malformed(error@),
            PollOutcome::Report { finished, status } => OutcomeView::Report {
                finished: *finished,
                status: status@,
            },
        }
    }
}

/// What a poll brought, given the document that the engine answered with
/// and that document as text.
pub open spec fn spec_outcome_of(value: Json, debug: Option<Seq<char>>) -> OutcomeView {
    match spec_status(value, debug) {
        Ok(status) => OutcomeView::Report { finished: spec_finished(value), status },
        Err(error) => OutcomeView::Malformed(error),
    }
}

/// What a poll brought, given the outcome of the call.
pub open spec fn spec_poll_outcome(reply: ReplyView) -> OutcomeView {
    match (reply, spec_decode(reply)) {
        (Ok(output), Ok(value)) => spec_outcome_of(value, json_compact(output)),
        _ => OutcomeView::Unavailable,
    }
}

/// What a request to synchronise brought: the job's identifier, if the
/// engine gave one, or the engine's error.
pub open spec fn spec_submit_outcome(reply: ReplyView) -> Result<Option<u64>, ErrorView> {
    match spec_sync(reply) {
        Ok(value) => Ok(spec_job_id(value)),
        Err(error) => Err(error),
    }
}

impl JobStatus {
    /// The report that a document of the engine holds.
    pub fn from_json(value: &Json, debug_str: Option<String>) -> (status: Result<
        JobStatus,
        GalionError,
    >)
        ensures
            match status {
                Ok(found) => spec_status(*value, option_text(debug_str)) == Ok::<
                    StatusView,
                    ErrorView,
                >(found@),
                Err(error) => spec_status(*value, option_text(debug_str)) == Err::<
                    StatusView,
                    ErrorView,
                >(error@),
            },
    {
        let success = match value.get("success") {
            Some(Json::Bool(flag)) => *flag,
            _ => {
                return Err(GalionError::new(joined("invalid job status: ", "success").as_str()));
            },
        };
        let duration = match value.get("duration") {
            Some(Json::Number(number)) => match &number.decimal {
                Some(text) => text.clone(),
                None => {
                    return Err(
                        GalionError::new(joined("invalid job status: ", "duration").as_str()),
                    );
                },
            },
            _ => {
                return Err(GalionError::new(joined("invalid job status: ", "duration").as_str()));
            },
        };
        let error = match value.get("error") {
            Some(Json::Text(text)) => text.clone(),
            _ => {
                return Err(GalionError::new(joined("invalid job status: ", "error").as_str()));
            },
        };
        let start_time = match value.get("startTime") {
            Some(Json::Text(text)) => text.clone(),
            _ => {
                return Err(GalionError::new(joined("invalid job status: ", "startTime").as_str()));
            },
        };
        Ok(JobStatus { success, duration, error, start_time, debug_str })
    }
}

/// Whether a report says that the job has finished.
pub fn is_finished(value: &Json) -> (finished: bool)
    ensures
        finished == spec_finished(*value),
{
    match value.get("finished") {
        Some(Json::Bool(flag)) => *flag,
        _ => false,
    }
}

/// What a poll brought, given the document that the engine answered with
/// and that document as text.
pub fn outcome_of(value: &Json, debug_str: Option<String>) -> (outcome: PollOutcome)
    ensures
        outcome@ == spec_outcome_of(*value, option_text(debug_str)),
{
    let finished = is_finished(value);
    match JobStatus::from_json(value, debug_str) {
        Ok(status) => PollOutcome::Report { finished, status },
        Err(error) => PollOutcome::Malformed(error),
    }
}

/// What a poll brought, given the outcome of the call.
pub fn poll_outcome(reply: &Result<String, String>) -> (outcome: PollOutcome)
    ensures
        outcome@ == spec_poll_outcome(reply_view(*reply)),
{
    match reply {
        Ok(output) => match parse_json(output.as_str()) {
            Ok(read) => outcome_of(&read.0, Some(read.1)),
            Err(_) => PollOutcome::Unavailable,
        },
        Err(_) => PollOutcome::Unavailable,
    }
}

/// What a request to synchronise brought, given the outcome of the call.
pub fn submit_outcome(reply: &Result<String, String>) -> (outcome: Result<Option<u64>, GalionError>)
    ensures
        match outcome {
            Ok(job_id) => spec_submit_outcome(reply_view(*reply)) == Ok::<
                Option<u64>,
                ErrorView,
            >(job_id),
            Err(error) => spec_submit_outcome(reply_view(*reply)) == Err::<
                Option<u64>,
                ErrorView,
            >(error@),
        },
{
    match Rclone::sync(reply) {
        Ok(value) => Ok(Rclone::job_id_of(&value)),
        Err(error) => Err(error),
    }
}

/// What a non-blocking look at the command channel brought.
#[derive(Debug, PartialEq, Eq)]
pub enum Checked {
    /// A command was waiting.
    Command(SyncJob),
    /// No command was waiting.
    Empty,
    /// The front end has closed the channel.
    Disconnected,
}

/// The outcome of the action that the worker asked for last.
#[derive(Debug, PartialEq, Eq)]
pub enum WorkerEvent {
    /// A job was polled.
    Polled(PollOutcome),
    /// The jobs were sent to the front end; `false` if it no longer listens.
    Published(bool),
    /// The command channel was looked at without blocking.
    Checked(Checked),
    /// The pause is over.
    Slept,
    /// A command arrived; `None` if the front end has closed the channel.
    Received(Option<SyncJob>),
    /// A job was submitted.
    Submitted(Result<Option<u64>, GalionError>),
    /// The attempt to tell the front end of the failure was made.
    Notified,
}

/// What the worker has to do next.
#[derive(Debug, PartialEq, Eq)]
pub enum WorkerAction {
    /// Ask the engine for the status of the job with this identifier.
    PollStatus(u64),
    /// Send these jobs to the front end.
    SendSnapshot(JobsList),
    /// Look at the command channel without blocking.
    CheckCommand,
    /// Pause for this many milliseconds.
    Sleep(u64),
    /// Wait for a command.
    AwaitCommand,
    /// Ask the engine to synchronise.
    SubmitSync {
        /// Source locator.
        src: String,
        /// Destination locator.
        dest: String,
    },
    /// Tell the front end that the worker has failed.
    SendTermination,
    /// Stop, with this result.
    Finish(Result<(), GalionError>),
}

/// The step the worker is at: the action whose outcome it awaits.
#[derive(Debug, PartialEq, Eq)]
pub enum Phase {
    /// The job at this position is being polled.
    Polling(usize),
    /// The jobs are being sent to the front end.
    Publishing,
    /// The command channel is being looked at.
    Checking,
    /// The worker pauses.
    Sleeping,
    /// The worker waits for a command.
    Waiting,
    /// This job is being submitted.
    Submitting(SyncJobData),
    /// The front end is being told of this failure.
    Failing(GalionError),
    /// The worker has stopped, with this failure if there was one.
    Stopped(Option<GalionError>),
}

/// The mathematical value of a [`WorkerEvent`].
pub enum EventView {
    Polled(OutcomeView),
    Published(bool),
    Command(CommandView),
    Empty,
    Disconnected,
    Slept,
    Submitted(Result<Option<u64>, ErrorView>),
    Notified,
}

impl View for WorkerEvent {
    type V = EventView;

    open spec fn view(&self) -> EventView {
        match self {
            WorkerEvent::Polled(outcome) => EventView::Polled(outcome@),
            WorkerEvent::Published(sent) => EventView::Published(*sent),
            WorkerEvent::Checked(Checked::Command(command)) => EventView::Command(command@),
            WorkerEvent::Checked(Checked::Empty) => EventView::Empty,
            WorkerEvent::Checked(Checked::Disconnected) => EventView::Disconnected,
            WorkerEvent::Slept => EventView::Slept,
            WorkerEvent::Received(Some(command)) => EventView::Command(command@),
            WorkerEvent::Received(None) => EventView::Disconnected,
            WorkerEvent::Submitted(Ok(job_id)) => EventView::Submitted(Ok(*job_id)),
            WorkerEvent::Submitted(Err(error)) => EventView::Submitted(Err(error@)),
            WorkerEvent::Notified => EventView::Notified,
        }
    }
}

/// The mathematical value of a [`WorkerAction`].
pub enum ActionView {
    PollStatus(u64),
    SendSnapshot(Seq<EntryView>),
    CheckCommand,
    Sleep(u64),
    AwaitCommand,
    SubmitSync { src: Seq<char>, dest: Seq<char> },
    SendTermination,
    Finish(Option<ErrorView>),
}

impl View for WorkerAction {
    type V = ActionView;

    open spec fn view(&self) -> ActionView {
        match self {
            WorkerAction::PollStatus(job_id) => ActionView::PollStatus(*job_id),
            WorkerAction::SendSnapshot(jobs) => ActionView::SendSnapshot(jobs@),
            WorkerAction::CheckCommand => ActionView::CheckCommand,
            WorkerAction::Sleep(ms) => ActionView::Sleep(*ms),
            WorkerAction::AwaitCommand => ActionView::AwaitCommand,
            WorkerAction::SubmitSync { src, dest } => ActionView::SubmitSync {
                src: src@,
                dest: dest@,
            },
            WorkerAction::SendTermination => ActionView::SendTermination,
            WorkerAction::Finish(Ok(_)) => ActionView::Finish(None),
            WorkerAction::Finish(Err(error)) => ActionView::Finish(Some(error@)),
        }
    }
}

/// The mathematical value of a [`Phase`].
pub enum PhaseView {
    Polling(int),
    Publishing,
    Checking,
    Sleeping,
    Waiting,
    Submitting(JobKey),
    Failing(ErrorView),
    Stopped(Option<ErrorView>),
}

impl View for Phase {
    type V = PhaseView;

    open spec fn view(&self) -> PhaseView {
        match self {
            Phase::Polling(at) => PhaseView::Polling(*at as int),
            Phase::Publishing => PhaseView::Publishing,
            Phase::Checking => PhaseView::Checking,
            Phase::Sleeping => PhaseView::Sleeping,
            Phase::Waiting => PhaseView::Waiting,
            Phase::Submitting(job) => PhaseView::Submitting(job@),
            Phase::Failing(error) => PhaseView::Failing(error@),
            Phase::Stopped(Some(error)) => PhaseView::Stopped(Some(error@)),
            Phase::Stopped(None) => PhaseView::Stopped(None),
        }
    }
}

/// The state of a job after a poll that brought `outcome`: a report makes it
/// `Done` if the job has finished and `Pending` if not; anything else leaves
/// it as it is. A job that is `Done` is not polled and stays as it is.
pub open spec fn polled(state: JobStateView, outcome: OutcomeView) -> JobStateView {
    match outcome {
        OutcomeView::Report { finished, status } if state.is_waiting() => if finished {
            JobStateView::Done(status)
        } else {
            JobStateView::Pending(status)
        },
        _ => state,
    }
}

/// The state of a job after a series of polls.
pub open spec fn polled_all(state: JobStateView, outcomes: Seq<OutcomeView>) -> JobStateView
    decreases outcomes.len(),
{
    if outcomes.len() == 0 {
        state
    } else {
        polled(polled_all(state, outcomes.drop_last()), outcomes.last())
    }
}

/// The error with which the worker stops when `cause` made it fail.
pub open spec fn crashed(cause: ErrorView) -> ErrorView {
    ErrorView::plain("Background thread crashed: "@ + cause.text())
}

/// The jobs and the step of the worker, as mathematical values.
pub struct TrackerView {
    pub jobs: Seq<EntryView>,
    pub phase: PhaseView,
}

/// The step at the start of a round: poll the first waiting job if any job
/// waits, otherwise wait for a command.
pub open spec fn round_start(jobs: Seq<EntryView>) -> PhaseView {
    if next_waiting(jobs, 0) < jobs.len() {
        PhaseView::Polling(next_waiting(jobs, 0))
    } else {
        PhaseView::Waiting
    }
}

/// The step after the job at `at` was polled: poll the next waiting job
/// behind it, or send the jobs to the front end if there is none.
pub open spec fn poll_next(jobs: Seq<EntryView>, at: int) -> PhaseView {
    if next_waiting(jobs, at + 1) < jobs.len() {
        PhaseView::Polling(next_waiting(jobs, at + 1))
    } else {
        PhaseView::Publishing
    }
}

/// The step that a command leads to.
pub open spec fn commanded(command: CommandView) -> PhaseView {
    match command {
        CommandView::Exit => PhaseView::Stopped(None),
        CommandView::Sync(job) => PhaseView::Submitting(job),
    }
}

impl TrackerView {
    /// The jobs are sorted, and a job that is being polled is listed and
    /// not `Done`.
    pub open spec fn wf(self) -> bool {
        &&& sorted(self.jobs)
        &&& self.phase matches PhaseView::Polling(at) ==> 0 <= at < self.jobs.len()
            && self.jobs[at].1.is_waiting()
    }

    /// The worker as it starts: no jobs, waiting for a command.
    pub open spec fn initial() -> TrackerView {
        TrackerView { jobs: Seq::empty(), phase: PhaseView::Waiting }
    }

    /// The action whose outcome the worker awaits.
    pub open spec fn action(self) -> ActionView {
        match self.phase {
            PhaseView::Polling(at) => ActionView::PollStatus(self.jobs[at].0.job_id),
            PhaseView::Publishing => ActionView::SendSnapshot(self.jobs),
            PhaseView::Checking => ActionView::CheckCommand,
            PhaseView::Sleeping => ActionView::Sleep(POLL_INTERVAL_MS),
            PhaseView::Waiting => ActionView::AwaitCommand,
            PhaseView::Submitting(job) => ActionView::SubmitSync { src: job.src, dest: job.dest },
            PhaseView::Failing(_) => ActionView::SendTermination,
            PhaseView::Stopped(failure) => ActionView::Finish(failure),
        }
    }

    /// The worker after the outcome `event` of its action. An event that is
    /// no outcome of the awaited action changes nothing.
    pub open spec fn step(self, event: EventView) -> TrackerView {
        match (self.phase, event) {
            (PhaseView::Polling(at), EventView::Polled(OutcomeView::Malformed(error))) => {
                TrackerView { phase: PhaseView::Failing(crashed(error)), ..self }
            },
            (PhaseView::Polling(at), EventView::Polled(outcome)) => {
                let jobs = self.jobs.update(at, (self.jobs[at].0, polled(self.jobs[at].1, outcome)));
                TrackerView { jobs, phase: poll_next(jobs, at) }
            },
            (PhaseView::Publishing, EventView::Published(sent)) => {
                if sent {
                    TrackerView { phase: PhaseView::Checking, ..self }
                } else {
                    TrackerView { phase: PhaseView::Stopped(None), ..self }
                }
            },
            (PhaseView::Checking, EventView::Command(command)) => {
                TrackerView { phase: commanded(command), ..self }
            },
            (PhaseView::Checking, EventView::Empty) => {
                TrackerView { phase: PhaseView::Sleeping, ..self }
            },
            (PhaseView::Checking, EventView::Disconnected) => {
                TrackerView { phase: PhaseView::Stopped(None), ..self }
            },
            (PhaseView::Sleeping, EventView::Slept) => {
                TrackerView { phase: round_start(self.jobs), ..self }
            },
            (PhaseView::Waiting, EventView::Command(command)) => {
                TrackerView { phase: commanded(command), ..self }
            },
            (PhaseView::Waiting, EventView::Disconnected) => {
                TrackerView { phase: PhaseView::Stopped(None), ..self }
            },
            (PhaseView::Submitting(job), EventView::Submitted(Ok(Some(job_id)))) => {
                let jobs = inserted_entry(
                    self.jobs,
                    JobKey { job_id, ..job },
                    JobStateView::Sent,
                );
                TrackerView { jobs, phase: round_start(jobs) }
            },
            (PhaseView::Submitting(job), EventView::Submitted(Ok(None))) => {
                TrackerView { phase: round_start(self.jobs), ..self }
            },
            (PhaseView::Submitting(job), EventView::Submitted(Err(error))) => {
                TrackerView { phase: PhaseView::Failing(crashed(error)), ..self }
            },
            (PhaseView::Failing(error), EventView::Notified) => {
                TrackerView { phase: PhaseView::Stopped(Some(error)), ..self }
            },
            _ => self,
        }
    }
}

/// Every step keeps the worker well formed.
pub proof fn lemma_step_wf(tracker: TrackerView, event: EventView)
    requires
        tracker.wf(),
    ensures
        tracker.step(event).wf(),
{
    let after = tracker.step(event);
    match (tracker.phase, event) {
        (PhaseView::Polling(at), EventView::Polled(OutcomeView::Malformed(error))) => {},
        (PhaseView::Polling(at), EventView::Polled(outcome)) => {
            assert forall|i: int, j: int| 0 <= i < j < after.jobs.len() implies key_lt(
                (#[trigger] after.jobs[i]).0,
                (#[trigger] after.jobs[j]).0,
            ) by {
                assert(after.jobs[i].0 == tracker.jobs[i].0);
                assert(after.jobs[j].0 == tracker.jobs[j].0);
            }
            lemma_next_waiting(after.jobs, at + 1);
        },
        (PhaseView::Sleeping, EventView::Slept) => {
            lemma_next_waiting(tracker.jobs, 0);
        },
        (PhaseView::Submitting(job), EventView::Submitted(Ok(Some(job_id)))) => {
            lemma_inserted_entry(tracker.jobs, JobKey { job_id, ..job }, JobStateView::Sent);
            lemma_next_waiting(after.jobs, 0);
        },
        (PhaseView::Submitting(job), EventView::Submitted(Ok(None))) => {
            lemma_next_waiting(tracker.jobs, 0);
        },
        _ => {},
    }
}

/// A job that is `Done` keeps its state through every step, but for one
/// case: the engine gives a newly submitted job the identity of a job that
/// is listed already, which then starts anew as `Sent`.
pub proof fn lemma_done_is_final(tracker: TrackerView, event: EventView, key: JobKey)
    requires
        tracker.wf(),
        state_of(tracker.jobs, key) matches Some(state) && state is Done,
        !(tracker.phase matches PhaseView::Submitting(job) && event matches EventView::Submitted(
            Ok(Some(job_id)),
        ) && key == (JobKey { job_id, ..job })),
    ensures
        state_of(tracker.step(event).jobs, key) == state_of(
            tracker.jobs,
            key,
        ),
{
    let after = tracker.step(event);
    let i = choose|i: int| 0 <= i < tracker.jobs.len() && (#[trigger] tracker.jobs[i]).0 == key;
    lemma_sorted_state_of(tracker.jobs, i);
    lemma_step_wf(tracker, event);
    match (tracker.phase, event) {
        (PhaseView::Polling(at), EventView::Polled(OutcomeView::Malformed(error))) => {},
        (PhaseView::Polling(at), EventView::Polled(outcome)) => {
            assert(after.jobs[i].0 == key);
            assert(after.jobs[i].1 == tracker.jobs[i].1);
            lemma_sorted_state_of(after.jobs, i);
        },
        (PhaseView::Submitting(job), EventView::Submitted(Ok(Some(job_id)))) => {
            lemma_inserted_entry(tracker.jobs, JobKey { job_id, ..job }, JobStateView::Sent);
        },
        _ => {},
    }
}

/// A poll changes the job that is polled as `polled` says, and no other job.
pub proof fn lemma_poll_step(tracker: TrackerView, outcome: OutcomeView)
    requires
        tracker.wf(),
        tracker.phase is Polling,
    ensures
        tracker.step(EventView::Polled(outcome)).jobs.len() == tracker.jobs.len(),
        forall|i: int|
            0 <= i < tracker.jobs.len() ==> (#[trigger] tracker.step(
                EventView::Polled(outcome),
            ).jobs[i]) == (if i == tracker.phase->Polling_0 {
                (tracker.jobs[i].0, polled(tracker.jobs[i].1, outcome))
            } else {
                tracker.jobs[i]
            }),
{
}

/// A round starts at the first job that waits, and with waiting for a
/// command if no job waits.
pub proof fn lemma_round_start(jobs: Seq<EntryView>)
    ensures
        match round_start(jobs) {
            PhaseView::Polling(first) => 0 <= first < jobs.len() && jobs[first].1.is_waiting()
                && forall|i: int| 0 <= i < first ==> !(#[trigger] jobs[i]).1.is_waiting(),
            PhaseView::Waiting => !any_waiting(jobs),
            _ => false,
        },
{
    lemma_next_waiting(jobs, 0);
}

/// The polls of a round go through the waiting jobs in order and skip
/// none: after the poll of one job comes the next job that waits, and once
/// none is left the jobs are sent to the front end.
pub proof fn lemma_poll_order(tracker: TrackerView, outcome: OutcomeView)
    requires
        tracker.wf(),
        tracker.phase is Polling,
        !(outcome is Malformed),
    ensures
        ({
            let at = tracker.phase->Polling_0;
            let after = tracker.step(EventView::Polled(outcome));
            match after.phase {
                PhaseView::Polling(next) => at < next < after.jobs.len()
                    && after.jobs[next].1.is_waiting() && forall|i: int|
                    at < i < next ==> !(#[trigger] after.jobs[i]).1.is_waiting(),
                PhaseView::Publishing => forall|i: int|
                    at < i < after.jobs.len() ==> !(#[trigger] after.jobs[i]).1.is_waiting(),
                _ => false,
            }
        }),
{
    let at = tracker.phase->Polling_0;
    let after = tracker.step(EventView::Polled(outcome));
    lemma_next_waiting(after.jobs, at + 1);
}

/// How a job fares under a series of polls. A job that is `Done` stays as
/// it is. Otherwise the first report that says "finished" makes it `Done`
/// with that report, and it stays so; while no report says so, the job is
/// `Pending` with the latest report, or as it was if there was none.
pub proof fn lemma_job_progress(state: JobStateView, outcomes: Seq<OutcomeView>)
    ensures
        state is Done ==> polled_all(state, outcomes) == state,
        !(state is Done) ==> (polled_all(state, outcomes) is Done <==> exists|i: int|
            0 <= i < outcomes.len() && is_finished_report(#[trigger] outcomes[i])),
        !(state is Done) && !(exists|i: int|
            0 <= i < outcomes.len() && is_finished_report(#[trigger] outcomes[i])) ==> {
            if exists|i: int| 0 <= i < outcomes.len() && (#[trigger] outcomes[i]) is Report {
                polled_all(state, outcomes) is Pending
            } else {
                polled_all(state, outcomes) == state
            }
        },
    decreases outcomes.len(),
{
    if outcomes.len() > 0 {
        let front = outcomes.drop_last();
        lemma_job_progress(state, front);
        assert forall|i: int| 0 <= i < front.len() implies front[i] == outcomes[i] by {}
        if exists|i: int| 0 <= i < front.len() && is_finished_report(#[trigger] front[i]) {
            let i = choose|i: int| 0 <= i < front.len() && is_finished_report(#[trigger] front[i]);
            assert(is_finished_report(outcomes[i]));
        }
        if exists|i: int| 0 <= i < front.len() && (#[trigger] front[i]) is Report {
            let i = choose|i: int| 0 <= i < front.len() && (#[trigger] front[i]) is Report;
            assert(outcomes[i] is Report);
        }
        if is_finished_report(outcomes.last()) {
            assert(is_finished_report(outcomes[outcomes.len() - 1]));
        }
        if outcomes.last() is Report {
            assert(outcomes[outcomes.len() - 1] is Report);
        }
        if exists|i: int| 0 <= i < outcomes.len() && is_finished_report(#[trigger] outcomes[i]) {
            let i = choose|i: int|
                0 <= i < outcomes.len() && is_finished_report(#[trigger] outcomes[i]);
            if i < front.len() {
                assert(is_finished_report(front[i]));
            }
        }
        if exists|i: int| 0 <= i < outcomes.len() && (#[trigger] outcomes[i]) is Report {
            let i = choose|i: int| 0 <= i < outcomes.len() && (#[trigger] outcomes[i]) is Report;
            if i < front.len() {
                assert(front[i] is Report);
            }
        }
    }
}

/// Whether a poll brought a report that says the job has finished.
pub open spec fn is_finished_report(outcome: OutcomeView) -> bool {
    outcome matches OutcomeView::Report { finished, .. } && finished
}

/// The jobs that the worker tracks and the step it is at.
#[derive(Debug)]
pub struct JobTracker {
    jobs: JobsList,
    phase: Phase,
}

impl View for JobTracker {
    type V = TrackerView;

    closed spec fn view(&self) -> TrackerView {
        TrackerView { jobs: self.jobs@, phase: self.phase@ }
    }
}

/// The error with which the worker stops when `cause` made it fail.
pub fn crash_error(cause: &GalionError) -> (error: GalionError)
    ensures
        error@ == crashed(cause@),
{
    let text = cause.to_string();
    GalionError::new(joined("Background thread crashed: ", text.as_str()).as_str())
}

fn round_start_phase(jobs: &JobsList) -> (phase: Phase)
    ensures
        phase@ == round_start(jobs@),
{
    let at = jobs.next_waiting(0);
    if at < jobs.len() {
        Phase::Polling(at)
    } else {
        Phase::Waiting
    }
}

fn poll_next_phase(jobs: &JobsList, at: usize) -> (phase: Phase)
    requires
        at < jobs@.len(),
    ensures
        phase@ == poll_next(jobs@, at as int),
{
    let count = jobs.len();
    let next = jobs.next_waiting(at + 1);
    if next < count {
        Phase::Polling(next)
    } else {
        Phase::Publishing
    }
}

fn command_phase(command: SyncJob) -> (phase: Phase)
    ensures
        phase@ == commanded(command@),
{
    match command {
        SyncJob::Exit => Phase::Stopped(None),
        SyncJob::Sync(job) => Phase::Submitting(job),
    }
}

impl JobTracker {
    /// A worker that tracks no job and waits for a command.
    pub fn new() -> (tracker: JobTracker)
        ensures
            tracker@ == TrackerView::initial(),
            tracker@.wf(),
    {
        JobTracker { jobs: JobsList::new(), phase: Phase::Waiting }
    }

    /// The jobs and their states.
    pub fn jobs(&self) -> (jobs: &JobsList)
        ensures
            jobs@ == self@.jobs,
    {
        &self.jobs
    }

    /// The step the worker is at.
    pub fn phase(&self) -> (phase: &Phase)
        ensures
            phase@ == self@.phase,
    {
        &self.phase
    }

    /// Whether any job is still to be polled.
    pub fn is_jobs_waiting(&self) -> (waiting: bool)
        ensures
            waiting == any_waiting(self@.jobs),
    {
        self.jobs.any_waiting()
    }

    /// The action whose outcome the worker awaits.
    pub fn action(&self) -> (action: WorkerAction)
        requires
            self@.wf(),
        ensures
            action@ == self@.action(),
    {
        match &self.phase {
            Phase::Polling(at) => WorkerAction::PollStatus(self.jobs.key_at(*at).job_id),
            Phase::Publishing => WorkerAction::SendSnapshot(self.jobs.clone()),
            Phase::Checking => WorkerAction::CheckCommand,
            Phase::Sleeping => WorkerAction::Sleep(POLL_INTERVAL_MS),
            Phase::Waiting => WorkerAction::AwaitCommand,
            Phase::Submitting(job) => WorkerAction::SubmitSync {
                src: job.src.clone(),
                dest: job.dest.clone(),
            },
            Phase::Failing(_) => WorkerAction::SendTermination,
            Phase::Stopped(Some(error)) => WorkerAction::Finish(Err(error.clone())),
            Phase::Stopped(None) => WorkerAction::Finish(Ok(())),
        }
    }

    /// Takes the outcome of the awaited action and says what to do next.
    pub fn step(&mut self, event: WorkerEvent) -> (action: WorkerAction)
        requires
            old(self)@.wf(),
        ensures
            final(self)@ == old(self)@.step(event@),
            final(self)@.wf(),
            action@ == final(self)@.action(),
    {
        proof {
            lemma_step_wf(self@, event@);
        }
        let next: Option<Phase> = match (&self.phase, event) {
            (Phase::Polling(at), WorkerEvent::Polled(outcome)) => {
                let at = *at;
                match outcome {
                    PollOutcome::Malformed(error) => Some(Phase::Failing(crash_error(&error))),
                    PollOutcome::Unavailable => {
                        proof {
                            assert(self.jobs@.update(at as int, self.jobs@[at as int])
                                =~= self.jobs@);
                        }
                        Some(poll_next_phase(&self.jobs, at))
                    },
                    PollOutcome::Report { finished, status } => {
                        let state = if finished {
                            JobState::Done(status)
                        } else {
                            JobState::Pending(status)
                        };
                        self.jobs.set_state(at, state);
                        Some(poll_next_phase(&self.jobs, at))
                    },
                }
            },
            (Phase::Publishing, WorkerEvent::Published(sent)) => {
                if sent {
                    Some(Phase::Checking)
                } else {
                    Some(Phase::Stopped(None))
                }
            },
            (Phase::Checking, WorkerEvent::Checked(checked)) => match checked {
                Checked::Command(command) => Some(command_phase(command)),
                Checked::Empty => Some(Phase::Sleeping),
                Checked::Disconnected => Some(Phase::Stopped(None)),
            },
            (Phase::Checking, WorkerEvent::Received(received)) => match received {
                Some(command) => Some(command_phase(command)),
                None => Some(Phase::Stopped(None)),
            },
            (Phase::Waiting, WorkerEvent::Checked(checked)) => match checked {
                Checked::Command(command) => Some(command_phase(command)),
                Checked::Empty => None,
                Checked::Disconnected => Some(Phase::Stopped(None)),
            },
            (Phase::Sleeping, WorkerEvent::Slept) => Some(round_start_phase(&self.jobs)),
            (Phase::Waiting, WorkerEvent::Received(received)) => match received {
                Some(command) => Some(command_phase(command)),
                None => Some(Phase::Stopped(None)),
            },
            (Phase::Submitting(job), WorkerEvent::Submitted(outcome)) => match outcome {
                Ok(Some(job_id)) => {
                    let keyed = job.with_job_id(job_id);
                    self.jobs.insert(keyed, JobState::Sent);
                    Some(round_start_phase(&self.jobs))
                },
                Ok(None) => Some(round_start_phase(&self.jobs)),
                Err(error) => Some(Phase::Failing(crash_error(&error))),
            },
            (Phase::Failing(error), WorkerEvent::Notified) => Some(
                Phase::Stopped(Some(error.clone())),
            ),
            _ => None,
        };
        match next {
            Some(phase) => {
                self.phase = phase;
            },
            None => {},
        }
        self.action()
    }

    /// Takes the engine's answer to a poll and says what to do next.
    pub fn status_reply(&mut self, reply: &Result<String, String>) -> (action: WorkerAction)
        requires
            old(self)@.wf(),
        ensures
            final(self)@ == old(self)@.step(EventView::Polled(spec_poll_outcome(reply_view(*reply)))),
            final(self)@.wf(),
            action@ == final(self)@.action(),
    {
        self.step(WorkerEvent::Polled(poll_outcome(reply)))
    }

    /// Takes the engine's answer to a request to synchronise and says what
    /// to do next.
    pub fn submit_reply(&mut self, reply: &Result<String, String>) -> (action: WorkerAction)
        requires
            old(self)@.wf(),
        ensures
            final(self)@ == old(self)@.step(
                EventView::Submitted(spec_submit_outcome(reply_view(*reply))),
            ),
            final(self)@.wf(),
            action@ == final(self)@.action(),
    {
        self.step(WorkerEvent::Submitted(submit_outcome(reply)))
    }
}

} // verus!
