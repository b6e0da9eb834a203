//! Synchronisation jobs: their identity, their state, and the ordered list
//! in which the worker tracks them.

use crate::order::{lemma_text_transitive, lemma_text_trichotomy, rank_text, text_lt, Rank};
use crate::text::{clone_option, decimal, decimal_string, joined, option_text};
use vstd::prelude::*;
use vstd::string::*;

verus! {

/// The identity of one synchronisation job. The identifier 0 stands for a
/// job that the engine has not numbered yet.
#[derive(Debug, PartialEq, Eq)]
pub struct SyncJobData {
    /// Identifier given by the engine.
    pub job_id: u64,
    /// Name of the remote configuration.
    pub name: String,
    /// Source locator.
    pub src: String,
    /// Destination locator.
    pub dest: String,
}

/// The mathematical value of a [`SyncJobData`].
pub struct JobKey {
    pub job_id: u64,
    pub name: Seq<char>,
    pub src: Seq<char>,
    pub dest: Seq<char>,
}

/// The order of job identities: by identifier, then by name, source and
/// destination.
pub open spec fn key_lt(a: JobKey, b: JobKey) -> bool {
    if a.job_id != b.job_id {
        a.job_id < b.job_id
    } else if a.name != b.name {
        text_lt(a.name, b.name)
    } else if a.src != b.src {
        text_lt(a.src, b.src)
    } else {
        text_lt(a.dest, b.dest)
    }
}

/// Of two job identities exactly one holds: they are equal, the first comes
/// before the second, or the second before the first.
pub proof fn lemma_key_trichotomy(a: JobKey, b: JobKey)
    ensures
        a == b || key_lt(a, b) || key_lt(b, a),
        !(a == b && key_lt(a, b)),
        !(a == b && key_lt(b, a)),
        !(key_lt(a, b) && key_lt(b, a)),
{
    lemma_text_trichotomy(a.name, b.name);
    lemma_text_trichotomy(a.src, b.src);
    lemma_text_trichotomy(a.dest, b.dest);
}

/// The order of job identities is transitive.
pub proof fn lemma_key_transitive(a: JobKey, b: JobKey, c: JobKey)
    requires
        key_lt(a, b),
        key_lt(b, c),
    ensures
        key_lt(a, c),
{
    lemma_text_trichotomy(a.name, b.name);
    lemma_text_trichotomy(b.name, c.name);
    lemma_text_trichotomy(a.name, c.name);
    lemma_text_trichotomy(a.src, b.src);
    lemma_text_trichotomy(b.src, c.src);
    lemma_text_trichotomy(a.src, c.src);
    lemma_text_trichotomy(a.dest, b.dest);
    lemma_text_trichotomy(b.dest, c.dest);
    lemma_text_trichotomy(a.dest, c.dest);
    if a.job_id == b.job_id && b.job_id == c.job_id {
        if a.name != b.name && b.name != c.name {
            lemma_text_transitive(a.name, b.name, c.name);
        } else if a.name == b.name && b.name == c.name {
            if a.src != b.src && b.src != c.src {
                lemma_text_transitive(a.src, b.src, c.src);
            } else if a.src == b.src && b.src == c.src {
                lemma_text_transitive(a.dest, b.dest, c.dest);
            }
        }
    }
}

impl View for SyncJobData {
    type V = JobKey;

    open spec fn view(&self) -> JobKey {
        JobKey { job_id: self.job_id, name: self.name@, src: self.src@, dest: self.dest@ }
    }
}

impl Clone for SyncJobData {
    fn clone(&self) -> (copy: Self)
        ensures
            copy@ == self@,
    {
        SyncJobData {
            job_id: self.job_id,
            name: self.name.clone(),
            src: self.src.clone(),
            dest: self.dest.clone(),
        }
    }
}

impl SyncJobData {
    /// How this identity stands to `other` in the order of identities.
    pub fn rank(&self, other: &SyncJobData) -> (rank: Rank)
        ensures
            rank == Rank::Before <==> key_lt(self@, other@),
            rank == Rank::Same <==> self@ == other@,
            rank == Rank::After <==> key_lt(other@, self@),
    {
        proof {
            lemma_key_trichotomy(self@, other@);
        }
        if self.job_id < other.job_id {
            return Rank::Before;
        }
        if self.job_id > other.job_id {
            return Rank::After;
        }
        let by_name = rank_text(self.name.as_str(), other.name.as_str());
        if by_name != Rank::Same {
            return by_name;
        }
        let by_src = rank_text(self.src.as_str(), other.src.as_str());
        if by_src != Rank::Same {
            return by_src;
        }
        rank_text(self.dest.as_str(), other.dest.as_str())
    }

    /// This identity under the identifier that the engine gave the job.
    pub fn with_job_id(&self, job_id: u64) -> (keyed: SyncJobData)
        ensures
            keyed@ == (JobKey { job_id, ..self@ }),
    {
        SyncJobData {
            job_id,
            name: self.name.clone(),
            src: self.src.clone(),
            dest: self.dest.clone(),
        }
    }
}

/// What the engine reports of a job.
#[derive(Debug, PartialEq, Eq)]
pub struct JobStatus {
    /// Whether the job succeeded.
    pub success: bool,
    /// Duration in seconds, written in decimal.
    pub duration: String,
    /// Error message; empty if there is none.
    pub error: String,
    /// Start time, as the engine wrote it.
    pub start_time: String,
    /// The whole report as text.
    pub debug_str: Option<String>,
}

/// The mathematical value of a [`JobStatus`].
pub struct StatusView {
    pub success: bool,
    pub duration: Seq<char>,
    pub error: Seq<char>,
    pub start_time: Seq<char>,
    pub debug_str: Option<Seq<char>>,
}

/// The text of a truth value.
pub open spec fn bool_text(flag: bool) -> Seq<char> {
    if flag {
        "true"@
    } else {
        "false"@
    }
}

impl StatusView {
    /// The text shown for a report: success and duration, with the error
    /// message in brackets where there is one.
    pub open spec fn text(self) -> Seq<char> {
        if self.error.len() == 0 {
            "success: "@ + bool_text(self.success) + ", duration: "@ + self.duration
        } else {
            "success: "@ + bool_text(self.success) + " ("@ + self.error + "), duration: "@
                + self.duration
        }
    }
}

impl View for JobStatus {
    type V = StatusView;

    open spec fn view(&self) -> StatusView {
        StatusView {
            success: self.success,
            duration: self.duration@,
            error: self.error@,
            start_time: self.start_time@,
            debug_str: option_text(self.debug_str),
        }
    }
}

impl Clone for JobStatus {
    fn clone(&self) -> (copy: Self)
        ensures
            copy@ == self@,
    {
        JobStatus {
            success: self.success,
            duration: self.duration.clone(),
            error: self.error.clone(),
            start_time: self.start_time.clone(),
            debug_str: clone_option(&self.debug_str),
        }
    }
}

impl JobStatus {
    /// The text shown for the report.
    pub fn to_string(&self) -> (text: String)
        ensures
            text@ == self@.text(),
    {
        let mut text = String::from_str("success: ");
        if self.success {
            text.append("true");
        } else {
            text.append("false");
        }
        if char_len_is_zero(&self.error) {
            text.append(", duration: ");
        } else {
            text.append(" (");
            text.append(self.error.as_str());
            text.append("), duration: ");
        }
        text.append(self.duration.as_str());
        text
    }
}

/// Whether a string is empty.
pub fn char_len_is_zero(s: &String) -> (empty: bool)
    ensures
        empty == (s@.len() == 0),
{
    s.as_str().unicode_len() == 0
}

/// The colour in which a job is listed.
#[derive(Debug, Clone, Copy, PartialEq, Eq, Structural)]
pub enum JobColor {
    /// Not finished yet.
    Blue,
    /// Finished with success.
    Green,
    /// Finished with a failure.
    Red,
}

/// The state of a job. A job is `Sent` once submitted, `Pending` while the
/// engine reports it unfinished, and `Done` once the engine reports it
/// finished.
#[derive(Debug, PartialEq, Eq)]
pub enum JobState {
    /// Submitted; no report yet.
    Sent,
    /// The engine reports the job unfinished.
    Pending(JobStatus),
    /// The engine reports the job finished.
    Done(JobStatus),
}

/// The mathematical value of a [`JobState`].
pub enum JobStateView {
    Sent,
    Pending(StatusView),
    Done(StatusView),
}

impl JobStateView {
    /// Whether the job is still to be polled.
    pub open spec fn is_waiting(self) -> bool {
        !(self is Done)
    }

    /// The colour in which the job is listed.
    pub open spec fn color(self) -> JobColor {
        match self {
            JobStateView::Done(status) => if status.success {
                JobColor::Green
            } else {
                JobColor::Red
            },
            _ => JobColor::Blue,
        }
    }

    /// The text shown for the state.
    pub open spec fn text(self) -> Seq<char> {
        match self {
            JobStateView::Sent => "sent"@,
            JobStateView::Pending(status) => "waiting: start_time: "@ + status.start_time,
            JobStateView::Done(status) => "done: "@ + status.text(),
        }
    }
}

impl View for JobState {
    type V = JobStateView;

    open spec fn view(&self) -> JobStateView {
        match self {
            JobState::Sent => JobStateView::Sent,
            JobState::Pending(status) => JobStateView::Pending(status@),
            JobState::Done(status) => JobStateView::Done(status@),
        }
    }
}

impl Clone for JobState {
    fn clone(&self) -> (copy: Self)
        ensures
            copy@ == self@,
    {
        match self {
            JobState::Sent => JobState::Sent,
            JobState::Pending(status) => JobState::Pending(status.clone()),
            JobState::Done(status) => JobState::Done(status.clone()),
        }
    }
}

impl JobState {
    /// Whether the job is still to be polled.
    pub fn is_waiting(&self) -> (waiting: bool)
        ensures
            waiting == self@.is_waiting(),
    {
        match self {
            JobState::Sent => true,
            JobState::Pending(_) => true,
            JobState::Done(_) => false,
        }
    }

    /// The colour in which the job is listed.
    pub fn success_color(&self) -> (color: JobColor)
        ensures
            color == self@.color(),
    {
        match self {
            JobState::Sent => JobColor::Blue,
            JobState::Pending(_) => JobColor::Blue,
            JobState::Done(status) => {
                if status.success {
                    JobColor::Green
                } else {
                    JobColor::Red
                }
            },
        }
    }

    /// The text shown for the state.
    pub fn to_string(&self) -> (text: String)
        ensures
            text@ == self@.text(),
    {
        match self {
            JobState::Sent => String::from_str("sent"),
            JobState::Pending(status) => joined("waiting: start_time: ", status.start_time.as_str()),
            JobState::Done(status) => {
                let report = status.to_string();
                joined("done: ", report.as_str())
            },
        }
    }
}

/// The line that lists a job: its name, its identifier and its state.
pub open spec fn spec_job_line(job: JobKey, state: JobStateView) -> Seq<char> {
    "job "@ + job.name + " ("@ + decimal(job.job_id as nat) + "): "@ + state.text() + "\n"@
}

/// The line that lists a job.
pub fn job_line(job: &SyncJobData, state: &JobState) -> (line: String)
    ensures
        line@ == spec_job_line(job@, state@),
{
    let mut line = joined("job ", job.name.as_str());
    line.append(" (");
    let number = decimal_string(job.job_id);
    line.append(number.as_str());
    line.append("): ");
    let text = state.to_string();
    line.append(text.as_str());
    line.append("\n");
    line
}

/// A command from the front end to the worker.
#[derive(Debug, PartialEq, Eq)]
pub enum SyncJob {
    /// Stop working.
    Exit,
    /// Submit a job.
    Sync(SyncJobData),
}

/// The mathematical value of a [`SyncJob`].
pub enum CommandView {
    Exit,
    Sync(JobKey),
}

impl View for SyncJob {
    type V = CommandView;

    open spec fn view(&self) -> CommandView {
        match self {
            SyncJob::Exit => CommandView::Exit,
            SyncJob::Sync(job) => CommandView::Sync(job@),
        }
    }
}

/// A message from the worker to the front end.
#[derive(Debug, PartialEq, Eq)]
pub enum ResultJob {
    /// The worker has failed and stops.
    Exit,
    /// All jobs and their states, as they are now.
    Sync(JobsList),
}

/// One job and its state, as mathematical values.
pub type EntryView = (JobKey, JobStateView);

/// The identities rise strictly along the sequence.
pub open spec fn sorted(entries: Seq<EntryView>) -> bool {
    forall|i: int, j: int| 0 <= i < j < entries.len() ==> key_lt(
        (#[trigger] entries[i]).0,
        (#[trigger] entries[j]).0,
    )
}

/// Number of leading entries whose identity comes before `key`.
pub open spec fn lower_bound(entries: Seq<EntryView>, key: JobKey) -> int
    decreases entries.len(),
{
    if entries.len() == 0 || !key_lt(entries[0].0, key) {
        0
    } else {
        1 + lower_bound(entries.drop_first(), key)
    }
}

/// The list after `key` was given the state `state`: an entry with that
/// identity has its state replaced, otherwise a new entry stands where the
/// order puts it.
pub open spec fn inserted_entry(entries: Seq<EntryView>, key: JobKey, state: JobStateView) -> Seq<
    EntryView,
> {
    let at = lower_bound(entries, key);
    if at < entries.len() && entries[at].0 == key {
        entries.update(at, (key, state))
    } else {
        entries.insert(at, (key, state))
    }
}

/// The state listed for `key`, if the identity is listed.
pub open spec fn state_of(entries: Seq<EntryView>, key: JobKey) -> Option<JobStateView> {
    if exists|i: int| 0 <= i < entries.len() && (#[trigger] entries[i]).0 == key {
        let i = choose|i: int| 0 <= i < entries.len() && (#[trigger] entries[i]).0 == key;
        Some(entries[i].1)
    } else {
        None
    }
}

/// Whether any listed job is still to be polled.
pub open spec fn any_waiting(entries: Seq<EntryView>) -> bool {
    exists|i: int| 0 <= i < entries.len() && (#[trigger] entries[i]).1.is_waiting()
}

/// The first position at or after `from` whose job is still to be polled;
/// the length of the list if there is none.
pub open spec fn next_waiting(entries: Seq<EntryView>, from: int) -> int
    decreases entries.len() - from,
{
    if from < 0 || from >= entries.len() {
        entries.len() as int
    } else if entries[from].1.is_waiting() {
        from
    } else {
        next_waiting(entries, from + 1)
    }
}

/// `next_waiting` finds a waiting job at or after `from`, and none waits
/// between `from` and the position it gives.
pub proof fn lemma_next_waiting(entries: Seq<EntryView>, from: int)
    requires
        0 <= from <= entries.len(),
    ensures
        from <= next_waiting(entries, from) <= entries.len(),
        next_waiting(entries, from) < entries.len() ==> entries[next_waiting(
            entries,
            from,
        )].1.is_waiting(),
        forall|i: int|
            from <= i < next_waiting(entries, from) ==> !(#[trigger] entries[i]).1.is_waiting(),
    decreases entries.len() - from,
{
    if from < entries.len() && !entries[from].1.is_waiting() {
        lemma_next_waiting(entries, from + 1);
    }
}

/// In a sorted list the position found by `lower_bound` splits the
/// identities into those before `key` and those not before it.
pub proof fn lemma_lower_bound(entries: Seq<EntryView>, key: JobKey)
    requires
        sorted(entries),
    ensures
        0 <= lower_bound(entries, key) <= entries.len(),
        forall|i: int|
            0 <= i < lower_bound(entries, key) ==> key_lt((#[trigger] entries[i]).0, key),
        forall|i: int|
            lower_bound(entries, key) <= i < entries.len() ==> !key_lt(
                (#[trigger] entries[i]).0,
                key,
            ),
    decreases entries.len(),
{
    if entries.len() == 0 {
    } else if !key_lt(entries[0].0, key) {
        assert forall|i: int| 0 <= i < entries.len() implies !key_lt(
            (#[trigger] entries[i]).0,
            key,
        ) by {
            if i > 0 && key_lt(entries[i].0, key) {
                lemma_key_transitive(entries[0].0, entries[i].0, key);
            }
        }
    } else {
        let rest = entries.drop_first();
        assert forall|i: int, j: int| 0 <= i < j < rest.len() implies key_lt(
            (#[trigger] rest[i]).0,
            (#[trigger] rest[j]).0,
        ) by {
            assert(rest[i] == entries[i + 1]);
            assert(rest[j] == entries[j + 1]);
        }
        lemma_lower_bound(rest, key);
        let at = lower_bound(rest, key);
        assert forall|i: int| 0 <= i < at + 1 implies key_lt((#[trigger] entries[i]).0, key) by {
            if i > 0 {
                assert(rest[i - 1] == entries[i]);
            }
        }
        assert forall|i: int| at + 1 <= i < entries.len() implies !key_lt(
            (#[trigger] entries[i]).0,
            key,
        ) by {
            assert(rest[i - 1] == entries[i]);
        }
    }
}

/// A position that splits a sorted list as `lower_bound` does is the one
/// that `lower_bound` gives.
pub proof fn lemma_lower_bound_unique(entries: Seq<EntryView>, key: JobKey, at: int)
    requires
        sorted(entries),
        0 <= at <= entries.len(),
        forall|i: int| 0 <= i < at ==> key_lt((#[trigger] entries[i]).0, key),
        at < entries.len() ==> !key_lt(entries[at].0, key),
    ensures
        lower_bound(entries, key) == at,
{
    lemma_lower_bound(entries, key);
    let found = lower_bound(entries, key);
    if found < at {
        assert(key_lt(entries[found].0, key));
    } else if found > at {
        assert(key_lt(entries[at].0, key));
    }
}

/// Giving a state to an identity keeps the list sorted, lists that state for
/// the identity, and leaves every other identity with the state it had.
pub proof fn lemma_inserted_entry(entries: Seq<EntryView>, key: JobKey, state: JobStateView)
    requires
        sorted(entries),
    ensures
        sorted(inserted_entry(entries, key, state)),
        state_of(inserted_entry(entries, key, state), key) == Some(state),
        forall|other: JobKey|
            other != key ==> #[trigger] state_of(inserted_entry(entries, key, state), other)
                == state_of(entries, other),
{
    let after = inserted_entry(entries, key, state);
    let at = lower_bound(entries, key);
    lemma_lower_bound(entries, key);
    let replaced = at < entries.len() && entries[at].0 == key;
    assert forall|i: int, j: int| 0 <= i < j < after.len() implies key_lt(
        (#[trigger] after[i]).0,
        (#[trigger] after[j]).0,
    ) by {
        if replaced {
            assert(after[i].0 == entries[i].0);
            assert(after[j].0 == entries[j].0);
        } else {
            if at < entries.len() {
                lemma_key_trichotomy(entries[at].0, key);
            }
            if j == at {
                assert(after[i] == entries[i]);
            } else if i == at {
                assert(after[j] == entries[j - 1]);
                if j - 1 > at {
                    lemma_key_transitive(key, entries[at].0, entries[j - 1].0);
                }
            } else {
                let oi = if i < at { i } else { i - 1 };
                let oj = if j < at { j } else { j - 1 };
                assert(after[i] == entries[oi]);
                assert(after[j] == entries[oj]);
            }
        }
    }
    lemma_sorted_state_of(after, at);
    assert forall|other: JobKey| other != key implies #[trigger] state_of(after, other)
        == state_of(entries, other) by {
        if exists|i: int| 0 <= i < entries.len() && (#[trigger] entries[i]).0 == other {
            let i = choose|i: int| 0 <= i < entries.len() && (#[trigger] entries[i]).0 == other;
            lemma_sorted_state_of(entries, i);
            let ni = if replaced || i < at { i } else { i + 1 };
            assert(after[ni] == entries[i]);
            lemma_sorted_state_of(after, ni);
        } else {
            if exists|i: int| 0 <= i < after.len() && (#[trigger] after[i]).0 == other {
                let i = choose|i: int| 0 <= i < after.len() && (#[trigger] after[i]).0 == other;
                let oi = if replaced || i < at { i } else { i - 1 };
                assert(after[i].0 == entries[oi].0);
            }
        }
    }
}

/// In a sorted list each identity stands once, so the state listed for the
/// identity at a position is the state at that position.
pub proof fn lemma_sorted_state_of(entries: Seq<EntryView>, at: int)
    requires
        sorted(entries),
        0 <= at < entries.len(),
    ensures
        state_of(entries, entries[at].0) == Some(entries[at].1),
{
    let key = entries[at].0;
    assert(exists|i: int| 0 <= i < entries.len() && (#[trigger] entries[i]).0 == key) by {
        assert(entries[at].0 == key);
    }
    assert forall|i: int| 0 <= i < entries.len() && (#[trigger] entries[i]).0 == key implies i
        == at by {
        if i < at {
            lemma_key_trichotomy(entries[i].0, entries[at].0);
        } else if i > at {
            lemma_key_trichotomy(entries[at].0, entries[i].0);
        }
    }
}

/// The jobs that the worker tracks, each with its state. A list is kept
/// sorted by identity: `new` and `clone` give sorted lists, and `insert` and
/// `set_state` keep them so.
#[derive(Debug, PartialEq, Eq)]
pub struct JobsList {
    entries: Vec<(SyncJobData, JobState)>,
}

impl View for JobsList {
    type V = Seq<EntryView>;

    closed spec fn view(&self) -> Seq<EntryView> {
        Seq::new(self.entries@.len(), |i: int| (self.entries@[i].0@, self.entries@[i].1@))
    }
}

impl Clone for JobsList {
    fn clone(&self) -> (copy: Self)
        ensures
            copy@ == self@,
    {
        let mut entries: Vec<(SyncJobData, JobState)> = Vec::new();
        let mut i: usize = 0;
        while i < self.entries.len()
            invariant
                i <= self.entries.len(),
                entries.len() == i,
                forall|j: int|
                    0 <= j < i ==> (#[trigger] entries@[j]).0@ == self.entries@[j].0@
                        && entries@[j].1@ == self.entries@[j].1@,
            decreases self.entries.len() - i,
        {
            entries.push((self.entries[i].0.clone(), self.entries[i].1.clone()));
            i = i + 1;
        }
        let copy = JobsList { entries };
        proof {
            assert(copy@ =~= self@);
        }
        copy
    }
}

impl JobsList {
    /// An empty list.
    pub fn new() -> (list: JobsList)
        ensures
            list@ == Seq::<EntryView>::empty(),
            sorted(list@),
    {
        let list = JobsList { entries: Vec::new() };
        proof {
            assert(list@ =~= Seq::<EntryView>::empty());
        }
        list
    }

    /// Number of jobs.
    pub fn len(&self) -> (n: usize)
        ensures
            n == self@.len(),
    {
        self.entries.len()
    }

    /// Whether the list is empty.
    pub fn is_empty(&self) -> (empty: bool)
        ensures
            empty == (self@.len() == 0),
    {
        self.entries.len() == 0
    }

    /// The identity of the job at position `i`.
    pub fn key_at(&self, i: usize) -> (key: &SyncJobData)
        requires
            i < self@.len(),
        ensures
            key@ == self@[i as int].0,
    {
        &self.entries[i].0
    }

    /// The state of the job at position `i`.
    pub fn state_at(&self, i: usize) -> (state: &JobState)
        requires
            i < self@.len(),
        ensures
            state@ == self@[i as int].1,
    {
        &self.entries[i].1
    }

    /// The job at position `i` and its state, if there is one.
    pub fn get(&self, i: usize) -> (entry: Option<(&SyncJobData, &JobState)>)
        ensures
            entry is Some <==> i < self@.len(),
            entry matches Some(found) ==> found.0@ == self@[i as int].0 && found.1@
                == self@[i as int].1,
    {
        if i < self.entries.len() {
            Some((&self.entries[i].0, &self.entries[i].1))
        } else {
            None
        }
    }

    /// Gives the job at position `i` the state `state`.
    pub fn set_state(&mut self, i: usize, state: JobState)
        requires
            i < old(self)@.len(),
            sorted(old(self)@),
        ensures
            final(self)@ == old(self)@.update(i as int, (old(self)@[i as int].0, state@)),
            sorted(final(self)@),
    {
        let key = self.entries[i].0.clone();
        let ghost before = self@;
        self.entries.set(i, (key, state));
        proof {
            let after = self@;
            assert(after =~= before.update(i as int, (before[i as int].0, state@)));
            assert forall|a: int, b: int| 0 <= a < b < after.len() implies key_lt(
                (#[trigger] after[a]).0,
                (#[trigger] after[b]).0,
            ) by {
                assert(after[a].0 == before[a].0);
                assert(after[b].0 == before[b].0);
            }
        }
    }

    /// Lists `key` with the state `state`: replaces the state of an entry
    /// with that identity, or adds an entry where the order puts it.
    pub fn insert(&mut self, key: SyncJobData, state: JobState)
        requires
            sorted(old(self)@),
        ensures
            final(self)@ == inserted_entry(old(self)@, key@, state@),
            sorted(final(self)@),
    {
        let ghost before = self@;
        let mut at: usize = 0;
        let mut same = false;
        while at < self.entries.len()
            invariant_except_break
                at <= self.entries.len(),
                self@ == before,
                sorted(before),
                !same,
                forall|i: int| 0 <= i < at ==> key_lt((#[trigger] before[i]).0, key@),
            ensures
                at <= self.entries.len(),
                self@ == before,
                forall|i: int| 0 <= i < at ==> key_lt((#[trigger] before[i]).0, key@),
                at < before.len() ==> !key_lt(before[at as int].0, key@),
                same == (at < before.len() && before[at as int].0 == key@),
            decreases self.entries.len() - at,
        {
            let rank = self.entries[at].0.rank(&key);
            proof {
                assert(self@[at as int].0 == self.entries@[at as int].0@);
                lemma_key_trichotomy(before[at as int].0, key@);
            }
            if rank == Rank::Same {
                same = true;
                break;
            }
            if rank == Rank::After {
                break;
            }
            at = at + 1;
        }
        proof {
            lemma_lower_bound_unique(before, key@, at as int);
            lemma_inserted_entry(before, key@, state@);
        }
        if same {
            self.entries.set(at, (key, state));
            proof {
                assert(self@ =~= before.update(at as int, (key@, state@)));
            }
        } else {
            self.entries.insert(at, (key, state));
            proof {
                assert(self@ =~= before.insert(at as int, (key@, state@)));
            }
        }
    }

    /// Whether any job is still to be polled.
    pub fn any_waiting(&self) -> (waiting: bool)
        ensures
            waiting == any_waiting(self@),
    {
        let at = self.next_waiting(0);
        proof {
            lemma_next_waiting(self@, 0);
        }
        at < self.entries.len()
    }

    /// The first position at or after `from` whose job is still to be
    /// polled; the length of the list if there is none.
    pub fn next_waiting(&self, from: usize) -> (at: usize)
        ensures
            at == next_waiting(self@, from as int),
            at <= self@.len(),
    {
        let mut at = from;
        if at >= self.entries.len() {
            return self.entries.len();
        }
        while at < self.entries.len()
            invariant
                from <= at <= self.entries.len(),
                next_waiting(self@, from as int) == next_waiting(self@, at as int),
            decreases self.entries.len() - at,
        {
            if self.entries[at].1.is_waiting() {
                assert(self@[at as int].1 == self.entries@[at as int].1@);
                return at;
            }
            assert(self@[at as int].1 == self.entries@[at as int].1@);
            at = at + 1;
        }
        at
    }
}

/// The lines that list the jobs, the latest first, each with its colour.
pub open spec fn spec_job_lines(entries: Seq<EntryView>) -> Seq<(Seq<char>, JobColor)> {
    Seq::new(
        entries.len(),
        |i: int|
            (
                spec_job_line(entries[entries.len() - 1 - i].0, entries[entries.len() - 1 - i].1),
                entries[entries.len() - 1 - i].1.color(),
            ),
    )
}

/// The lines that list the jobs, the latest first, each with its colour.
pub fn job_lines(jobs: &JobsList) -> (lines: Vec<(String, JobColor)>)
    ensures
        lines@.len() == jobs@.len(),
        forall|i: int|
            0 <= i < lines@.len() ==> (#[trigger] lines@[i]).0@ == spec_job_lines(jobs@)[i].0
                && lines@[i].1 == spec_job_lines(jobs@)[i].1,
{
    let count = jobs.len();
    let mut lines: Vec<(String, JobColor)> = Vec::new();
    let mut i: usize = 0;
    while i < count
        invariant
            i <= count,
            count == jobs@.len(),
            lines@.len() == i,
            forall|j: int|
                0 <= j < i ==> (#[trigger] lines@[j]).0@ == spec_job_lines(jobs@)[j].0
                    && lines@[j].1 == spec_job_lines(jobs@)[j].1,
        decreases count - i,
    {
        let at = count - 1 - i;
        let state = jobs.state_at(at);
        lines.push((job_line(jobs.key_at(at), state), state.success_color()));
        i = i + 1;
    }
    lines
}

} // verus!
