//! The interaction rules of the terminal session: which mode the session is
//! in, and what a key does in each.
//!
//! Drawing, reading keys, the channels to the worker and writing the store
//! to its file are done by the surroundings. They hand in keys, messages of
//! the worker and the outcome of a write, and carry out the effect that
//! [`TuiApp::handle_key_event`] returns.

use crate::config::{
    remote_views, rippled, spec_logo, ConfigView, GalionApp, GalionConfig, WAVES,
};
use crate::errors::{ErrorView, GalionError};
use crate::jobs::{CommandView, EntryView, JobKey, JobsList, ResultJob, SyncJob, SyncJobData};
use crate::remote::{
    lemma_delete_char_effect, lemma_enter_then_delete, ConfigOrigin, EditField, EditRemote,
    EditView, RemoteConfiguration, RemoteView,
};
use crate::text::{decimal, decimal_string, joined};
use vstd::prelude::*;
use vstd::string::*;
use vstd::utf8::*;

verus! {

/// A key, as far as the session tells keys apart.
#[derive(Debug, Clone, Copy, PartialEq, Eq, Structural)]
pub enum KeyCode {
    /// A character key.
    Char(char),
    /// Escape.
    Esc,
    /// Enter.
    Enter,
    /// Tab.
    Tab,
    /// Arrow left.
    Left,
    /// Arrow right.
    Right,
    /// Arrow up.
    Up,
    /// Arrow down.
    Down,
    /// Delete.
    Delete,
    /// Backspace.
    Backspace,
    /// Any other key.
    Other,
}

/// A key press.
#[derive(Debug, Clone, Copy, PartialEq, Eq, Structural)]
pub struct KeyEvent {
    /// The key.
    pub code: KeyCode,
    /// Whether the control key was held.
    pub control: bool,
}

/// The mode of the session.
#[derive(Debug, PartialEq, Eq)]
pub enum TuiMode {
    /// Browsing the remote configurations.
    Normal,
    /// An error is shown; only dismissing it is possible.
    Error(String),
    /// A deletion awaits confirmation.
    Delete,
    /// A remote configuration is edited.
    EditString(EditRemote),
}

/// The mathematical value of a [`TuiMode`].
pub enum ModeView {
    Normal,
    Error(Seq<char>),
    Delete,
    EditString(EditView),
}

impl View for TuiMode {
    type V = ModeView;

    open spec fn view(&self) -> ModeView {
        match self {
            TuiMode::Normal => ModeView::Normal,
            TuiMode::Error(message) => ModeView::Error(message@),
            TuiMode::Delete => ModeView::Delete,
            TuiMode::EditString(buffer) => ModeView::EditString(buffer@),
        }
    }
}

/// Why the store is written to its file.
#[derive(Debug, Clone, Copy, PartialEq, Eq, Structural)]
pub enum SaveReason {
    /// A remote configuration was deleted.
    Deletion,
    /// A remote configuration was edited.
    Edit,
}

/// What the surroundings have to do after a key.
#[derive(Debug, PartialEq, Eq)]
pub enum TuiEffect {
    /// Nothing.
    Nothing,
    /// Send this command to the worker.
    Send(SyncJob),
    /// Write the store to its file and report the outcome with
    /// [`TuiApp::save_finished`].
    Save(SaveReason),
}

/// The mathematical value of a [`TuiEffect`].
pub enum EffectView {
    Nothing,
    Send(CommandView),
    Save(SaveReason),
}

impl View for TuiEffect {
    type V = EffectView;

    open spec fn view(&self) -> EffectView {
        match self {
            TuiEffect::Nothing => EffectView::Nothing,
            TuiEffect::Send(command) => EffectView::Send(command@),
            TuiEffect::Save(reason) => EffectView::Save(*reason),
        }
    }
}

/// The width that a cell asks of its column: the number of bytes of its
/// text, or nothing if that number is above 65535.
pub open spec fn cell_width(text: Seq<char>) -> u16 {
    if encode_utf8(text).len() <= u16::MAX {
        encode_utf8(text).len() as u16
    } else {
        0
    }
}

/// The greatest width that the cells of one column ask for.
pub open spec fn column_width(remotes: Seq<RemoteView>, column: int) -> u16
    decreases remotes.len(),
{
    if remotes.len() == 0 {
        0
    } else {
        let rest = column_width(remotes.drop_last(), column);
        let last = cell_width(remotes.last().table_row()[column]);
        if last > rest {
            last
        } else {
            rest
        }
    }
}

fn width_of(text: &String) -> (width: u16)
    ensures
        width == cell_width(text@),
{
    let bytes = text.as_str().as_bytes().len();
    if bytes <= 65535 {
        bytes as u16
    } else {
        0
    }
}

/// The widths of the three columns of the table of remote configurations.
pub fn constraint_len_calculator(items: &[RemoteConfiguration]) -> (widths: (u16, u16, u16))
    ensures
        widths.0 == column_width(remote_views(items@), 0),
        widths.1 == column_width(remote_views(items@), 1),
        widths.2 == column_width(remote_views(items@), 2),
{
    let mut widths: (u16, u16, u16) = (0, 0, 0);
    let ghost all = remote_views(items@);
    assert(all.take(0) =~= Seq::<RemoteView>::empty());
    let mut i: usize = 0;
    while i < items.len()
        invariant
            i <= items.len(),
            all == remote_views(items@),
            widths.0 == column_width(all.take(i as int), 0),
            widths.1 == column_width(all.take(i as int), 1),
            widths.2 == column_width(all.take(i as int), 2),
        decreases items.len() - i,
    {
        proof {
            let next = all.take(i + 1);
            assert(next.drop_last() =~= all.take(i as int));
            assert(next.last() == items@[i as int]@);
        }
        let row = items[i].to_table_row();
        let first = width_of(&row[0]);
        let second = width_of(&row[1]);
        let third = width_of(&row[2]);
        if first > widths.0 {
            widths.0 = first;
        }
        if second > widths.1 {
            widths.1 = second;
        }
        if third > widths.2 {
            widths.2 = third;
        }
        i = i + 1;
    }
    assert(all.take(items@.len() as int) =~= all);
    widths
}

/// The session, as mathematical values.
pub struct TuiView {
    pub config: ConfigView,
    pub selected: Option<nat>,
    pub mode: ModeView,
    pub exit: bool,
    pub jobs: Seq<EntryView>,
    pub widths: (u16, u16, u16),
}

/// The store with other remote configurations.
pub open spec fn with_remotes(view: TuiView, remotes: Seq<RemoteView>) -> TuiView {
    TuiView { config: ConfigView { remotes, ..view.config }, ..view }
}

impl TuiView {
    /// The session when it starts on `config`: the first row is selected,
    /// the mode is normal, no jobs are known.
    pub open spec fn initial(config: ConfigView) -> TuiView {
        TuiView {
            config,
            selected: Some(0),
            mode: ModeView::Normal,
            exit: false,
            jobs: Seq::empty(),
            widths: (
                column_width(config.remotes, 0),
                column_width(config.remotes, 1),
                column_width(config.remotes, 2),
            ),
        }
    }

    /// A buffer that is edited is well formed.
    pub open spec fn wf(self) -> bool {
        self.mode matches ModeView::EditString(buffer) ==> buffer.wf()
    }

    /// The remote configuration that is selected, if the selection points
    /// at one.
    pub open spec fn selected_remote(self) -> Option<RemoteView> {
        match self.selected {
            Some(at) if at < self.config.remotes.len() => Some(self.config.remotes[at as int]),
            _ => None,
        }
    }

    /// The session showing the error `message`.
    pub open spec fn failed(self, message: Seq<char>) -> TuiView {
        TuiView { mode: ModeView::Error(message), ..self }
    }

    /// The session in the mode `mode`.
    pub open spec fn in_mode(self, mode: ModeView) -> TuiView {
        TuiView { mode, ..self }
    }

    /// Leaving: the session ends and the worker is told to stop.
    pub open spec fn quit(self) -> (TuiView, EffectView) {
        (TuiView { exit: true, ..self }, EffectView::Send(CommandView::Exit))
    }

    /// Triggering a job for the selected remote configuration: a command to
    /// submit it under the placeholder identifier 0, or an error if nothing
    /// is selected or a locator is missing.
    pub open spec fn send_job(self) -> (TuiView, EffectView) {
        match self.selected {
            None => (self.failed("No remote configuration selected"@), EffectView::Nothing),
            Some(at) => match self.selected_remote() {
                None => (
                    self.failed(
                        "No remote configuration at index "@ + decimal(at) + " in remotes"@,
                    ),
                    EffectView::Nothing,
                ),
                Some(remote) => match (remote.src, remote.dest) {
                    (None, _) => (
                        self.failed("Remote doesn't have a source - press e for edit"@),
                        EffectView::Nothing,
                    ),
                    (Some(_), None) => (
                        self.failed("Remote doesn't have a destination - press e for edit"@),
                        EffectView::Nothing,
                    ),
                    (Some(src), Some(dest)) => (
                        self,
                        EffectView::Send(
                            CommandView::Sync(JobKey { job_id: 0, name: remote.name, src, dest }),
                        ),
                    ),
                },
            },
        }
    }

    /// Asking to delete the selected remote configuration.
    pub open spec fn delete_request(self) -> TuiView {
        match self.selected_remote() {
            Some(remote) => if remote.origin == ConfigOrigin::RcloneConfig {
                self.failed("Cannot delete a remote from the rclone config"@)
            } else {
                self.in_mode(ModeView::Delete)
            },
            None => self.failed("Cannot delete the config"@),
        }
    }

    /// Duplicating the selected remote configuration: a copy at the head of
    /// the store.
    pub open spec fn duplicate_request(self) -> TuiView {
        match self.selected_remote() {
            Some(remote) => if remote.origin == ConfigOrigin::RcloneConfig {
                self.failed("Cannot duplicate a rclone config - try to edit it"@)
            } else {
                with_remotes(self, self.config.remotes.insert(0, remote))
            },
            None => self.failed("Cannot duplicate the config"@),
        }
    }

    /// Selecting the next row, at most the last one.
    pub open spec fn select_next(self) -> TuiView {
        let count = self.config.remotes.len();
        let at: nat = match self.selected {
            Some(at) => if count == 0 {
                0
            } else if at + 1 >= count {
                (count - 1) as nat
            } else {
                at + 1
            },
            None => 0,
        };
        TuiView { selected: Some(at), ..self }
    }

    /// Selecting the previous row, at least the first one.
    pub open spec fn select_previous(self) -> TuiView {
        let at: nat = match self.selected {
            Some(at) => if at == 0 {
                0
            } else {
                (at - 1) as nat
            },
            None => 0,
        };
        TuiView { selected: Some(at), ..self }
    }

    /// Starting to edit the selected remote configuration.
    pub open spec fn edit_request(self) -> TuiView {
        match self.selected_remote() {
            Some(remote) => self.in_mode(ModeView::EditString(EditView::of_remote(remote))),
            None => self.failed("Cannot edit"@),
        }
    }

    /// A key in normal mode.
    pub open spec fn handle_normal(self, code: KeyCode) -> (TuiView, EffectView) {
        match code {
            KeyCode::Char('q') | KeyCode::Esc => self.quit(),
            KeyCode::Right => self.send_job(),
            KeyCode::Char('r') | KeyCode::Delete | KeyCode::Backspace => (
                self.delete_request(),
                EffectView::Nothing,
            ),
            KeyCode::Char('d') => (self.duplicate_request(), EffectView::Nothing),
            KeyCode::Char('j') | KeyCode::Down => (self.select_next(), EffectView::Nothing),
            KeyCode::Char('k') | KeyCode::Up => (self.select_previous(), EffectView::Nothing),
            KeyCode::Char('e') => (self.edit_request(), EffectView::Nothing),
            _ => (self, EffectView::Nothing),
        }
    }

    /// Confirming a deletion: the selected remote configuration leaves the
    /// store, which is then to be written. One that the engine owns is not
    /// deleted; without a selected one nothing happens.
    pub open spec fn confirm_delete(self) -> (TuiView, EffectView) {
        match (self.selected, self.selected_remote()) {
            (Some(at), Some(remote)) => if remote.origin == ConfigOrigin::RcloneConfig {
                (self.failed("Cannot delete a remote from the rclone config"@), EffectView::Nothing)
            } else {
                (
                    with_remotes(self, self.config.remotes.remove(at as int)),
                    EffectView::Save(SaveReason::Deletion),
                )
            },
            _ => (self, EffectView::Nothing),
        }
    }

    /// Committing the buffer: the configuration it describes replaces the
    /// selected one if that is user-defined, and is put at the head of the
    /// store if the engine owns the selected one. The store is then to be
    /// written.
    pub open spec fn commit(self, buffer: EditView) -> (TuiView, EffectView) {
        match (self.selected, self.selected_remote()) {
            (Some(at), Some(remote)) => {
                let remotes = if remote.origin == ConfigOrigin::GalionConfig {
                    self.config.remotes.update(at as int, buffer.finish())
                } else {
                    self.config.remotes.insert(0, buffer.finish())
                };
                (with_remotes(self, remotes), EffectView::Save(SaveReason::Edit))
            },
            _ => (self.failed("Cannot edit remote"@), EffectView::Nothing),
        }
    }

    /// A key while a remote configuration is edited.
    pub open spec fn handle_edit(self, buffer: EditView, code: KeyCode) -> (TuiView, EffectView) {
        match code {
            KeyCode::Esc => (self.in_mode(ModeView::Normal), EffectView::Nothing),
            KeyCode::Down | KeyCode::Tab => (
                if buffer.active != EditField::Destination {
                    self.in_mode(ModeView::EditString(buffer.select_field(buffer.active.spec_next())))
                } else {
                    self
                },
                EffectView::Nothing,
            ),
            KeyCode::Up => (
                if buffer.active != EditField::Name {
                    self.in_mode(
                        ModeView::EditString(buffer.select_field(buffer.active.spec_previous())),
                    )
                } else {
                    self
                },
                EffectView::Nothing,
            ),
            KeyCode::Enter => self.commit(buffer),
            KeyCode::Left => (
                self.in_mode(ModeView::EditString(buffer.move_cursor_left())),
                EffectView::Nothing,
            ),
            KeyCode::Right => (
                self.in_mode(ModeView::EditString(buffer.move_cursor_right())),
                EffectView::Nothing,
            ),
            KeyCode::Char(c) => (
                self.in_mode(ModeView::EditString(buffer.enter_char(c))),
                EffectView::Nothing,
            ),
            KeyCode::Backspace => (
                self.in_mode(ModeView::EditString(buffer.delete_char())),
                EffectView::Nothing,
            ),
            _ => (self, EffectView::Nothing),
        }
    }

    /// The session after a key, and what the surroundings have to do.
    /// Control and `c` leaves in every mode; any other key acts as the mode
    /// says, and a key that the mode does not know does nothing.
    pub open spec fn handle_key(self, key: KeyEvent) -> (TuiView, EffectView) {
        if key.code == KeyCode::Char('c') && key.control {
            self.quit()
        } else {
            match self.mode {
                ModeView::Normal => self.handle_normal(key.code),
                ModeView::Error(_) => match key.code {
                    KeyCode::Char('q') | KeyCode::Esc => (
                        self.in_mode(ModeView::Normal),
                        EffectView::Nothing,
                    ),
                    _ => (self, EffectView::Nothing),
                },
                ModeView::Delete => match key.code {
                    KeyCode::Char('q') | KeyCode::Char('n') | KeyCode::Esc => (
                        self.in_mode(ModeView::Normal),
                        EffectView::Nothing,
                    ),
                    KeyCode::Char('y') | KeyCode::Enter => self.confirm_delete(),
                    _ => (self, EffectView::Nothing),
                },
                ModeView::EditString(buffer) => self.handle_edit(buffer, key.code),
            }
        }
    }

    /// The session after the store was written: back to normal mode, or
    /// showing what went wrong.
    pub open spec fn save_finished(self, reason: SaveReason, failure: Option<ErrorView>) -> TuiView {
        match failure {
            None => self.in_mode(ModeView::Normal),
            Some(error) => match reason {
                SaveReason::Deletion => self.failed(
                    "Failed to save the config after remote deletion "@ + error.text(),
                ),
                SaveReason::Edit => self.failed("Error save the config "@ + error.text()),
            },
        }
    }
}

/// An action in normal mode that is refused is refused again after the
/// error was dismissed, with the same message, and neither the refusal nor
/// the dismissal changes the store.
pub proof fn lemma_refusal_repeats(session: TuiView, key: KeyEvent, dismiss: KeyEvent)
    requires
        session.mode is Normal,
        session.handle_key(key).0.mode is Error,
        dismiss.code == KeyCode::Esc || dismiss.code == KeyCode::Char('q'),
        !dismiss.control,
    ensures
        session.handle_key(key).0.config == session.config,
        session.handle_key(key).1 is Nothing,
        session.handle_key(key).0.handle_key(dismiss).0 == session,
        session.handle_key(key).0.handle_key(dismiss).0.handle_key(key) == session.handle_key(key),
{
}

/// Whatever the key, a session that shows an error keeps its store, and so
/// does one in normal mode that shows an error afterwards.
pub proof fn lemma_error_keeps_store(session: TuiView, key: KeyEvent)
    requires
        session.mode is Error || (session.mode is Normal && session.handle_key(key).0.mode
            is Error),
    ensures
        session.handle_key(key).0.config == session.config,
{
}

/// Every key keeps a well-formed session well formed.
pub proof fn lemma_handle_key_wf(session: TuiView, key: KeyEvent)
    requires
        session.wf(),
    ensures
        session.handle_key(key).0.wf(),
{
    match session.mode {
        ModeView::EditString(buffer) => {
            if let KeyCode::Char(c) = key.code {
                lemma_enter_then_delete(buffer, c);
            }
            lemma_delete_char_effect(buffer);
        },
        _ => {},
    }
}

/// The session: the store, the selection, the mode, and the jobs as the
/// worker last reported them.
#[derive(Debug)]
pub struct TuiApp {
    app_config: GalionConfig,
    jobs: JobsList,
    exit: bool,
    longest_item_lens: (u16, u16, u16),
    selected: Option<usize>,
    mode: TuiMode,
}

impl View for TuiApp {
    type V = TuiView;

    closed spec fn view(&self) -> TuiView {
        TuiView {
            config: self.app_config@,
            selected: match self.selected {
                Some(at) => Some(at as nat),
                None => None,
            },
            mode: self.mode@,
            exit: self.exit,
            jobs: self.jobs@,
            widths: self.longest_item_lens,
        }
    }
}

impl TuiApp {
    /// The session when it starts on `app_config`.
    pub fn new(app_config: GalionConfig) -> (app: TuiApp)
        ensures
            app@ == TuiView::initial(app_config@),
            app@.wf(),
    {
        let longest_item_lens = constraint_len_calculator(app_config.remotes());
        TuiApp {
            app_config,
            jobs: JobsList::new(),
            exit: false,
            longest_item_lens,
            selected: Some(0),
            mode: TuiMode::Normal,
        }
    }

    /// The store.
    pub fn config(&self) -> (config: &GalionConfig)
        ensures
            config@ == self@.config,
    {
        &self.app_config
    }

    /// Ends the session and hands the store back.
    pub fn into_config(self) -> (config: GalionConfig)
        ensures
            config@ == self@.config,
    {
        self.app_config
    }

    /// The jobs as the worker last reported them.
    pub fn jobs(&self) -> (jobs: &JobsList)
        ensures
            jobs@ == self@.jobs,
    {
        &self.jobs
    }

    /// The mode.
    pub fn mode(&self) -> (mode: &TuiMode)
        ensures
            mode@ == self@.mode,
    {
        &self.mode
    }

    /// The selected row.
    pub fn selected(&self) -> (selected: Option<usize>)
        ensures
            match selected {
                Some(at) => self@.selected == Some(at as nat),
                None => self@.selected is None,
            },
    {
        self.selected
    }

    /// Whether the session is over.
    pub fn should_exit(&self) -> (exit: bool)
        ensures
            exit == self@.exit,
    {
        self.exit
    }

    /// The widths of the table's columns, as they were when the session
    /// started.
    pub fn longest_item_lens(&self) -> (widths: (u16, u16, u16))
        ensures
            widths == self@.widths,
    {
        self.longest_item_lens
    }

    /// Takes a message of the worker: a failure of the worker ends the
    /// session, a list of jobs replaces the one known so far.
    pub fn receive(&mut self, message: ResultJob)
        ensures
            final(self)@ == (match message {
                ResultJob::Exit => TuiView { exit: true, ..old(self)@ },
                ResultJob::Sync(jobs) => TuiView { jobs: jobs@, ..old(self)@ },
            }),
    {
        match message {
            ResultJob::Exit => {
                self.exit = true;
            },
            ResultJob::Sync(jobs) => {
                self.jobs = jobs;
            },
        }
    }

    /// Shows the error `message`.
    pub fn new_error(&mut self, message: &str)
        ensures
            final(self)@ == old(self)@.failed(message@),
    {
        self.mode = TuiMode::Error(String::from_str(message));
    }

    /// Ends the session; the worker is to be told to stop.
    pub fn exit(&mut self) -> (effect: TuiEffect)
        ensures
            (final(self)@, effect@) == old(self)@.quit(),
    {
        self.exit = true;
        TuiEffect::Send(SyncJob::Exit)
    }

    /// The position of the selected remote configuration, if the selection
    /// points at one.
    fn selected_index(&self) -> (at: Option<usize>)
        ensures
            match at {
                Some(i) => self@.selected == Some(i as nat) && i < self@.config.remotes.len()
                    && self@.selected_remote() == Some(self.app_config.remote_configurations@[i as int]@),
                None => self@.selected_remote() is None,
            },
    {
        match self.selected {
            Some(at) => if at < self.app_config.remote_configurations.len() {
                Some(at)
            } else {
                None
            },
            None => None,
        }
    }

    /// Triggers a job for the selected remote configuration.
    pub fn send_job(&mut self) -> (effect: TuiEffect)
        ensures
            (final(self)@, effect@) == old(self)@.send_job(),
    {
        let at = match self.selected {
            Some(at) => at,
            None => {
                self.new_error("No remote configuration selected");
                return TuiEffect::Nothing;
            },
        };
        if at >= self.app_config.remote_configurations.len() {
            let number = decimal_string(at as u64);
            let mut message = joined("No remote configuration at index ", number.as_str());
            message.append(" in remotes");
            self.new_error(message.as_str());
            return TuiEffect::Nothing;
        }
        let remote = &self.app_config.remote_configurations[at];
        let src = match &remote.remote_src {
            Some(src) => src.clone(),
            None => {
                self.new_error("Remote doesn't have a source - press e for edit");
                return TuiEffect::Nothing;
            },
        };
        let dest = match &remote.remote_dest {
            Some(dest) => dest.clone(),
            None => {
                self.new_error("Remote doesn't have a destination - press e for edit");
                return TuiEffect::Nothing;
            },
        };
        let job = SyncJobData { job_id: 0, name: remote.remote_name.clone(), src, dest };
        TuiEffect::Send(SyncJob::Sync(job))
    }

    fn delete_request(&mut self)
        ensures
            final(self)@ == old(self)@.delete_request(),
    {
        match self.selected_index() {
            Some(at) => {
                if self.app_config.remote_configurations[at].config_origin
                    == ConfigOrigin::RcloneConfig {
                    self.new_error("Cannot delete a remote from the rclone config");
                } else {
                    self.mode = TuiMode::Delete;
                }
            },
            None => {
                self.new_error("Cannot delete the config");
            },
        }
    }

    fn duplicate_request(&mut self)
        ensures
            final(self)@ == old(self)@.duplicate_request(),
    {
        match self.selected_index() {
            Some(at) => {
                if self.app_config.remote_configurations[at].config_origin
                    == ConfigOrigin::RcloneConfig {
                    self.new_error("Cannot duplicate a rclone config - try to edit it");
                } else {
                    let copy = self.app_config.remote_configurations[at].clone();
                    let ghost before = self@.config.remotes;
                    self.app_config.remote_configurations.insert(0, copy);
                    assert(self@.config.remotes =~= before.insert(0, copy@));
                }
            },
            None => {
                self.new_error("Cannot duplicate the config");
            },
        }
    }

    fn select_next(&mut self)
        ensures
            final(self)@ == old(self)@.select_next(),
    {
        let count = self.app_config.remote_configurations.len();
        let at = match self.selected {
            Some(at) => if count == 0 {
                0
            } else if at >= count - 1 {
                count - 1
            } else {
                at + 1
            },
            None => 0,
        };
        self.selected = Some(at);
    }

    fn select_previous(&mut self)
        ensures
            final(self)@ == old(self)@.select_previous(),
    {
        let at = match self.selected {
            Some(at) => if at == 0 {
                0
            } else {
                at - 1
            },
            None => 0,
        };
        self.selected = Some(at);
    }

    fn edit_request(&mut self)
        ensures
            final(self)@ == old(self)@.edit_request(),
    {
        match self.selected_index() {
            Some(at) => {
                let buffer = EditRemote::new(&self.app_config.remote_configurations[at]);
                self.mode = TuiMode::EditString(buffer);
            },
            None => {
                self.new_error("Cannot edit");
            },
        }
    }

    /// Takes a key in normal mode.
    pub fn handle_key_event_normal_mode(&mut self, key_event: KeyEvent) -> (effect: TuiEffect)
        ensures
            (final(self)@, effect@) == old(self)@.handle_normal(key_event.code),
    {
        match key_event.code {
            KeyCode::Char('q') | KeyCode::Esc => self.exit(),
            KeyCode::Right => self.send_job(),
            KeyCode::Char('r') | KeyCode::Delete | KeyCode::Backspace => {
                self.delete_request();
                TuiEffect::Nothing
            },
            KeyCode::Char('d') => {
                self.duplicate_request();
                TuiEffect::Nothing
            },
            KeyCode::Char('j') | KeyCode::Down => {
                self.select_next();
                TuiEffect::Nothing
            },
            KeyCode::Char('k') | KeyCode::Up => {
                self.select_previous();
                TuiEffect::Nothing
            },
            KeyCode::Char('e') => {
                self.edit_request();
                TuiEffect::Nothing
            },
            _ => TuiEffect::Nothing,
        }
    }

    fn confirm_delete(&mut self) -> (effect: TuiEffect)
        ensures
            (final(self)@, effect@) == old(self)@.confirm_delete(),
    {
        match self.selected_index() {
            Some(at) => {
                if self.app_config.remote_configurations[at].config_origin
                    == ConfigOrigin::RcloneConfig {
                    self.new_error("Cannot delete a remote from the rclone config");
                    TuiEffect::Nothing
                } else {
                    let ghost before = self@.config.remotes;
                    self.app_config.remote_configurations.remove(at);
                    assert(self@.config.remotes =~= before.remove(at as int));
                    TuiEffect::Save(SaveReason::Deletion)
                }
            },
            None => TuiEffect::Nothing,
        }
    }

    fn commit(&mut self, new_remote: RemoteConfiguration) -> (effect: TuiEffect)
        requires
            old(self)@.mode matches ModeView::EditString(buffer) && new_remote@ == buffer.finish(),
        ensures
            (final(self)@, effect@) == old(self)@.commit(old(self)@.mode->EditString_0),
    {
        match self.selected_index() {
            Some(at) => {
                let ghost before = self@.config.remotes;
                if self.app_config.remote_configurations[at].config_origin
                    == ConfigOrigin::GalionConfig {
                    self.app_config.remote_configurations.set(at, new_remote);
                    assert(self@.config.remotes =~= before.update(at as int, new_remote@));
                } else {
                    self.app_config.remote_configurations.insert(0, new_remote);
                    assert(self@.config.remotes =~= before.insert(0, new_remote@));
                }
                TuiEffect::Save(SaveReason::Edit)
            },
            None => {
                self.new_error("Cannot edit remote");
                TuiEffect::Nothing
            },
        }
    }

    /// Takes a key and says what the surroundings have to do.
    pub fn handle_key_event(&mut self, key_event: KeyEvent) -> (effect: TuiEffect)
        ensures
            (final(self)@, effect@) == old(self)@.handle_key(key_event),
            old(self)@.wf() ==> final(self)@.wf(),
    {
        proof {
            if self@.wf() {
                lemma_handle_key_wf(self@, key_event);
            }
        }
        if key_event.control {
            if let KeyCode::Char('c') = key_event.code {
                return self.exit();
            }
        }
        match &mut self.mode {
            TuiMode::Normal => self.handle_key_event_normal_mode(key_event),
            TuiMode::Error(_) => match key_event.code {
                KeyCode::Char('q') | KeyCode::Esc => {
                    self.mode = TuiMode::Normal;
                    TuiEffect::Nothing
                },
                _ => TuiEffect::Nothing,
            },
            TuiMode::Delete => match key_event.code {
                KeyCode::Char('q') | KeyCode::Char('n') | KeyCode::Esc => {
                    self.mode = TuiMode::Normal;
                    TuiEffect::Nothing
                },
                KeyCode::Char('y') | KeyCode::Enter => self.confirm_delete(),
                _ => TuiEffect::Nothing,
            },
            TuiMode::EditString(edit_string) => match key_event.code {
                KeyCode::Esc => {
                    self.mode = TuiMode::Normal;
                    TuiEffect::Nothing
                },
                KeyCode::Down | KeyCode::Tab => {
                    if edit_string.active_field != EditField::Destination {
                        edit_string.select_field(edit_string.active_field.next());
                    }
                    TuiEffect::Nothing
                },
                KeyCode::Up => {
                    if edit_string.active_field != EditField::Name {
                        edit_string.select_field(edit_string.active_field.previous());
                    }
                    TuiEffect::Nothing
                },
                KeyCode::Enter => {
                    let new_remote = edit_string.finish();
                    self.commit(new_remote)
                },
                KeyCode::Left => {
                    edit_string.move_cursor_left();
                    TuiEffect::Nothing
                },
                KeyCode::Right => {
                    edit_string.move_cursor_right();
                    TuiEffect::Nothing
                },
                KeyCode::Char(to_insert) => {
                    edit_string.enter_char(to_insert);
                    TuiEffect::Nothing
                },
                KeyCode::Backspace => {
                    edit_string.delete_char();
                    TuiEffect::Nothing
                },
                _ => TuiEffect::Nothing,
            },
        }
    }

    /// Title and text of the window that lies over the table: the error
    /// that is shown, or the question that precedes a deletion.
    pub fn popup(&self) -> (window: Option<(String, String)>)
        ensures
            match self@.mode {
                ModeView::Error(message) => window matches Some(shown) && shown.0@ == "Error"@
                    && shown.1@ == message,
                ModeView::Delete => window matches Some(shown) && shown.0@
                    == "Delete remote configuration"@ && shown.1@ == "Delete the config (y/n)"@,
                _ => window is None,
            },
    {
        match &self.mode {
            TuiMode::Error(message) => Some((String::from_str("Error"), message.clone())),
            TuiMode::Delete => Some(
                (
                    String::from_str("Delete remote configuration"),
                    String::from_str("Delete the config (y/n)"),
                ),
            ),
            _ => None,
        }
    }

    /// The banner shown while no job is known: with waves as chance has
    /// them in normal mode, with calm waves in every other mode.
    pub fn idle_banner(&self) -> (banner: String)
        ensures
            !(self@.mode is Normal) ==> banner@ == spec_logo(WAVES@),
            banner@ == spec_logo(WAVES@) || exists|at: int|
                2 <= at < 9 && banner@ == spec_logo(#[trigger] rippled(WAVES@, at)),
    {
        match &self.mode {
            TuiMode::Normal => GalionApp::logo_random_waves(),
            _ => GalionApp::logo_waves(),
        }
    }

    /// Takes the outcome of writing the store to its file.
    pub fn save_finished(&mut self, reason: SaveReason, outcome: Result<(), GalionError>)
        ensures
            final(self)@ == old(self)@.save_finished(
                reason,
                match outcome {
                    Ok(_) => None,
                    Err(error) => Some(error@),
                },
            ),
    {
        match outcome {
            Ok(_) => {
                self.mode = TuiMode::Normal;
            },
            Err(error) => {
                let text = error.to_string();
                let message = match reason {
                    SaveReason::Deletion => joined(
                        "Failed to save the config after remote deletion ",
                        text.as_str(),
                    ),
                    SaveReason::Edit => joined("Error save the config ", text.as_str()),
                };
                self.mode = TuiMode::Error(message);
            },
        }
    }
}

} // verus!
