//! Remote configurations and the buffer in which one is edited.

use crate::text::{
    byte_index_of, byte_offset, char_count, clone_option, clone_or_empty, insert_char_at, inserted,
    option_text, push_char, removed, text_or_empty, without_char_at,
};
use vstd::prelude::*;
use vstd::string::*;

verus! {

/// Where a remote configuration comes from.
#[derive(Debug, Clone, Copy, PartialEq, Eq, Structural)]
pub enum ConfigOrigin {
    /// Defined by the user in this program's own configuration.
    GalionConfig,
    /// Discovered in the synchronisation engine's configuration.
    RcloneConfig,
}

impl Default for ConfigOrigin {
    fn default() -> (origin: Self)
        ensures
            origin == ConfigOrigin::GalionConfig,
    {
        ConfigOrigin::GalionConfig
    }
}

impl ConfigOrigin {
    /// The text shown for this origin.
    pub open spec fn spec_label(self) -> Seq<char> {
        match self {
            ConfigOrigin::GalionConfig => "galion config"@,
            ConfigOrigin::RcloneConfig => "rclone config"@,
        }
    }

    /// The text shown for this origin.
    pub fn to_string(&self) -> (label: String)
        ensures
            label@ == self.spec_label(),
    {
        match self {
            ConfigOrigin::GalionConfig => String::from_str("galion config"),
            ConfigOrigin::RcloneConfig => String::from_str("rclone config"),
        }
    }
}

/// A named pairing of a source and a destination of a synchronisation.
#[derive(Debug, PartialEq, Eq)]
pub struct RemoteConfiguration {
    /// Name of the remote; names need not be unique.
    pub remote_name: String,
    /// Source locator.
    pub remote_src: Option<String>,
    /// Destination locator.
    pub remote_dest: Option<String>,
    /// Origin of the configuration.
    pub config_origin: ConfigOrigin,
}

/// The mathematical value of a [`RemoteConfiguration`].
pub struct RemoteView {
    pub name: Seq<char>,
    pub src: Option<Seq<char>>,
    pub dest: Option<Seq<char>>,
    pub origin: ConfigOrigin,
}

impl View for RemoteConfiguration {
    type V = RemoteView;

    open spec fn view(&self) -> RemoteView {
        RemoteView {
            name: self.remote_name@,
            src: option_text(self.remote_src),
            dest: option_text(self.remote_dest),
            origin: self.config_origin,
        }
    }
}

impl Clone for RemoteConfiguration {
    fn clone(&self) -> (copy: Self)
        ensures
            copy@ == self@,
    {
        RemoteConfiguration {
            remote_name: self.remote_name.clone(),
            remote_src: clone_option(&self.remote_src),
            remote_dest: clone_option(&self.remote_dest),
            config_origin: self.config_origin,
        }
    }
}

impl RemoteView {
    /// The three cells of the table row that shows this configuration: the
    /// name above the origin, the source, the destination.
    pub open spec fn table_row(self) -> Seq<Seq<char>> {
        seq![
            self.name + seq!['\n'] + self.origin.spec_label(),
            text_or_empty(self.src),
            text_or_empty(self.dest),
        ]
    }
}

impl RemoteConfiguration {
    /// The three cells of the table row that shows this configuration.
    pub fn to_table_row(&self) -> (row: [String; 3])
        ensures
            row@.len() == 3,
            forall|i: int| 0 <= i < 3 ==> (#[trigger] row@[i])@ == self@.table_row()[i],
    {
        let mut first = self.remote_name.clone();
        push_char(&mut first, '\n');
        let label = self.config_origin.to_string();
        first.append(label.as_str());
        let second = clone_or_empty(&self.remote_src);
        let third = clone_or_empty(&self.remote_dest);
        assert(self.remote_name@.push('\n') =~= self.remote_name@ + seq!['\n']);
        [first, second, third]
    }
}

/// The field of the edit buffer that receives input.
#[derive(Debug, Clone, Copy, PartialEq, Eq, Structural)]
pub enum EditField {
    /// The remote's name.
    Name,
    /// The source locator.
    Source,
    /// The destination locator.
    Destination,
}

impl EditField {
    /// The field after this one; the last field stays.
    pub open spec fn spec_next(self) -> EditField {
        match self {
            EditField::Name => EditField::Source,
            _ => EditField::Destination,
        }
    }

    /// The field before this one; the first field stays.
    pub open spec fn spec_previous(self) -> EditField {
        match self {
            EditField::Destination => EditField::Source,
            _ => EditField::Name,
        }
    }

    /// The field after this one; the last field stays.
    pub fn next(self) -> (field: EditField)
        ensures
            field == self.spec_next(),
    {
        match self {
            EditField::Name => EditField::Source,
            _ => EditField::Destination,
        }
    }

    /// The field before this one; the first field stays.
    pub fn previous(self) -> (field: EditField)
        ensures
            field == self.spec_previous(),
    {
        match self {
            EditField::Destination => EditField::Source,
            _ => EditField::Name,
        }
    }
}

/// Text editing state for one remote configuration: three fields, one of
/// them active, and a cursor counted in characters within the active field.
#[derive(Debug, PartialEq, Eq)]
pub struct EditRemote {
    /// The field that receives input.
    pub active_field: EditField,
    /// Cursor position in the active field, in characters.
    pub character_index: usize,
    /// Text of the name field.
    pub remote_name: String,
    /// Text of the source field.
    pub remote_src: String,
    /// Text of the destination field.
    pub remote_dest: String,
}

/// The mathematical value of an [`EditRemote`].
pub struct EditView {
    pub active: EditField,
    pub cursor: nat,
    pub name: Seq<char>,
    pub src: Seq<char>,
    pub dest: Seq<char>,
}

/// The smaller of two numbers.
pub open spec fn at_most(a: int, b: int) -> int {
    if a <= b {
        a
    } else {
        b
    }
}

impl EditView {
    /// Text of the active field.
    pub open spec fn active_text(self) -> Seq<char> {
        match self.active {
            EditField::Name => self.name,
            EditField::Source => self.src,
            EditField::Destination => self.dest,
        }
    }

    /// This buffer with the text of the active field replaced.
    pub open spec fn with_active_text(self, text: Seq<char>) -> EditView {
        match self.active {
            EditField::Name => EditView { name: text, ..self },
            EditField::Source => EditView { src: text, ..self },
            EditField::Destination => EditView { dest: text, ..self },
        }
    }

    /// The cursor lies within the active field or just behind its end.
    pub open spec fn wf(self) -> bool {
        self.cursor <= self.active_text().len()
    }

    /// A cursor position clamped to the active field.
    pub open spec fn clamp(self, position: int) -> nat {
        at_most(position, self.active_text().len() as int) as nat
    }

    /// The buffer after a character was typed: it stands at the cursor (at
    /// the end, if the cursor was past it) and the cursor is one further.
    pub open spec fn enter_char(self, c: char) -> EditView {
        let after = self.with_active_text(inserted(self.active_text(), self.cursor as int, c));
        EditView { cursor: after.clamp(self.cursor as int + 1), ..after }
    }

    /// The buffer after a backspace: nothing changes with the cursor at the
    /// start; otherwise the character left of the cursor is gone and the
    /// cursor is one back.
    pub open spec fn delete_char(self) -> EditView {
        if self.cursor == 0 {
            self
        } else {
            let after = self.with_active_text(removed(self.active_text(), self.cursor - 1));
            EditView { cursor: after.clamp(self.cursor - 1), ..after }
        }
    }

    /// The buffer with the cursor one to the right, at most at the end.
    pub open spec fn move_cursor_right(self) -> EditView {
        EditView { cursor: self.clamp(self.cursor as int + 1), ..self }
    }

    /// The buffer with the cursor one to the left, at least at the start.
    pub open spec fn move_cursor_left(self) -> EditView {
        EditView { cursor: self.clamp(if self.cursor == 0 { 0 } else { self.cursor - 1 }), ..self }
    }

    /// The buffer with the cursor at the end of the active field.
    pub open spec fn reset_char_index(self) -> EditView {
        EditView { cursor: self.active_text().len(), ..self }
    }

    /// The buffer with `field` active and the cursor at the end of its text.
    pub open spec fn select_field(self, field: EditField) -> EditView {
        EditView { active: field, ..self }.reset_char_index()
    }

    /// The configuration that the buffer describes: always user-defined,
    /// with both locators present.
    pub open spec fn finish(self) -> RemoteView {
        RemoteView {
            name: self.name,
            src: Some(self.src),
            dest: Some(self.dest),
            origin: ConfigOrigin::GalionConfig,
        }
    }

    /// The buffer in which `remote` is edited: the name field is active, the
    /// cursor at its start, absent locators are empty.
    pub open spec fn of_remote(remote: RemoteView) -> EditView {
        EditView {
            active: EditField::Name,
            cursor: 0,
            name: remote.name,
            src: text_or_empty(remote.src),
            dest: text_or_empty(remote.dest),
        }
    }
}

impl View for EditRemote {
    type V = EditView;

    open spec fn view(&self) -> EditView {
        EditView {
            active: self.active_field,
            cursor: self.character_index as nat,
            name: self.remote_name@,
            src: self.remote_src@,
            dest: self.remote_dest@,
        }
    }
}

impl EditRemote {
    /// The buffer in which `remote` is edited.
    pub fn new(remote: &RemoteConfiguration) -> (buffer: EditRemote)
        ensures
            buffer@ == EditView::of_remote(remote@),
            buffer@.wf(),
    {
        EditRemote {
            active_field: EditField::Name,
            character_index: 0,
            remote_name: remote.remote_name.clone(),
            remote_src: clone_or_empty(&remote.remote_src),
            remote_dest: clone_or_empty(&remote.remote_dest),
        }
    }

    /// Byte offset of the cursor in the active field's text: where the
    /// character under the cursor starts, or the byte length of the text when
    /// the cursor is at or past its end.
    pub fn byte_index(&self) -> (at: usize)
        ensures
            at == byte_offset(self@.active_text(), self@.cursor as int),
    {
        match self.active_field {
            EditField::Name => byte_index_of(&self.remote_name, self.character_index),
            EditField::Source => byte_index_of(&self.remote_src, self.character_index),
            EditField::Destination => byte_index_of(&self.remote_dest, self.character_index),
        }
    }

    /// A cursor position clamped to the active field.
    pub fn clamp_cursor(&self, new_cursor_pos: usize) -> (position: usize)
        ensures
            position == self@.clamp(new_cursor_pos as int),
            self@.active_text().len() <= usize::MAX,
    {
        let input_count = match self.active_field {
            EditField::Name => char_count(&self.remote_name),
            EditField::Source => char_count(&self.remote_src),
            EditField::Destination => char_count(&self.remote_dest),
        };
        if new_cursor_pos <= input_count {
            new_cursor_pos
        } else {
            input_count
        }
    }

    /// Types `new_char` at the cursor of the active field.
    pub fn enter_char(&mut self, new_char: char)
        ensures
            final(self)@ == old(self)@.enter_char(new_char),
            old(self)@.wf() ==> final(self)@.wf(),
    {
        match self.active_field {
            EditField::Name => insert_char_at(
                &mut self.remote_name,
                self.character_index,
                new_char,
            ),
            EditField::Source => insert_char_at(
                &mut self.remote_src,
                self.character_index,
                new_char,
            ),
            EditField::Destination => insert_char_at(
                &mut self.remote_dest,
                self.character_index,
                new_char,
            ),
        }
        self.move_cursor_right();
    }

    /// Moves the cursor one character to the right, at most to the end.
    pub fn move_cursor_right(&mut self)
        ensures
            final(self)@ == old(self)@.move_cursor_right(),
            final(self)@.wf(),
    {
        let cursor_moved_right = self.character_index.saturating_add(1);
        self.character_index = self.clamp_cursor(cursor_moved_right);
    }

    /// Moves the cursor one character to the left, at least to the start.
    pub fn move_cursor_left(&mut self)
        ensures
            final(self)@ == old(self)@.move_cursor_left(),
            final(self)@.wf(),
    {
        let cursor_moved_left = self.character_index.saturating_sub(1);
        self.character_index = self.clamp_cursor(cursor_moved_left);
    }

    /// Removes the character left of the cursor, if there is one.
    pub fn delete_char(&mut self)
        ensures
            final(self)@ == old(self)@.delete_char(),
            old(self)@.wf() ==> final(self)@.wf(),
    {
        if self.character_index != 0 {
            let target = self.character_index - 1;
            match self.active_field {
                EditField::Name => {
                    self.remote_name = without_char_at(&self.remote_name, target);
                },
                EditField::Source => {
                    self.remote_src = without_char_at(&self.remote_src, target);
                },
                EditField::Destination => {
                    self.remote_dest = without_char_at(&self.remote_dest, target);
                },
            }
            self.move_cursor_left();
        }
    }

    /// Puts the cursor at the end of the active field.
    pub fn reset_char_index(&mut self)
        ensures
            final(self)@ == old(self)@.reset_char_index(),
            final(self)@.wf(),
    {
        let input_len = match self.active_field {
            EditField::Name => char_count(&self.remote_name),
            EditField::Source => char_count(&self.remote_src),
            EditField::Destination => char_count(&self.remote_dest),
        };
        self.character_index = self.clamp_cursor(input_len);
    }

    /// Makes `field` the active one and puts the cursor at the end of its
    /// text.
    pub fn select_field(&mut self, field: EditField)
        ensures
            final(self)@ == old(self)@.select_field(field),
            final(self)@.wf(),
    {
        self.active_field = field;
        self.reset_char_index();
    }

    /// The column of the cursor within the field as it is shown: the
    /// cursor's position, or 0 if that is above 65535.
    pub fn cursor_column(&self) -> (column: u16)
        ensures
            column == (if self@.cursor <= u16::MAX {
                self@.cursor as u16
            } else {
                0
            }),
    {
        if self.character_index <= 65535 {
            self.character_index as u16
        } else {
            0
        }
    }

    /// The configuration that the buffer describes.
    pub fn finish(&self) -> (remote: RemoteConfiguration)
        ensures
            remote@ == self@.finish(),
    {
        RemoteConfiguration {
            remote_name: self.remote_name.clone(),
            remote_src: Some(self.remote_src.clone()),
            remote_dest: Some(self.remote_dest.clone()),
            config_origin: ConfigOrigin::GalionConfig,
        }
    }
}

/// Editing a user-defined configuration that has both locators and
/// committing at once gives the configuration back.
pub proof fn lemma_edit_round_trip(remote: RemoteView)
    requires
        remote.origin == ConfigOrigin::GalionConfig,
        remote.src is Some,
        remote.dest is Some,
    ensures
        EditView::of_remote(remote).finish() == remote,
{
}

/// Committing an untouched buffer gives the configuration's name back,
/// its locators with the absent ones made empty, and a user-defined origin.
pub proof fn lemma_edit_commit_unedited(remote: RemoteView)
    ensures
        EditView::of_remote(remote).finish() == (RemoteView {
            name: remote.name,
            src: Some(text_or_empty(remote.src)),
            dest: Some(text_or_empty(remote.dest)),
            origin: ConfigOrigin::GalionConfig,
        }),
{
}

/// Typing a character and deleting it again restores the buffer: text and
/// cursor are as before, whatever the width of the character's encoding.
pub proof fn lemma_enter_then_delete(buffer: EditView, c: char)
    requires
        buffer.wf(),
    ensures
        buffer.enter_char(c).delete_char() == buffer,
        buffer.enter_char(c).wf(),
{
    let text = buffer.active_text();
    let k = buffer.cursor as int;
    assert(text.insert(k, c).remove(k) =~= text);
    let typed = buffer.enter_char(c);
    assert(typed.active_text() == text.insert(k, c));
    assert(typed.cursor == k + 1);
    let back = typed.delete_char();
    assert(back.active_text() =~= text);
}

/// Deleting never lengthens the active field, removes at most one character,
/// and leaves the other two fields alone.
pub proof fn lemma_delete_char_effect(buffer: EditView)
    requires
        buffer.wf(),
    ensures
        buffer.delete_char().wf(),
        buffer.delete_char().active == buffer.active,
        buffer.cursor == 0 ==> buffer.delete_char() == buffer,
        buffer.cursor > 0 ==> buffer.delete_char().cursor == buffer.cursor - 1
            && buffer.delete_char().active_text() == buffer.active_text().remove(
            buffer.cursor - 1,
        ),
{
}

} // verus!
