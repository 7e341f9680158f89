//! The session: what is on screen and under edit, and the reaction to each
//! key. The session decides; reading keys, the clipboard, the files and the
//! remote are left to the program around it, which is told what to do by
//! the [`Action`] that each reaction carries.

use vstd::prelude::*;

use crate::key::{InputMode, Key, KeyCode, Modifiers};
use crate::list::{
    lemma_retain_bounds, spec_next_index, spec_previous_index, spec_retain, spec_retain_from,
    spec_revalidated, StatefulList,
};
use crate::note::{
    commit_message, note_views, spec_commit_message, spec_note_path, Note, NoteView,
};
use crate::search::spec_title_flags;
use crate::store::{spec_write_follows, write_follows, StoreError};

verus! {

/// The part of the state that is drawn: the mode and the list of notes.
#[derive(Debug)]
pub struct App {
    pub input: String,
    pub input_mode: InputMode,
    pub list: StatefulList<Note>,
}

impl Default for App {
    fn default() -> (app: App)
        ensures
            app.input@ == Seq::<char>::empty(),
            app.input_mode == InputMode::Normal,
            app.list.items@ == Seq::<Note>::empty(),
            app.list.selected_num.is_none(),
    {
        App {
            input: String::new(),
            input_mode: InputMode::Normal,
            list: StatefulList::with_items(Vec::new()),
        }
    }
}

/// A note that is to be written to its path, and the message under which
/// the write is committed once it succeeded. After the write the steps that
/// [`sync_follows`](crate::sync::sync_follows) gives for its outcome and
/// the message are left to the background.
#[derive(Debug)]
pub struct Write {
    pub note: Note,
    pub message: String,
}

/// The mathematical value of a [`Write`].
pub struct WriteView {
    pub note: NoteView,
    pub message: Seq<char>,
}

impl View for Write {
    type V = WriteView;

    open spec fn view(&self) -> WriteView {
        WriteView { note: self.note@, message: self.message@ }
    }
}

/// The value of a write that may be there.
pub open spec fn write_view(write: Option<Write>) -> Option<WriteView> {
    match write {
        Some(write) => Some(write@),
        None => None,
    }
}

/// What the program around the session has to do after a key.
#[derive(Debug)]
pub enum Action {
    /// Nothing.
    Nothing,
    /// Leave the main loop.
    Quit,
    /// Put this text on the clipboard.
    Copy(String),
    /// Read the clipboard and hand its text to [`Session::paste`].
    Paste,
    /// Remove this note's file and hand the outcome to
    /// [`Session::finish_delete`].
    Delete(Note),
    /// Remove this note's file, which holds the selected note as it was
    /// stored before, and hand the outcome to [`Session::resume_save`].
    Save(Note),
}

/// The mathematical value of an [`Action`].
pub enum ActionView {
    Nothing,
    Quit,
    Copy(Seq<char>),
    Paste,
    Delete(NoteView),
    Save(NoteView),
}

impl View for Action {
    type V = ActionView;

    open spec fn view(&self) -> ActionView {
        match *self {
            Action::Nothing => ActionView::Nothing,
            Action::Quit => ActionView::Quit,
            Action::Copy(text) => ActionView::Copy(text@),
            Action::Paste => ActionView::Paste,
            Action::Delete(note) => ActionView::Delete(note@),
            Action::Save(previous) => ActionView::Save(previous@),
        }
    }
}

/// The reaction to a key: an action, and whether the list of notes has to
/// be read anew from the storage tree and handed to
/// [`Session::load_notes`]. The action comes first.
#[derive(Debug)]
pub struct Reaction {
    pub action: Action,
    pub rescan: bool,
}

/// The mathematical value of a [`Reaction`].
pub struct ReactionView {
    pub action: ActionView,
    pub rescan: bool,
}

impl View for Reaction {
    type V = ReactionView;

    open spec fn view(&self) -> ReactionView {
        ReactionView { action: self.action@, rescan: self.rescan }
    }
}

/// The state of an interactive session.
#[derive(Debug)]
pub struct Session {
    /// The mode and the list of known notes.
    pub app: App,
    /// The note under edit: a working copy that the list and the storage
    /// tree need not reflect yet.
    pub note: Note,
    /// The search query.
    pub search_text: String,
    /// The root of the storage tree.
    pub base_url: String,
}

/// The mathematical value of a [`Session`].
pub struct SessionView {
    pub mode: InputMode,
    pub input: Seq<char>,
    pub items: Seq<NoteView>,
    pub selected: Option<usize>,
    pub note: NoteView,
    pub search: Seq<char>,
    pub root: Seq<char>,
}

impl View for Session {
    type V = SessionView;

    open spec fn view(&self) -> SessionView {
        SessionView {
            mode: self.app.input_mode,
            input: self.app.input@,
            items: note_views(self.app.list.items@),
            selected: self.app.list.selected_num,
            note: self.note@,
            search: self.search_text@,
            root: self.base_url@,
        }
    }
}

/// A text buffer after a key: control-u empties it, a character typed
/// plainly or with shift is appended, backspace takes the last character
/// away, and every other key leaves the buffer as it is.
pub open spec fn spec_edit(buffer: Seq<char>, key: Key) -> Seq<char> {
    match key.code {
        KeyCode::Char(c) => if key.modifiers == Modifiers::Control && c == 'u' {
            Seq::empty()
        } else if key.modifiers == Modifiers::Plain || key.modifiers == Modifiers::Shift {
            buffer.push(c)
        } else {
            buffer
        },
        KeyCode::Backspace => if key.modifiers == Modifiers::Plain && buffer.len() > 0 {
            buffer.drop_last()
        } else {
            buffer
        },
        _ => buffer,
    }
}

/// What a key asks of the clipboard while a buffer is edited: control-c
/// copies the buffer, control-v asks for the clipboard's text.
pub open spec fn spec_edit_action(buffer: Seq<char>, key: Key) -> ActionView {
    if key.is_control('c') {
        ActionView::Copy(buffer)
    } else if key.is_control('v') {
        ActionView::Paste
    } else {
        ActionView::Nothing
    }
}

/// The empty note under `root`.
pub open spec fn spec_fresh_note(root: Seq<char>) -> NoteView {
    NoteView {
        file_path: spec_note_path(root, Seq::empty(), Seq::empty()),
        title: Seq::empty(),
        language: Seq::empty(),
        contents: Seq::empty(),
    }
}

/// The note that saving makes of the note under edit: its texts, at the
/// path that its language and title have under the root.
pub open spec fn spec_saved_note(s: SessionView) -> NoteView {
    NoteView {
        file_path: spec_note_path(s.root, s.note.language, s.note.title),
        title: s.note.title,
        language: s.note.language,
        contents: s.note.contents,
    }
}

/// A selection, where there is one, points at a note of the list.
pub open spec fn spec_wf(s: SessionView) -> bool {
    s.selected matches Some(i) ==> i < s.items.len()
}

/// Creating a note: the note under edit becomes the empty note, which is
/// also appended to the list and selected.
pub open spec fn spec_create(s: SessionView) -> SessionView {
    SessionView {
        note: spec_fresh_note(s.root),
        items: s.items.push(spec_fresh_note(s.root)),
        selected: Some(s.items.len() as usize),
        ..s
    }
}

/// Taking the selected note out of the list. Afterwards the note before it
/// is selected and put under edit; where the first note was taken out, the
/// new first note is selected and the note under edit is the empty note;
/// where the list became empty, nothing is selected.
pub open spec fn spec_remove_selected(s: SessionView) -> SessionView {
    match s.selected {
        Some(i) => if i < s.items.len() {
            let rest = s.items.remove(i as int);
            if rest.len() == 0 {
                SessionView { items: rest, selected: None, note: spec_fresh_note(s.root), ..s }
            } else if i > 0 {
                SessionView {
                    items: rest,
                    selected: Some((i - 1) as usize),
                    note: rest[i - 1],
                    ..s
                }
            } else {
                SessionView {
                    items: rest,
                    selected: Some(0usize),
                    note: spec_fresh_note(s.root),
                    ..s
                }
            }
        } else {
            s
        },
        None => s,
    }
}

/// The end of a deletion, given the outcome of removing the note's file:
/// where the file is gone the selected note leaves the list, and where it
/// could not be removed the session stays as it is.
pub open spec fn spec_finish_delete(s: SessionView, removed: Result<(), StoreError>) -> SessionView {
    match removed {
        Ok(_) => spec_remove_selected(s),
        Err(_) => s,
    }
}

/// Whether a save goes on after the attempt to remove the file that held
/// the selected note: a note is selected, and the file was removed or was
/// not there.
pub open spec fn spec_save_goes_on(s: SessionView, removed: Result<(), StoreError>) -> bool {
    spec_write_follows(removed) && (s.selected matches Some(i) && i < s.items.len())
}

/// The state after the attempt to remove the file that held the selected
/// note: where the save goes on, the selected entry of the list becomes the
/// saved form of the note under edit; else the session stays as it is.
pub open spec fn spec_resume_save(s: SessionView, removed: Result<(), StoreError>) -> SessionView {
    if spec_save_goes_on(s, removed) {
        SessionView { items: s.items.update(s.selected->0 as int, spec_saved_note(s)), ..s }
    } else {
        s
    }
}

/// What is written where a save goes on: the saved form of the note under
/// edit, to be committed under the message that its language and title
/// give.
pub open spec fn spec_write(s: SessionView, removed: Result<(), StoreError>) -> Option<WriteView> {
    if spec_save_goes_on(s, removed) {
        Some(
            WriteView {
                note: spec_saved_note(s),
                message: spec_commit_message(s.note.language, s.note.title),
            },
        )
    } else {
        None
    }
}

/// Moving the selection to `index` and putting that note under edit. An
/// empty list stays as it is.
pub open spec fn spec_select(s: SessionView, index: int) -> SessionView {
    if 0 <= index < s.items.len() {
        SessionView { selected: Some(index as usize), note: s.items[index], ..s }
    } else {
        s
    }
}

/// The reaction to a key in `Normal` mode.
pub open spec fn spec_normal_key(s: SessionView, key: Key) -> (SessionView, ReactionView) {
    let quiet = ReactionView { action: ActionView::Nothing, rescan: false };
    if key.is_plain(KeyCode::Enter) || key.is_plain(KeyCode::Tab) {
        (SessionView { mode: s.mode.spec_on_key(key), ..s }, quiet)
    } else if key.is_control('q') {
        (s, ReactionView { action: ActionView::Quit, rescan: false })
    } else if key.is_control('n') {
        (spec_create(s), quiet)
    } else if key.is_control('d') {
        match s.selected {
            Some(i) => (
                s,
                ReactionView { action: ActionView::Delete(s.items[i as int]), rescan: false },
            ),
            None => (s, quiet),
        }
    } else if key.is_control('c') {
        match s.selected {
            Some(_) => (
                s,
                ReactionView { action: ActionView::Copy(s.note.contents), rescan: false },
            ),
            None => (s, quiet),
        }
    } else if key.is_control('s') {
        match s.selected {
            Some(i) => (
                s,
                ReactionView { action: ActionView::Save(s.items[i as int]), rescan: false },
            ),
            None => (s, quiet),
        }
    } else if key.is_plain(KeyCode::Left) {
        (SessionView { selected: None, ..s }, quiet)
    } else if key.is_plain(KeyCode::Down) {
        (spec_select(s, spec_next_index(s.selected, s.items.len())), quiet)
    } else if key.is_plain(KeyCode::Up) {
        (spec_select(s, spec_previous_index(s.selected, s.items.len())), quiet)
    } else {
        (s, quiet)
    }
}

/// The reaction to a key while the search query is edited. `Enter` keeps
/// the notes whose title matches the query. Whenever the query is empty
/// after the key, the list has to be read anew; after control-v that is
/// decided when the clipboard's text arrives.
pub open spec fn spec_search_key(s: SessionView, key: Key) -> (SessionView, ReactionView) {
    let search = spec_edit(s.search, key);
    let items = if key.is_plain(KeyCode::Enter) {
        spec_retain(s.items, spec_title_flags(s.items, search))
    } else {
        s.items
    };
    (
        SessionView {
            mode: s.mode.spec_after_edit_key(key),
            search,
            items,
            selected: spec_revalidated(s.selected, items.len()),
            ..s
        },
        ReactionView {
            action: spec_edit_action(s.search, key),
            rescan: search.len() == 0 && !key.is_control('v'),
        },
    )
}

/// The contents of the note under edit after a key: edited as every
/// buffer is, and `Enter` appends a line break.
pub open spec fn spec_edit_contents(contents: Seq<char>, key: Key) -> Seq<char> {
    if key.is_plain(KeyCode::Enter) {
        spec_edit(contents, key).push('\n')
    } else {
        spec_edit(contents, key)
    }
}

/// The reaction to a key: the state after it and what is left to do.
pub open spec fn spec_handle_key(s: SessionView, key: Key) -> (SessionView, ReactionView) {
    let mode = s.mode.spec_after_edit_key(key);
    match s.mode {
        InputMode::Normal => spec_normal_key(s, key),
        InputMode::EditingSearch => spec_search_key(s, key),
        InputMode::EditingTitle => (
            SessionView { mode, note: NoteView { title: spec_edit(s.note.title, key), ..s.note }, ..s },
            ReactionView { action: spec_edit_action(s.note.title, key), rescan: false },
        ),
        InputMode::EditingLanguage => (
            SessionView {
                mode,
                note: NoteView { language: spec_edit(s.note.language, key), ..s.note },
                ..s
            },
            ReactionView { action: spec_edit_action(s.note.language, key), rescan: false },
        ),
        InputMode::EditingCode => (
            SessionView {
                mode,
                note: NoteView { contents: spec_edit_contents(s.note.contents, key), ..s.note },
                ..s
            },
            ReactionView { action: spec_edit_action(s.note.contents, key), rescan: false },
        ),
    }
}

/// The state after the clipboard's text arrived: the text takes the place
/// of the buffer that the mode edits. In `Normal` mode nothing is edited.
pub open spec fn spec_paste(s: SessionView, text: Seq<char>) -> SessionView {
    match s.mode {
        InputMode::Normal => s,
        InputMode::EditingSearch => SessionView { search: text, ..s },
        InputMode::EditingTitle => SessionView { note: NoteView { title: text, ..s.note }, ..s },
        InputMode::EditingLanguage => SessionView {
            note: NoteView { language: text, ..s.note },
            ..s
        },
        InputMode::EditingCode => SessionView { note: NoteView { contents: text, ..s.note }, ..s },
    }
}

/// Edits a text buffer by one key and moves the mode where the key asks
/// for it. Returns what the key asks of the clipboard.
pub fn update_input_buffer(app: &mut App, buffer: &mut String, key: &Key) -> (action: Action)
    ensures
        final(buffer)@ == spec_edit(old(buffer)@, *key),
        final(app).input_mode == old(app).input_mode.spec_after_edit_key(*key),
        final(app).input == old(app).input,
        final(app).list == old(app).list,
        action@ == spec_edit_action(old(buffer)@, *key),
{
    match key.modifiers {
        Modifiers::Control => match key.code {
            KeyCode::Char(c) => {
                if c == 'u' {
                    buffer.clear();
                    Action::Nothing
                } else if c == 'c' {
                    Action::Copy(buffer.clone())
                } else if c == 'v' {
                    Action::Paste
                } else {
                    Action::Nothing
                }
            },
            _ => Action::Nothing,
        },
        Modifiers::Plain => {
            match key.code {
                KeyCode::Char(c) => {
                    buffer.push(c);
                },
                KeyCode::Backspace => {
                    buffer.pop();
                },
                KeyCode::Tab => {
                    app.input_mode = app.input_mode.next_mode();
                },
                KeyCode::Esc => {
                    app.input_mode = InputMode::Normal;
                },
                _ => {},
            }
            Action::Nothing
        },
        Modifiers::Shift => {
            match key.code {
                KeyCode::Char(c) => {
                    buffer.push(c);
                },
                _ => {},
            }
            Action::Nothing
        },
        Modifiers::Other => Action::Nothing,
    }
}

/// The empty note under `base_url`.
pub fn fresh_note(base_url: &str) -> (note: Note)
    ensures
        note@ == spec_fresh_note(base_url@),
{
    proof {
        reveal_strlit("");
        assert(""@ =~= Seq::<char>::empty());
    }
    Note::new(base_url, "", "", "")
}

impl Session {
    /// A selection, where there is one, points at a note of the list.
    pub open spec fn wf(&self) -> bool {
        spec_wf(self@)
    }

    /// Whether the selection, where there is one, points at a note.
    pub fn is_well_formed(&self) -> (well_formed: bool)
        ensures
            well_formed == self.wf(),
    {
        match self.app.list.get_selected_num() {
            Some(i) => i < self.app.list.items.len(),
            None => true,
        }
    }

    /// A session over the storage tree at `base_url`, with the empty note
    /// under edit and an empty search query. A selection of `app` that
    /// points at no note is dropped.
    pub fn new(base_url: &str, app: App) -> (session: Session)
        ensures
            session.wf(),
            session@ == (SessionView {
                mode: app.input_mode,
                input: app.input@,
                items: note_views(app.list.items@),
                selected: spec_revalidated(app.list.selected_num, app.list.items@.len()),
                note: spec_fresh_note(base_url@),
                search: Seq::empty(),
                root: base_url@,
            }),
    {
        let mut app = app;
        if let Some(i) = app.list.get_selected_num() {
            if i >= app.list.items.len() {
                app.list.unselect();
            }
        }
        Session {
            app,
            note: fresh_note(base_url),
            search_text: String::new(),
            base_url: base_url.to_owned(),
        }
    }

    /// Puts the notes that a scan of the storage tree found in the place
    /// of the list. A selection that no longer points at a note is dropped.
    pub fn load_notes(&mut self, notes: Vec<Note>)
        ensures
            final(self).wf(),
            final(self)@ == (SessionView {
                items: note_views(notes@),
                selected: spec_revalidated(old(self)@.selected, notes@.len()),
                ..old(self)@
            }),
    {
        self.app.list.replace_items(notes);
    }

    /// Starts a new note: see [`spec_create`].
    pub fn create_note(&mut self)
        ensures
            final(self).wf(),
            final(self)@ == spec_create(old(self)@),
    {
        self.note = fresh_note(self.base_url.as_str());
        self.app.list.items.push(self.note.clone());
        let last: usize = self.app.list.items.len() - 1;
        self.app.list.set_selected_num(last);
        assert(note_views(self.app.list.items@) =~= old(self)@.items.push(
            spec_fresh_note(old(self)@.root),
        ));
    }

    /// Takes the selected note out of the list, once its file is gone, and
    /// selects a neighbour: see [`spec_remove_selected`].
    pub fn remove_selected(&mut self)
        requires
            old(self).wf(),
        ensures
            final(self).wf(),
            final(self)@ == spec_remove_selected(old(self)@),
    {
        if let Some(num) = self.app.list.get_selected_num() {
            self.app.list.delete(num);
            assert(note_views(self.app.list.items@) =~= old(self)@.items.remove(num as int));
            if self.app.list.items.len() == 0 {
                self.app.list.unselect();
                self.note = fresh_note(self.base_url.as_str());
            } else if num > 0 {
                self.app.list.set_selected_num(num - 1);
                self.note = self.app.list.items[num - 1].clone();
            } else {
                self.app.list.set_selected_num(0);
                self.note = fresh_note(self.base_url.as_str());
            }
        }
    }

    /// Ends the deletion of the selected note, given the outcome of
    /// removing its file: where the file is gone the note leaves the list
    /// as [`spec_remove_selected`] says, and where it could not be removed
    /// the session stays as it is.
    pub fn finish_delete(&mut self, removed: &Result<(), StoreError>)
        requires
            old(self).wf(),
        ensures
            final(self).wf(),
            final(self)@ == spec_finish_delete(old(self)@, *removed),
    {
        match removed {
            Ok(_) => {
                self.remove_selected();
            },
            Err(_) => {},
        }
    }

    /// Goes on with a save, given the outcome of removing the file that
    /// held the selected note. Where that file was removed or was not
    /// there, the note under edit is put, in its saved form, in the place
    /// of the selected entry, and is returned to be written. Where the file
    /// could not be removed, or nothing is selected, the session stays as it
    /// is and nothing is written.
    pub fn resume_save(&mut self, removed: &Result<(), StoreError>) -> (write: Option<Write>)
        requires
            old(self).wf(),
        ensures
            final(self).wf(),
            final(self)@ == spec_resume_save(old(self)@, *removed),
            write_view(write) == spec_write(old(self)@, *removed),
    {
        if !write_follows(removed) {
            return None;
        }
        match self.app.list.get_selected_num() {
            Some(index) => {
                let note = Note::new(
                    self.base_url.as_str(),
                    self.note.language.as_str(),
                    self.note.title.as_str(),
                    self.note.contents.as_str(),
                );
                let message = commit_message(self.note.language.as_str(), self.note.title.as_str());
                self.app.list.items.set(index, note.clone());
                assert(note_views(self.app.list.items@) =~= old(self)@.items.update(
                    index as int,
                    spec_saved_note(old(self)@),
                ));
                Some(Write { note, message })
            },
            None => None,
        }
    }

    /// Moves the selection one note forward and puts that note under
    /// edit. On an empty list it does nothing.
    pub fn select_next(&mut self)
        requires
            old(self).wf(),
        ensures
            final(self).wf(),
            final(self)@ == spec_select(
                old(self)@,
                spec_next_index(old(self)@.selected, old(self)@.items.len()),
            ),
    {
        if self.app.list.items.len() > 0 {
            self.app.list.next();
            if let Some(index) = self.app.list.get_selected_num() {
                self.note = self.app.list.items[index].clone();
            }
        }
    }

    /// Moves the selection one note back and puts that note under edit. On
    /// an empty list it does nothing.
    pub fn select_previous(&mut self)
        requires
            old(self).wf(),
        ensures
            final(self).wf(),
            final(self)@ == spec_select(
                old(self)@,
                spec_previous_index(old(self)@.selected, old(self)@.items.len()),
            ),
    {
        if self.app.list.items.len() > 0 {
            self.app.list.previous();
            if let Some(index) = self.app.list.get_selected_num() {
                self.note = self.app.list.items[index].clone();
            }
        }
    }

    /// Reacts to a key in `Normal` mode.
    fn normal_key(&mut self, key: &Key) -> (reaction: Reaction)
        requires
            old(self).wf(),
        ensures
            final(self).wf(),
            final(self)@ == spec_normal_key(old(self)@, *key).0,
            reaction@ == spec_normal_key(old(self)@, *key).1,
    {
        let mut action = Action::Nothing;
        match key.modifiers {
            Modifiers::Plain => match key.code {
                KeyCode::Enter | KeyCode::Tab => {
                    self.app.input_mode = self.app.input_mode.on_key(key);
                },
                KeyCode::Left => {
                    self.app.list.unselect();
                },
                KeyCode::Down => {
                    self.select_next();
                },
                KeyCode::Up => {
                    self.select_previous();
                },
                _ => {},
            },
            Modifiers::Control => match key.code {
                KeyCode::Char(c) => {
                    if c == 'q' {
                        action = Action::Quit;
                    } else if c == 'n' {
                        self.create_note();
                    } else if c == 'd' {
                        if let Some(num) = self.app.list.get_selected_num() {
                            action = Action::Delete(self.app.list.items[num].clone());
                        }
                    } else if c == 'c' {
                        if self.app.list.get_selected_num().is_some() {
                            action = Action::Copy(self.note.contents.clone());
                        }
                    } else if c == 's' {
                        if let Some(num) = self.app.list.get_selected_num() {
                            action = Action::Save(self.app.list.items[num].clone());
                        }
                    }
                },
                _ => {},
            },
            _ => {},
        }
        Reaction { action, rescan: false }
    }

    /// Reacts to a key while the search query is edited.
    fn search_key(&mut self, key: &Key) -> (reaction: Reaction)
        requires
            old(self).wf(),
        ensures
            final(self).wf(),
            final(self)@ == spec_search_key(old(self)@, *key).0,
            reaction@ == spec_search_key(old(self)@, *key).1,
    {
        let action = update_input_buffer(&mut self.app, &mut self.search_text, key);
        let is_enter = match key.modifiers {
            Modifiers::Plain => match key.code {
                KeyCode::Enter => true,
                _ => false,
            },
            _ => false,
        };
        let is_paste = match action {
            Action::Paste => true,
            _ => false,
        };
        if is_enter {
            self.app.list.filter_by_title(self.search_text.as_str());
            proof {
                lemma_retain_views(
                    old(self).app.list.items@,
                    spec_title_flags(old(self)@.items, self.search_text@),
                );
            }
        }
        let rescan = self.search_text.as_str().is_empty() && !is_paste;
        Reaction { action, rescan }
    }

    /// Reacts to a key: changes the state as the mode and the key ask, and
    /// returns what is left to do outside. The mode follows
    /// [`InputMode::spec_on_key`] in every state.
    pub fn handle_key(&mut self, key: &Key) -> (reaction: Reaction)
        requires
            old(self).wf(),
        ensures
            final(self).wf(),
            final(self)@ == spec_handle_key(old(self)@, *key).0,
            reaction@ == spec_handle_key(old(self)@, *key).1,
            final(self)@.mode == old(self)@.mode.spec_on_key(*key),
    {
        match self.app.input_mode {
            InputMode::Normal => self.normal_key(key),
            InputMode::EditingSearch => self.search_key(key),
            InputMode::EditingTitle => {
                let action = update_input_buffer(&mut self.app, &mut self.note.title, key);
                Reaction { action, rescan: false }
            },
            InputMode::EditingLanguage => {
                let action = update_input_buffer(&mut self.app, &mut self.note.language, key);
                Reaction { action, rescan: false }
            },
            InputMode::EditingCode => {
                let action = update_input_buffer(&mut self.app, &mut self.note.contents, key);
                match key.modifiers {
                    Modifiers::Plain => match key.code {
                        KeyCode::Enter => {
                            self.note.contents.push('\n');
                        },
                        _ => {},
                    },
                    _ => {},
                }
                Reaction { action, rescan: false }
            },
        }
    }

    /// Takes the clipboard's text in the place of the buffer that the mode
    /// edits. Returns whether the list of notes has to be read anew: it has
    /// where the search query was replaced by an empty text.
    pub fn paste(&mut self, text: &str) -> (rescan: bool)
        ensures
            final(self)@ == spec_paste(old(self)@, text@),
            final(self).wf() == old(self).wf(),
            rescan == (old(self)@.mode == InputMode::EditingSearch && text@.len() == 0),
    {
        match self.app.input_mode {
            InputMode::Normal => false,
            InputMode::EditingSearch => {
                self.search_text = text.to_owned();
                text.is_empty()
            },
            InputMode::EditingTitle => {
                self.note.title = text.to_owned();
                false
            },
            InputMode::EditingLanguage => {
                self.note.language = text.to_owned();
                false
            },
            InputMode::EditingCode => {
                self.note.contents = text.to_owned();
                false
            },
        }
    }
}

/// After the selected note left the list the selection points at a note
/// again: at the one before it, whose place in the list is unchanged and
/// which is put under edit; or, where the first note left, at the new first
/// note. Where the only note left, nothing is selected.
pub proof fn lemma_removal_repairs_selection(s: SessionView, i: usize)
    requires
        s.selected == Some(i),
        i < s.items.len(),
    ensures
        spec_wf(spec_remove_selected(s)),
        spec_remove_selected(s).items == s.items.remove(i as int),
        i > 0 ==> spec_remove_selected(s).selected == Some((i - 1) as usize),
        i > 0 ==> spec_remove_selected(s).items[i - 1] == s.items[i - 1],
        i > 0 ==> spec_remove_selected(s).note == s.items[i - 1],
        i == 0 && s.items.len() > 1 ==> spec_remove_selected(s).selected == Some(0usize),
        i == 0 && s.items.len() > 1 ==> spec_remove_selected(s).items[0] == s.items[1],
        s.items.len() == 1 ==> spec_remove_selected(s).selected.is_none(),
        s.items.len() == 1 ==> spec_remove_selected(s).items.len() == 0,
{
}

/// The notes that a session makes, the empty note and the saved form of
/// the note under edit, lie where their language and title put them under
/// the root.
pub proof fn lemma_made_notes_are_placed(s: SessionView)
    ensures
        spec_fresh_note(s.root).is_placed_under(s.root),
        spec_saved_note(s).is_placed_under(s.root),
{
}

/// Whatever the key, the selection of a well-formed session points at a
/// note afterwards, if there is one.
pub proof fn lemma_keys_keep_selection_valid(s: SessionView, key: Key)
    requires
        spec_wf(s),
    ensures
        spec_wf(spec_handle_key(s, key).0),
{
}

/// The mode after a key depends on the mode and the key alone, as
/// [`InputMode::spec_on_key`] says.
pub proof fn lemma_mode_follows_key(s: SessionView, key: Key)
    ensures
        spec_handle_key(s, key).0.mode == s.mode.spec_on_key(key),
{
}

/// While the query is edited, a key other than control-v asks for a fresh
/// scan exactly if it leaves the query empty, and filtering keeps no note
/// that was not in the list.
pub proof fn lemma_search_reset(s: SessionView, key: Key)
    requires
        s.mode == InputMode::EditingSearch,
        !key.is_control('v'),
    ensures
        spec_handle_key(s, key).1.rescan <==> spec_handle_key(s, key).0.search.len() == 0,
        spec_handle_key(s, key).0.items.len() <= s.items.len(),
        forall|k: int|
            0 <= k < spec_handle_key(s, key).0.items.len() ==> s.items.contains(
                #[trigger] spec_handle_key(s, key).0.items[k],
            ),
{
    lemma_retain_bounds(s.items, spec_title_flags(s.items, spec_edit(s.search, key)));
}

/// The values of the notes that are retained are the retained values.
pub proof fn lemma_retain_views(items: Seq<Note>, keep: Seq<bool>)
    ensures
        note_views(spec_retain(items, keep)) == spec_retain(note_views(items), keep),
{
    lemma_retain_views_from(items, keep, 0);
}

/// [`lemma_retain_views`] for the notes from `from` on.
proof fn lemma_retain_views_from(items: Seq<Note>, keep: Seq<bool>, from: int)
    requires
        0 <= from <= items.len(),
    ensures
        note_views(spec_retain_from(items, keep, from)) == spec_retain_from(
            note_views(items),
            keep,
            from,
        ),
    decreases items.len() - from,
{
    if from < items.len() {
        lemma_retain_views_from(items, keep, from + 1);
    }
    assert(note_views(spec_retain_from(items, keep, from)) =~= spec_retain_from(
        note_views(items),
        keep,
        from,
    ));
}

} // verus!
