use snipnote::key::{InputMode, Key, KeyCode, Modifiers};
use snipnote::list::StatefulList;
use snipnote::note::Note;
use snipnote::session::{fresh_note, update_input_buffer, Action, App, Reaction, Session};
use snipnote::store::{write_follows, StoreError};
use snipnote::sync::{sync_follows, SyncStep};

fn notes(titles: &[&str]) -> Vec<Note> {
    let mut notes = Vec::new();
    for title in titles {
        notes.push(Note::new("root", "text", title, title));
    }
    notes
}

fn session_with(titles: &[&str]) -> Session {
    let mut session = Session::new("root", App::default());
    session.load_notes(notes(titles));
    session
}

fn titles_of(session: &Session) -> Vec<String> {
    session.app.list.items.iter().map(|note| note.title.clone()).collect()
}

fn press(session: &mut Session, key: Key) -> Reaction {
    assert!(session.is_well_formed());
    let reaction = session.handle_key(&key);
    assert!(session.is_well_formed());
    reaction
}

fn type_text(session: &mut Session, text: &str) {
    for ch in text.chars() {
        let key = if ch == '\n' {
            Key::plain(KeyCode::Enter)
        } else if ch.is_uppercase() {
            Key::new(KeyCode::Char(ch), Modifiers::Shift)
        } else {
            Key::plain(KeyCode::Char(ch))
        };
        let reaction = press(session, key);
        assert!(matches!(reaction.action, Action::Nothing));
    }
}

fn is_quiet(reaction: &Reaction) -> bool {
    matches!(reaction.action, Action::Nothing) && !reaction.rescan
}

#[test]
fn default_app_is_empty_and_normal() {
    let app = App::default();
    assert_eq!(app.input, "");
    assert_eq!(app.input_mode, InputMode::Normal);
    assert!(app.list.items.is_empty());
    assert_eq!(app.list.get_selected_num(), None);
}

#[test]
fn new_session_edits_the_empty_note() {
    let session = Session::new("root", App::default());
    assert_eq!(session.base_url, "root");
    assert_eq!(session.search_text, "");
    assert_eq!(session.note.file_path, "root//.md");
    assert_eq!(session.note.title, "");
    assert_eq!(session.note.language, "");
    assert_eq!(session.note.contents, "");
    assert_eq!(session.app.input_mode, InputMode::Normal);
    assert!(session.is_well_formed());
}

#[test]
fn new_session_drops_a_selection_that_points_nowhere() {
    let mut list = StatefulList::with_items(notes(&["a", "b"]));
    list.set_selected_num(5);
    let app = App { input: String::new(), input_mode: InputMode::EditingCode, list };
    let session = Session::new("root", app);
    assert_eq!(session.app.list.get_selected_num(), None);
    assert_eq!(session.app.input_mode, InputMode::EditingCode);
    assert_eq!(titles_of(&session), vec!["a", "b"]);
}

#[test]
fn fresh_note_lies_under_the_root() {
    let note = fresh_note("some/root");
    assert_eq!(note.file_path, "some/root//.md");
    assert_eq!(note.title, "");
}

#[test]
fn buffer_takes_plain_and_shifted_characters() {
    let mut app = App::default();
    let mut buffer = String::from("ab");
    let action = update_input_buffer(&mut app, &mut buffer, &Key::plain(KeyCode::Char('c')));
    assert!(matches!(action, Action::Nothing));
    assert_eq!(buffer, "abc");
    update_input_buffer(&mut app, &mut buffer, &Key::new(KeyCode::Char('D'), Modifiers::Shift));
    assert_eq!(buffer, "abcD");
    update_input_buffer(&mut app, &mut buffer, &Key::new(KeyCode::Char('e'), Modifiers::Other));
    assert_eq!(buffer, "abcD");
    update_input_buffer(&mut app, &mut buffer, &Key::control('x'));
    assert_eq!(buffer, "abcD");
    assert_eq!(app.input_mode, InputMode::Normal);
}

#[test]
fn backspace_removes_the_last_character() {
    let mut app = App::default();
    let mut buffer = String::from("héé");
    update_input_buffer(&mut app, &mut buffer, &Key::plain(KeyCode::Backspace));
    assert_eq!(buffer, "hé");
    update_input_buffer(&mut app, &mut buffer, &Key::plain(KeyCode::Backspace));
    update_input_buffer(&mut app, &mut buffer, &Key::plain(KeyCode::Backspace));
    assert_eq!(buffer, "");
    update_input_buffer(&mut app, &mut buffer, &Key::plain(KeyCode::Backspace));
    assert_eq!(buffer, "");
    let mut buffer = String::from("ab");
    update_input_buffer(&mut app, &mut buffer, &Key::new(KeyCode::Backspace, Modifiers::Shift));
    assert_eq!(buffer, "ab");
}

#[test]
fn control_u_clears_the_buffer() {
    let mut app = App::default();
    let mut buffer = String::from("some text");
    let action = update_input_buffer(&mut app, &mut buffer, &Key::control('u'));
    assert!(matches!(action, Action::Nothing));
    assert_eq!(buffer, "");
}

#[test]
fn control_c_copies_the_buffer() {
    let mut app = App::default();
    let mut buffer = String::from("some text");
    let action = update_input_buffer(&mut app, &mut buffer, &Key::control('c'));
    assert!(matches!(action, Action::Copy(text) if text == "some text"));
    assert_eq!(buffer, "some text");
}

#[test]
fn control_v_asks_for_the_clipboard() {
    let mut app = App::default();
    let mut buffer = String::from("some text");
    let action = update_input_buffer(&mut app, &mut buffer, &Key::control('v'));
    assert!(matches!(action, Action::Paste));
    assert_eq!(buffer, "some text");
}

#[test]
fn enter_leaves_a_buffer_alone() {
    let mut app = App::default();
    app.input_mode = InputMode::EditingTitle;
    let mut buffer = String::from("title");
    let action = update_input_buffer(&mut app, &mut buffer, &Key::plain(KeyCode::Enter));
    assert!(matches!(action, Action::Nothing));
    assert_eq!(buffer, "title");
    assert_eq!(app.input_mode, InputMode::EditingTitle);
}

#[test]
fn tab_and_escape_move_the_mode_while_editing() {
    let mut app = App::default();
    app.input_mode = InputMode::EditingTitle;
    let mut buffer = String::from("title");
    update_input_buffer(&mut app, &mut buffer, &Key::plain(KeyCode::Tab));
    assert_eq!(app.input_mode, InputMode::EditingLanguage);
    update_input_buffer(&mut app, &mut buffer, &Key::plain(KeyCode::Esc));
    assert_eq!(app.input_mode, InputMode::Normal);
    assert_eq!(buffer, "title");
}

#[test]
fn normal_mode_quits_on_control_q() {
    let mut session = session_with(&["a"]);
    let reaction = press(&mut session, Key::control('q'));
    assert!(matches!(reaction.action, Action::Quit));
    assert!(!reaction.rescan);
}

#[test]
fn normal_mode_ignores_typing() {
    let mut session = session_with(&["a"]);
    let reaction = press(&mut session, Key::plain(KeyCode::Char('x')));
    assert!(is_quiet(&reaction));
    assert_eq!(session.note.title, "");
    assert_eq!(session.search_text, "");
    assert_eq!(session.app.input_mode, InputMode::Normal);
}

#[test]
fn create_appends_and_selects_an_empty_note() {
    let mut session = session_with(&["a", "b"]);
    session.note = Note::new("root", "go", "edited", "text");
    let reaction = press(&mut session, Key::control('n'));
    assert!(is_quiet(&reaction));
    assert_eq!(titles_of(&session), vec!["a", "b", ""]);
    assert_eq!(session.app.list.get_selected_num(), Some(2));
    assert_eq!(session.app.list.items[2].file_path, "root//.md");
    assert_eq!(session.note.title, "");
    assert_eq!(session.note.language, "");
    assert_eq!(session.note.contents, "");
    assert_eq!(session.note.file_path, "root//.md");
}

#[test]
fn arrows_move_the_selection_and_load_the_note() {
    let mut session = session_with(&["a", "b", "c"]);
    press(&mut session, Key::plain(KeyCode::Down));
    assert_eq!(session.app.list.get_selected_num(), Some(0));
    assert_eq!(session.note.title, "a");
    press(&mut session, Key::plain(KeyCode::Down));
    assert_eq!(session.app.list.get_selected_num(), Some(1));
    assert_eq!(session.note.title, "b");
    assert_eq!(session.note.file_path, "root/text/b.md");
    press(&mut session, Key::plain(KeyCode::Up));
    press(&mut session, Key::plain(KeyCode::Up));
    assert_eq!(session.app.list.get_selected_num(), Some(2));
    assert_eq!(session.note.title, "c");
    press(&mut session, Key::plain(KeyCode::Down));
    assert_eq!(session.app.list.get_selected_num(), Some(0));
    assert_eq!(session.note.title, "a");
}

#[test]
fn arrows_on_an_empty_list_do_nothing() {
    let mut session = session_with(&[]);
    let reaction = press(&mut session, Key::plain(KeyCode::Down));
    assert!(is_quiet(&reaction));
    assert_eq!(session.app.list.get_selected_num(), None);
    let reaction = press(&mut session, Key::plain(KeyCode::Up));
    assert!(is_quiet(&reaction));
    assert_eq!(session.app.list.get_selected_num(), None);
    assert_eq!(session.note.file_path, "root//.md");
}

#[test]
fn left_unselects() {
    let mut session = session_with(&["a", "b"]);
    press(&mut session, Key::plain(KeyCode::Down));
    let reaction = press(&mut session, Key::plain(KeyCode::Left));
    assert!(is_quiet(&reaction));
    assert_eq!(session.app.list.get_selected_num(), None);
    assert_eq!(titles_of(&session), vec!["a", "b"]);
    assert_eq!(session.note.title, "a");
}

#[test]
fn copy_in_normal_mode_takes_the_contents_under_edit() {
    let mut session = session_with(&["a", "b"]);
    let reaction = press(&mut session, Key::control('c'));
    assert!(is_quiet(&reaction));
    press(&mut session, Key::plain(KeyCode::Down));
    session.note.contents = String::from("edited contents");
    let reaction = press(&mut session, Key::control('c'));
    assert!(matches!(reaction.action, Action::Copy(text) if text == "edited contents"));
}

#[test]
fn delete_asks_for_the_file_to_be_removed_first() {
    let mut session = session_with(&["a", "b", "c"]);
    let reaction = press(&mut session, Key::control('d'));
    assert!(is_quiet(&reaction));
    session.app.list.set_selected_num(1);
    let reaction = press(&mut session, Key::control('d'));
    assert!(matches!(reaction.action, Action::Delete(note) if note.file_path == "root/text/b.md"));
    assert_eq!(titles_of(&session), vec!["a", "b", "c"]);
    assert_eq!(session.app.list.get_selected_num(), Some(1));
}

#[test]
fn deleting_the_last_of_three_selects_the_one_before() {
    let mut session = session_with(&["a", "b", "c"]);
    session.app.list.set_selected_num(2);
    let reaction = press(&mut session, Key::control('d'));
    assert!(matches!(reaction.action, Action::Delete(note) if note.title == "c"));
    session.finish_delete(&Ok(()));
    assert_eq!(titles_of(&session), vec!["a", "b"]);
    assert_eq!(session.app.list.get_selected_num(), Some(1));
    assert_eq!(session.app.list.items[1].file_path, "root/text/b.md");
    assert_eq!(session.note.title, "b");
    assert_eq!(session.note.file_path, "root/text/b.md");
}

#[test]
fn deleting_the_only_note_leaves_no_selection() {
    let mut session = session_with(&["a"]);
    session.app.list.set_selected_num(0);
    session.note = Note::new("root", "text", "a", "a");
    press(&mut session, Key::control('d'));
    session.finish_delete(&Ok(()));
    assert!(session.app.list.items.is_empty());
    assert_eq!(session.app.list.get_selected_num(), None);
    assert_eq!(session.note.title, "");
    assert_eq!(session.note.file_path, "root//.md");
    assert!(session.is_well_formed());
}

#[test]
fn deleting_the_first_note_selects_the_new_first() {
    let mut session = session_with(&["a", "b", "c"]);
    session.app.list.set_selected_num(0);
    session.note = Note::new("root", "text", "a", "a");
    session.remove_selected();
    assert_eq!(titles_of(&session), vec!["b", "c"]);
    assert_eq!(session.app.list.get_selected_num(), Some(0));
    assert_eq!(session.note.title, "");
    assert_eq!(session.note.file_path, "root//.md");
}

#[test]
fn deleting_a_middle_note_selects_the_one_before() {
    let mut session = session_with(&["a", "b", "c", "d"]);
    session.app.list.set_selected_num(2);
    session.remove_selected();
    assert_eq!(titles_of(&session), vec!["a", "b", "d"]);
    assert_eq!(session.app.list.get_selected_num(), Some(1));
    assert_eq!(session.note.title, "b");
}

#[test]
fn removing_without_a_selection_does_nothing() {
    let mut session = session_with(&["a", "b"]);
    session.remove_selected();
    assert_eq!(titles_of(&session), vec!["a", "b"]);
    assert_eq!(session.app.list.get_selected_num(), None);
}

#[test]
fn a_failed_removal_leaves_the_session_as_it_is() {
    let mut session = session_with(&["a", "b", "c"]);
    session.app.list.set_selected_num(2);
    session.note = Note::new("root", "text", "c", "edited");
    press(&mut session, Key::control('d'));
    session.finish_delete(&Err(StoreError::NotFound));
    assert_eq!(titles_of(&session), vec!["a", "b", "c"]);
    assert_eq!(session.app.list.get_selected_num(), Some(2));
    assert_eq!(session.note.contents, "edited");
    session.finish_delete(&Err(StoreError::Io));
    assert_eq!(titles_of(&session), vec!["a", "b", "c"]);
    assert_eq!(session.app.list.get_selected_num(), Some(2));
}

#[test]
fn save_without_a_selection_does_nothing() {
    let mut session = session_with(&["a", "b"]);
    session.note = Note::new("root", "go", "edited", "text");
    let reaction = press(&mut session, Key::control('s'));
    assert!(is_quiet(&reaction));
    assert!(session.resume_save(&Ok(())).is_none());
    assert_eq!(titles_of(&session), vec!["a", "b"]);
    assert_eq!(session.app.list.items[0].file_path, "root/text/a.md");
}

#[test]
fn save_asks_for_the_stored_file_to_be_removed_first() {
    let mut session = session_with(&["a", "b", "c"]);
    press(&mut session, Key::plain(KeyCode::Down));
    press(&mut session, Key::plain(KeyCode::Down));
    session.note.title = String::from("renamed");
    let reaction = press(&mut session, Key::control('s'));
    assert!(!reaction.rescan);
    assert!(matches!(reaction.action, Action::Save(previous)
        if previous.file_path == "root/text/b.md" && previous.title == "b"));
    assert_eq!(titles_of(&session), vec!["a", "b", "c"]);
    assert_eq!(session.app.list.items[1].file_path, "root/text/b.md");
}

#[test]
fn save_replaces_the_selected_entry() {
    let mut session = session_with(&["a", "b", "c"]);
    press(&mut session, Key::plain(KeyCode::Down));
    press(&mut session, Key::plain(KeyCode::Down));
    session.note.title = String::from("renamed");
    session.note.language = String::from("rust");
    session.note.contents = String::from("fn main() {}");
    press(&mut session, Key::control('s'));
    match session.resume_save(&Ok(())) {
        Some(write) => {
            assert_eq!(write.note.file_path, "root/rust/renamed.md");
            assert_eq!(write.note.title, "renamed");
            assert_eq!(write.note.language, "rust");
            assert_eq!(write.note.contents, "fn main() {}");
            assert_eq!(write.message, "update: rust, renamed");
        }
        None => panic!("saving a selected note gave nothing to write"),
    }
    assert_eq!(titles_of(&session), vec!["a", "renamed", "c"]);
    assert_eq!(session.app.list.items[1].file_path, "root/rust/renamed.md");
    assert_eq!(session.app.list.items[1].contents, "fn main() {}");
    assert_eq!(session.app.list.get_selected_num(), Some(1));
    assert_eq!(session.note.file_path, "root/text/b.md");
    assert!(session.is_well_formed());
}

#[test]
fn save_goes_on_when_there_was_no_stored_file() {
    let mut session = session_with(&["a"]);
    press(&mut session, Key::plain(KeyCode::Down));
    session.note.contents = String::from("new");
    let write = session.resume_save(&Err(StoreError::NotFound));
    assert!(matches!(write, Some(write)
        if write.note.file_path == "root/text/a.md" && write.note.contents == "new"));
    assert_eq!(session.app.list.items[0].contents, "new");
}

#[test]
fn save_stops_when_the_stored_file_cannot_be_removed() {
    for failure in [
        StoreError::Io,
        StoreError::AlreadyExists,
        StoreError::Deserialize,
        StoreError::InvalidPath,
    ] {
        let mut session = session_with(&["a", "b"]);
        press(&mut session, Key::plain(KeyCode::Down));
        session.note.contents = String::from("new");
        assert!(session.resume_save(&Err(failure)).is_none());
        assert_eq!(titles_of(&session), vec!["a", "b"]);
        assert_eq!(session.app.list.items[0].contents, "a");
        assert_eq!(session.note.contents, "new");
        assert_eq!(session.app.list.get_selected_num(), Some(0));
    }
}

#[test]
fn editing_modes_target_their_own_buffer() {
    let mut session = session_with(&[]);
    press(&mut session, Key::plain(KeyCode::Tab));
    assert_eq!(session.app.input_mode, InputMode::EditingSearch);
    session.search_text = String::from("q");
    type_text(&mut session, "s");
    press(&mut session, Key::plain(KeyCode::Tab));
    assert_eq!(session.app.input_mode, InputMode::EditingTitle);
    type_text(&mut session, "t");
    press(&mut session, Key::plain(KeyCode::Tab));
    assert_eq!(session.app.input_mode, InputMode::EditingLanguage);
    type_text(&mut session, "l");
    press(&mut session, Key::plain(KeyCode::Tab));
    assert_eq!(session.app.input_mode, InputMode::EditingCode);
    type_text(&mut session, "c");
    press(&mut session, Key::plain(KeyCode::Tab));
    assert_eq!(session.app.input_mode, InputMode::Normal);
    assert_eq!(session.search_text, "qs");
    assert_eq!(session.note.title, "t");
    assert_eq!(session.note.language, "l");
    assert_eq!(session.note.contents, "c");
    assert_eq!(session.app.input, "");
}

#[test]
fn enter_breaks_the_line_in_the_contents_only() {
    let mut session = session_with(&[]);
    session.app.input_mode = InputMode::EditingCode;
    type_text(&mut session, "a\nb");
    assert_eq!(session.note.contents, "a\nb");
    assert_eq!(session.app.input_mode, InputMode::EditingCode);
    let reaction = press(&mut session, Key::new(KeyCode::Enter, Modifiers::Shift));
    assert!(is_quiet(&reaction));
    assert_eq!(session.note.contents, "a\nb");
    session.app.input_mode = InputMode::EditingTitle;
    press(&mut session, Key::plain(KeyCode::Enter));
    assert_eq!(session.note.title, "");
    assert_eq!(session.app.input_mode, InputMode::EditingTitle);
    session.app.input_mode = InputMode::EditingLanguage;
    press(&mut session, Key::plain(KeyCode::Enter));
    assert_eq!(session.note.language, "");
}

#[test]
fn copy_while_editing_takes_the_active_buffer() {
    let mut session = session_with(&[]);
    session.note = Note::new("root", "the language", "the title", "the contents");
    session.app.input_mode = InputMode::EditingTitle;
    let reaction = press(&mut session, Key::control('c'));
    assert!(matches!(reaction.action, Action::Copy(text) if text == "the title"));
    session.app.input_mode = InputMode::EditingLanguage;
    let reaction = press(&mut session, Key::control('c'));
    assert!(matches!(reaction.action, Action::Copy(text) if text == "the language"));
    session.app.input_mode = InputMode::EditingCode;
    let reaction = press(&mut session, Key::control('c'));
    assert!(matches!(reaction.action, Action::Copy(text) if text == "the contents"));
    session.app.input_mode = InputMode::EditingSearch;
    session.search_text = String::from("the query");
    let reaction = press(&mut session, Key::control('c'));
    assert!(matches!(reaction.action, Action::Copy(text) if text == "the query"));
    assert!(!reaction.rescan);
}

#[test]
fn paste_replaces_the_active_buffer() {
    let mut session = session_with(&[]);
    session.note = Note::new("root", "the language", "the title", "the contents");
    session.app.input_mode = InputMode::EditingTitle;
    let reaction = press(&mut session, Key::control('v'));
    assert!(matches!(reaction.action, Action::Paste));
    assert_eq!(session.note.title, "the title");
    assert!(!session.paste("pasted"));
    assert_eq!(session.note.title, "pasted");
    session.app.input_mode = InputMode::EditingLanguage;
    assert!(!session.paste(""));
    assert_eq!(session.note.language, "");
    session.app.input_mode = InputMode::EditingCode;
    assert!(!session.paste("code"));
    assert_eq!(session.note.contents, "code");
    session.app.input_mode = InputMode::Normal;
    assert!(!session.paste("ignored"));
    assert_eq!(session.note.title, "pasted");
    assert_eq!(session.note.contents, "code");
    assert_eq!(session.search_text, "");
}

#[test]
fn paste_into_the_query_rescans_when_it_is_empty() {
    let mut session = session_with(&["a"]);
    session.app.input_mode = InputMode::EditingSearch;
    session.search_text = String::from("old");
    assert!(!session.paste("new"));
    assert_eq!(session.search_text, "new");
    let reaction = press(&mut session, Key::control('v'));
    assert!(matches!(reaction.action, Action::Paste));
    assert!(!reaction.rescan);
    assert!(session.paste(""));
    assert_eq!(session.search_text, "");
}

#[test]
fn control_v_on_an_empty_query_waits_for_the_clipboard() {
    let mut session = session_with(&["a"]);
    session.app.input_mode = InputMode::EditingSearch;
    let reaction = press(&mut session, Key::control('v'));
    assert!(matches!(reaction.action, Action::Paste));
    assert!(!reaction.rescan);
}

#[test]
fn every_key_on_an_empty_query_rescans() {
    for key in [
        Key::plain(KeyCode::Enter),
        Key::plain(KeyCode::Tab),
        Key::plain(KeyCode::Esc),
        Key::plain(KeyCode::Backspace),
        Key::plain(KeyCode::Left),
        Key::control('u'),
        Key::control('q'),
    ] {
        let mut session = session_with(&["a", "b"]);
        session.app.input_mode = InputMode::EditingSearch;
        let reaction = press(&mut session, key);
        assert!(matches!(reaction.action, Action::Nothing));
        assert!(reaction.rescan);
    }
    let mut session = session_with(&["a", "b"]);
    session.app.input_mode = InputMode::EditingSearch;
    let reaction = press(&mut session, Key::control('c'));
    assert!(matches!(reaction.action, Action::Copy(text) if text.is_empty()));
    assert!(reaction.rescan);
    let reaction = press(&mut session, Key::plain(KeyCode::Char('a')));
    assert!(is_quiet(&reaction));
}

#[test]
fn enter_filters_the_list_by_the_query() {
    let mut session = session_with(&["binary search", "hello", "bubble sort"]);
    press(&mut session, Key::plain(KeyCode::Tab));
    type_text(&mut session, "bs");
    assert_eq!(titles_of(&session).len(), 3);
    let reaction = press(&mut session, Key::plain(KeyCode::Enter));
    assert!(is_quiet(&reaction));
    assert_eq!(titles_of(&session), vec!["binary search", "bubble sort"]);
    assert_eq!(session.search_text, "bs");
    assert_eq!(session.app.input_mode, InputMode::EditingSearch);
}

#[test]
fn filtering_drops_a_selection_that_no_longer_fits() {
    let mut session = session_with(&["alpha", "beta", "gamma"]);
    session.app.list.set_selected_num(2);
    session.app.input_mode = InputMode::EditingSearch;
    type_text(&mut session, "al");
    assert_eq!(session.app.list.get_selected_num(), Some(2));
    press(&mut session, Key::plain(KeyCode::Enter));
    assert_eq!(titles_of(&session), vec!["alpha"]);
    assert_eq!(session.app.list.get_selected_num(), None);
}

#[test]
fn clearing_the_query_restores_the_notes_by_a_rescan() {
    let stored = ["alpha", "beta", "gamma", "delta", "epsilon"];
    let mut session = session_with(&stored);
    press(&mut session, Key::plain(KeyCode::Tab));
    type_text(&mut session, "gam");
    let reaction = press(&mut session, Key::plain(KeyCode::Enter));
    assert!(!reaction.rescan);
    assert_eq!(titles_of(&session), vec!["gamma"]);
    let mut rescans = 0;
    for _ in 0..3 {
        let reaction = press(&mut session, Key::plain(KeyCode::Backspace));
        assert_eq!(titles_of(&session), vec!["gamma"]);
        if reaction.rescan {
            rescans += 1;
        }
    }
    assert_eq!(rescans, 1);
    assert_eq!(session.search_text, "");
    let mut on_disk = notes(&stored);
    on_disk[1].contents = String::from("changed on disk");
    session.load_notes(on_disk);
    assert_eq!(titles_of(&session), vec!["alpha", "beta", "gamma", "delta", "epsilon"]);
    assert_eq!(session.app.list.items[1].contents, "changed on disk");
}

#[test]
fn load_notes_revalidates_the_selection() {
    let mut session = session_with(&["a", "b", "c"]);
    session.app.list.set_selected_num(2);
    session.load_notes(notes(&["x", "y"]));
    assert_eq!(session.app.list.get_selected_num(), None);
    session.app.list.set_selected_num(1);
    session.load_notes(notes(&["p", "q", "r"]));
    assert_eq!(session.app.list.get_selected_num(), Some(1));
    assert_eq!(titles_of(&session), vec!["p", "q", "r"]);
}

#[test]
fn well_formedness_is_about_the_selection() {
    let mut session = session_with(&["a", "b"]);
    assert!(session.is_well_formed());
    session.app.list.set_selected_num(1);
    assert!(session.is_well_formed());
    session.app.list.set_selected_num(2);
    assert!(!session.is_well_formed());
}

#[test]
fn create_edit_and_save_a_note() {
    let mut session = Session::new("root", App::default());
    session.load_notes(Vec::new());
    press(&mut session, Key::control('n'));
    assert_eq!(session.app.list.get_selected_num(), Some(0));
    press(&mut session, Key::plain(KeyCode::Enter));
    assert_eq!(session.app.input_mode, InputMode::EditingTitle);
    type_text(&mut session, "demo");
    press(&mut session, Key::plain(KeyCode::Tab));
    assert_eq!(session.app.input_mode, InputMode::EditingLanguage);
    type_text(&mut session, "go");
    press(&mut session, Key::plain(KeyCode::Tab));
    assert_eq!(session.app.input_mode, InputMode::EditingCode);
    type_text(&mut session, "fmt.Println");
    press(&mut session, Key::plain(KeyCode::Esc));
    assert_eq!(session.app.input_mode, InputMode::Normal);
    let reaction = press(&mut session, Key::control('s'));
    assert!(matches!(reaction.action, Action::Save(previous) if previous.file_path == "root//.md"));
    let removed = Err(StoreError::NotFound);
    assert!(write_follows(&removed));
    match session.resume_save(&removed) {
        Some(write) => {
            assert_eq!(write.note.file_path, "root/go/demo.md");
            assert_eq!(write.note.language, "go");
            assert_eq!(write.note.title, "demo");
            assert_eq!(write.note.contents, "fmt.Println");
            assert_eq!(write.message, "update: go, demo");
            let steps = sync_follows(&Ok(write.note.file_path.clone()), write.message);
            assert_eq!(steps.len(), 3);
            assert!(matches!(&steps[1], SyncStep::Commit(text) if text == "update: go, demo"));
            assert_eq!(
                steps[1].arguments("root"),
                vec!["-C", "root", "commit", "-m", "update: go, demo"]
            );
        }
        None => panic!("saving the new note gave nothing to write"),
    }
    assert_eq!(session.app.list.items.len(), 1);
    assert_eq!(session.app.list.items[0].file_path, "root/go/demo.md");
    assert_eq!(session.app.list.items[0].contents, "fmt.Println");
}
