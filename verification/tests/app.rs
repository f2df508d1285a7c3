use termnotes::app::{editor_rows, App, Effect, Focus, Key, KeyPress, Modifiers};

const ROWS: usize = 10;

fn strs(v: &[&str]) -> Vec<String> {
    v.iter().map(|s| s.to_string()).collect()
}

fn plain(key: Key) -> KeyPress {
    KeyPress { key, modifiers: Modifiers::Plain }
}

fn ctrl(c: char) -> KeyPress {
    KeyPress { key: Key::Char(c), modifiers: Modifiers::Control }
}

fn load(path: &str) -> Effect {
    Effect::Load { path: path.to_string() }
}

fn save(path: &str, text: &str) -> Effect {
    Effect::Save { path: path.to_string(), text: text.to_string() }
}

fn create(name: &str) -> Effect {
    Effect::Create { name: name.to_string() }
}

fn press(app: &mut App, key: Key) -> Effect {
    app.handle_key(plain(key), ROWS)
}

fn type_text(app: &mut App, text: &str) {
    for c in text.chars() {
        assert_eq!(press(app, Key::Char(c)), Effect::Nothing);
    }
}

fn app_with(entries: &[&str]) -> App {
    let mut app = App::new("notes".to_string());
    app.rescan(&strs(entries));
    app
}

fn lines_of(app: &App) -> Vec<String> {
    let b = app.buffer();
    (0..b.line_count()).map(|i| b.line(i).unwrap()).collect()
}

fn paths_of(app: &App) -> Vec<String> {
    let index = app.index();
    (0..index.len()).map(|i| index.path(i).unwrap()).collect()
}

fn cursor(app: &App) -> (usize, usize) {
    (app.buffer().row(), app.buffer().col())
}

fn editor_with(text: &str, row: usize, col: usize) -> App {
    let mut app = app_with(&["a.md"]);
    app.load_content(text.to_string());
    assert_eq!(press(&mut app, Key::Tab), Effect::Nothing);
    assert_eq!(app.focus(), Focus::Editor);
    for _ in 0..row {
        press(&mut app, Key::Down);
    }
    for _ in 0..col {
        press(&mut app, Key::Right);
    }
    assert_eq!(cursor(&app), (row, col));
    app
}

#[test]
fn new_app_starts_in_the_file_pane() {
    let app = App::new("./notes".to_string());
    assert_eq!(app.focus(), Focus::Files);
    assert_eq!(app.notes_dir(), "./notes");
    assert_eq!(app.status(), "Ready");
    assert_eq!(app.index().len(), 0);
    assert_eq!(app.index().selected(), 0);
    assert_eq!(lines_of(&app), vec![""]);
    assert_eq!(cursor(&app), (0, 0));
    assert_eq!(app.buffer().scroll(), 0);
    assert_eq!(app.new_note_input(), "");
    assert_eq!(app.search().query(), "");
    assert_eq!(app.search().results(), Vec::<usize>::new());
    assert_eq!(app.search().selected(), 0);
}

#[test]
fn current_file_name_is_a_dash_without_notes() {
    let app = App::new("notes".to_string());
    assert_eq!(app.current_file_name(), "-");
    assert_eq!(app.current_file(), None);
}

#[test]
fn current_file_name_is_the_final_component() {
    let mut app = app_with(&["./notes/b.md", "./notes/a.md"]);
    assert_eq!(app.current_file_name(), "a.md");
    assert_eq!(app.current_file(), Some("./notes/a.md".to_string()));
    press(&mut app, Key::Down);
    assert_eq!(app.current_file_name(), "b.md");
}

#[test]
fn load_content_splits_lines_and_resets_the_cursor() {
    let mut app = editor_with("one\ntwo", 1, 2);
    app.load_content("abc\ndef\n".to_string());
    assert_eq!(lines_of(&app), vec!["abc", "def", ""]);
    assert_eq!(cursor(&app), (0, 0));
    assert_eq!(app.buffer().scroll(), 0);
    assert_eq!(app.focus(), Focus::Editor);
}

#[test]
fn load_content_of_empty_text_is_one_empty_line() {
    let mut app = App::new("notes".to_string());
    app.load_content("x".to_string());
    app.load_content(String::new());
    assert_eq!(lines_of(&app), vec![""]);
    assert_eq!(cursor(&app), (0, 0));
}

#[test]
fn content_as_string_joins_the_lines() {
    let mut app = App::new("notes".to_string());
    assert_eq!(app.content_as_string(), "");
    app.load_content("abc\ndef".to_string());
    assert_eq!(app.content_as_string(), "abc\ndef");
    app.load_content("abc\r\ndef\r\n".to_string());
    assert_eq!(app.content_as_string(), "abc\r\ndef\r\n");
}

#[test]
fn load_content_starts_a_line_after_a_final_line_feed() {
    let mut app = App::new("notes".to_string());
    app.load_content("a\n".to_string());
    assert_eq!(lines_of(&app), vec!["a", ""]);
    assert_eq!(app.content_as_string(), "a\n");
}

#[test]
fn content_round_trip() {
    let lists: [&[&str]; 5] =
        [&[], &["first", "", "third line", "x"], &["a", ""], &["a\r", "b"], &["", "", ""]];
    for lines in lists {
        let text = lines.join("\n");
        let mut app = App::new("notes".to_string());
        app.load_content(text.clone());
        assert_eq!(app.content_as_string(), text, "lines {:?}", lines);
    }
}

#[test]
fn quit_ends_the_session_from_every_focus() {
    let ways = [
        vec![],
        vec![plain(Key::Tab)],
        vec![ctrl('h')],
        vec![plain(Key::Char('n'))],
        vec![ctrl('p')],
    ];
    for focus_keys in ways {
        let mut app = app_with(&["a.md"]);
        for k in focus_keys {
            app.handle_key(k, ROWS);
        }
        let focus = app.focus();
        assert_eq!(app.handle_key(ctrl('q'), ROWS), Effect::Quit);
        assert_eq!(app.focus(), focus);
    }
}

#[test]
fn plain_q_does_not_quit() {
    let mut app = editor_with("", 0, 0);
    assert_eq!(press(&mut app, Key::Char('q')), Effect::Nothing);
    assert_eq!(lines_of(&app), vec!["q"]);
}

#[test]
fn help_toggle_opens_help_from_every_focus_and_returns_to_files() {
    let ways = [vec![], vec![plain(Key::Tab)], vec![plain(Key::Char('n'))], vec![ctrl('p')]];
    for focus_keys in ways {
        let mut app = app_with(&["a.md"]);
        for k in focus_keys {
            app.handle_key(k, ROWS);
        }
        assert_eq!(app.handle_key(ctrl('h'), ROWS), Effect::Nothing);
        assert_eq!(app.focus(), Focus::Help);
        assert_eq!(app.handle_key(ctrl('h'), ROWS), Effect::Nothing);
        assert_eq!(app.focus(), Focus::Files);
    }
}

#[test]
fn help_closes_on_escape_and_ignores_other_keys() {
    let mut app = app_with(&["a.md", "b.md"]);
    app.handle_key(ctrl('h'), ROWS);
    assert_eq!(press(&mut app, Key::Down), Effect::Nothing);
    assert_eq!(press(&mut app, Key::Char('n')), Effect::Nothing);
    assert_eq!(press(&mut app, Key::Enter), Effect::Nothing);
    assert_eq!(app.focus(), Focus::Help);
    assert_eq!(app.index().selected(), 0);
    assert_eq!(press(&mut app, Key::Esc), Effect::Nothing);
    assert_eq!(app.focus(), Focus::Files);
}

#[test]
fn tab_toggles_between_the_panes() {
    let mut app = app_with(&["a.md"]);
    assert_eq!(press(&mut app, Key::Tab), Effect::Nothing);
    assert_eq!(app.focus(), Focus::Editor);
    assert_eq!(press(&mut app, Key::Tab), Effect::Nothing);
    assert_eq!(app.focus(), Focus::Files);
}

#[test]
fn tab_is_a_no_op_in_popups() {
    for open in [ctrl('h'), plain(Key::Char('n')), ctrl('p')] {
        let mut app = app_with(&["a.md"]);
        app.handle_key(open, ROWS);
        let focus = app.focus();
        assert_eq!(press(&mut app, Key::Tab), Effect::Nothing);
        assert_eq!(app.focus(), focus);
        assert_eq!(app.new_note_input(), "");
        assert_eq!(app.search().query(), "");
    }
}

#[test]
fn files_down_and_up_move_the_selection_and_load() {
    let mut app = app_with(&["n/a.md", "n/b.md", "n/c.md"]);
    assert_eq!(press(&mut app, Key::Down), load("n/b.md"));
    assert_eq!(app.index().selected(), 1);
    assert_eq!(press(&mut app, Key::Down), load("n/c.md"));
    assert_eq!(press(&mut app, Key::Down), Effect::Nothing);
    assert_eq!(app.index().selected(), 2);
    assert_eq!(press(&mut app, Key::Up), load("n/b.md"));
    assert_eq!(press(&mut app, Key::Up), load("n/a.md"));
    assert_eq!(press(&mut app, Key::Up), Effect::Nothing);
    assert_eq!(app.index().selected(), 0);
    assert_eq!(app.focus(), Focus::Files);
}

#[test]
fn files_navigation_on_an_empty_index_is_a_no_op() {
    let mut app = App::new("notes".to_string());
    assert_eq!(press(&mut app, Key::Up), Effect::Nothing);
    assert_eq!(press(&mut app, Key::Down), Effect::Nothing);
    assert_eq!(press(&mut app, Key::Enter), Effect::Nothing);
    assert_eq!(app.focus(), Focus::Files);
    assert_eq!(app.index().selected(), 0);
}

#[test]
fn files_enter_opens_the_selected_note_in_the_editor() {
    let mut app = app_with(&["n/a.md", "n/b.md"]);
    press(&mut app, Key::Down);
    assert_eq!(press(&mut app, Key::Enter), load("n/b.md"));
    assert_eq!(app.focus(), Focus::Editor);
    app.load_content("text of b".to_string());
    assert_eq!(lines_of(&app), vec!["text of b"]);
}

#[test]
fn files_ignores_typed_characters_but_n() {
    let mut app = app_with(&["a.md"]);
    type_text(&mut app, "xyz");
    assert_eq!(app.focus(), Focus::Files);
    assert_eq!(lines_of(&app), vec![""]);
    assert_eq!(press(&mut app, Key::Backspace), Effect::Nothing);
    assert_eq!(press(&mut app, Key::Other), Effect::Nothing);
    assert_eq!(app.focus(), Focus::Files);
}

#[test]
fn new_note_key_opens_the_popup_with_an_empty_name() {
    let mut app = app_with(&["a.md"]);
    press(&mut app, Key::Char('n'));
    assert_eq!(app.focus(), Focus::NewNote);
    type_text(&mut app, "draft");
    assert_eq!(app.new_note_input(), "draft");
    press(&mut app, Key::Esc);
    assert_eq!(app.focus(), Focus::Files);
    assert_eq!(app.new_note_input(), "");
    press(&mut app, Key::Char('n'));
    assert_eq!(app.new_note_input(), "");
}

#[test]
fn new_note_typing_and_backspace_edit_the_name() {
    let mut app = app_with(&[]);
    press(&mut app, Key::Char('n'));
    type_text(&mut app, "noon");
    assert_eq!(app.new_note_input(), "noon");
    press(&mut app, Key::Backspace);
    assert_eq!(app.new_note_input(), "noo");
    for _ in 0..5 {
        press(&mut app, Key::Backspace);
    }
    assert_eq!(app.new_note_input(), "");
    assert_eq!(app.focus(), Focus::NewNote);
}

#[test]
fn new_note_ignores_characters_typed_with_modifiers() {
    let mut app = app_with(&[]);
    press(&mut app, Key::Char('n'));
    app.handle_key(KeyPress { key: Key::Char('x'), modifiers: Modifiers::Other }, ROWS);
    app.handle_key(KeyPress { key: Key::Char('x'), modifiers: Modifiers::Control }, ROWS);
    assert_eq!(app.new_note_input(), "");
}

#[test]
fn new_note_enter_asks_for_the_file_with_the_extension() {
    let mut app = app_with(&["a.md"]);
    press(&mut app, Key::Char('n'));
    type_text(&mut app, "foo");
    assert_eq!(press(&mut app, Key::Enter), create("foo.md"));
    let mut app = app_with(&["a.md"]);
    press(&mut app, Key::Char('n'));
    type_text(&mut app, "bar.md");
    assert_eq!(press(&mut app, Key::Enter), create("bar.md"));
}

#[test]
fn create_new_note_foo() {
    let mut app = app_with(&["a.md"]);
    app.load_content("text of a".to_string());
    press(&mut app, Key::Char('n'));
    type_text(&mut app, "foo");
    assert_eq!(press(&mut app, Key::Enter), create("foo.md"));
    app.note_created("foo.md", &strs(&["a.md", "foo.md"]));
    assert_eq!(paths_of(&app), strs(&["a.md", "foo.md"]));
    assert_eq!(app.index().selected(), 1);
    assert_eq!(lines_of(&app), vec![""]);
    assert_eq!(cursor(&app), (0, 0));
    assert_eq!(app.focus(), Focus::Editor);
    assert_eq!(app.new_note_input(), "");
    assert_eq!(app.status(), "Created");
}

#[test]
fn created_note_is_selected_where_it_does_not_sort_last() {
    let mut app = app_with(&["n/b.md", "n/c.md"]);
    press(&mut app, Key::Char('n'));
    type_text(&mut app, "a");
    assert_eq!(press(&mut app, Key::Enter), create("a.md"));
    app.note_created("n/a.md", &strs(&["n/c.md", "n/a.md", "n/b.md"]));
    assert_eq!(paths_of(&app), strs(&["n/a.md", "n/b.md", "n/c.md"]));
    assert_eq!(app.index().selected(), 0);
    assert_eq!(app.current_file_name(), "a.md");
}

#[test]
fn created_note_that_is_not_listed_selects_the_last_note() {
    let mut app = app_with(&["n/a.md", "n/b.md"]);
    app.note_created("n/.md", &strs(&["n/a.md", "n/b.md", "n/.md"]));
    assert_eq!(paths_of(&app), strs(&["n/a.md", "n/b.md"]));
    assert_eq!(app.index().selected(), 1);
    assert_eq!(app.status(), "Ready");
    let mut empty = App::new("n".to_string());
    empty.note_created("n/x.md", &Vec::new());
    assert_eq!(empty.index().selected(), 0);
    assert_eq!(empty.focus(), Focus::Editor);
}

#[test]
fn search_key_opens_the_search_with_all_notes() {
    let mut app = app_with(&["a.md", "b.md", "c.md"]);
    assert_eq!(app.handle_key(ctrl('p'), ROWS), Effect::Nothing);
    assert_eq!(app.focus(), Focus::Search);
    assert_eq!(app.search().query(), "");
    assert_eq!(app.search().results(), vec![0, 1, 2]);
    assert_eq!(app.search().selected(), 0);
}

#[test]
fn search_key_works_from_the_editor() {
    let mut app = editor_with("text", 0, 2);
    app.handle_key(ctrl('p'), ROWS);
    assert_eq!(app.focus(), Focus::Search);
    assert_eq!(lines_of(&app), vec!["text"]);
}

#[test]
fn search_filters_after_every_key() {
    let mut app = app_with(&["a.md", "b.md", "c.md"]);
    app.handle_key(ctrl('p'), ROWS);
    press(&mut app, Key::Char('b'));
    assert_eq!(app.search().query(), "b");
    assert_eq!(app.search().results(), vec![1]);
    press(&mut app, Key::Char('x'));
    assert_eq!(app.search().results(), Vec::<usize>::new());
    press(&mut app, Key::Backspace);
    assert_eq!(app.search().results(), vec![1]);
    press(&mut app, Key::Backspace);
    assert_eq!(app.search().results(), vec![0, 1, 2]);
    press(&mut app, Key::Backspace);
    assert_eq!(app.search().query(), "");
}

#[test]
fn search_selection_moves_and_is_clamped() {
    let mut app = app_with(&["a.md", "ab.md", "b.md"]);
    app.handle_key(ctrl('p'), ROWS);
    press(&mut app, Key::Down);
    press(&mut app, Key::Down);
    press(&mut app, Key::Down);
    assert_eq!(app.search().selected(), 2);
    press(&mut app, Key::Char('a'));
    assert_eq!(app.search().results(), vec![0, 1]);
    assert_eq!(app.search().selected(), 1);
    press(&mut app, Key::Up);
    press(&mut app, Key::Up);
    assert_eq!(app.search().selected(), 0);
    assert_eq!(app.index().selected(), 0);
}

#[test]
fn search_enter_opens_the_selected_result() {
    let mut app = app_with(&["n/a.md", "n/b.md", "n/c.md"]);
    app.handle_key(ctrl('p'), ROWS);
    press(&mut app, Key::Char('c'));
    assert_eq!(press(&mut app, Key::Enter), load("n/c.md"));
    assert_eq!(app.index().selected(), 2);
    assert_eq!(app.focus(), Focus::Editor);
}

#[test]
fn search_enter_without_results_is_a_no_op() {
    let mut app = app_with(&["a.md", "b.md"]);
    press(&mut app, Key::Down);
    app.handle_key(ctrl('p'), ROWS);
    type_text(&mut app, "zz");
    assert_eq!(press(&mut app, Key::Enter), Effect::Nothing);
    assert_eq!(app.focus(), Focus::Search);
    assert_eq!(app.index().selected(), 1);
    let mut empty = App::new("notes".to_string());
    empty.handle_key(ctrl('p'), ROWS);
    assert_eq!(press(&mut empty, Key::Enter), Effect::Nothing);
    assert_eq!(empty.focus(), Focus::Search);
}

#[test]
fn search_escape_discards_the_query() {
    let mut app = app_with(&["a.md", "b.md"]);
    app.handle_key(ctrl('p'), ROWS);
    type_text(&mut app, "b");
    assert_eq!(press(&mut app, Key::Esc), Effect::Nothing);
    assert_eq!(app.focus(), Focus::Files);
    assert_eq!(app.search().query(), "");
    assert_eq!(app.search().results(), vec![0, 1]);
    assert_eq!(app.index().selected(), 0);
}

#[test]
fn save_hands_out_path_and_text_and_keeps_the_focus() {
    let mut app = editor_with("abc", 0, 3);
    press(&mut app, Key::Enter);
    type_text(&mut app, "def");
    assert_eq!(
        app.handle_key(ctrl('s'), ROWS),
        save("a.md", "abc\ndef")
    );
    assert_eq!(app.focus(), Focus::Editor);
    assert_eq!(cursor(&app), (1, 3));
    press(&mut app, Key::Tab);
    assert_eq!(
        app.handle_key(ctrl('s'), ROWS),
        save("a.md", "abc\ndef")
    );
    assert_eq!(app.focus(), Focus::Files);
}

#[test]
fn save_without_notes_is_a_no_op() {
    let mut app = App::new("notes".to_string());
    press(&mut app, Key::Tab);
    type_text(&mut app, "lost");
    assert_eq!(app.handle_key(ctrl('s'), ROWS), Effect::Nothing);
    assert_eq!(lines_of(&app), vec!["lost"]);
}

#[test]
fn global_chords_come_before_the_focused_pane() {
    let mut app = editor_with("", 0, 0);
    app.handle_key(ctrl('s'), ROWS);
    app.handle_key(ctrl('q'), ROWS);
    assert_eq!(lines_of(&app), vec![""]);
    let mut app = app_with(&["a.md"]);
    press(&mut app, Key::Char('n'));
    app.handle_key(ctrl('p'), ROWS);
    assert_eq!(app.focus(), Focus::Search);
    assert_eq!(app.new_note_input(), "");
}

#[test]
fn editor_enter_at_end_of_first_line() {
    let mut app = editor_with("abc\ndef", 0, 3);
    assert_eq!(press(&mut app, Key::Enter), Effect::Nothing);
    assert_eq!(lines_of(&app), vec!["abc", "", "def"]);
    assert_eq!(cursor(&app), (1, 0));
}

#[test]
fn editor_backspace_at_start_of_second_line() {
    let mut app = editor_with("ab\ncd", 1, 0);
    assert_eq!(press(&mut app, Key::Backspace), Effect::Nothing);
    assert_eq!(lines_of(&app), vec!["abcd"]);
    assert_eq!(cursor(&app), (0, 2));
}

#[test]
fn editor_enter_then_backspace_restores_lines_and_cursor() {
    let mut app = editor_with("hello world\nsecond", 0, 5);
    press(&mut app, Key::Enter);
    assert_eq!(lines_of(&app), vec!["hello", " world", "second"]);
    press(&mut app, Key::Backspace);
    assert_eq!(lines_of(&app), vec!["hello world", "second"]);
    assert_eq!(cursor(&app), (0, 5));
}

#[test]
fn editor_types_and_moves() {
    let mut app = editor_with("", 0, 0);
    type_text(&mut app, "helo");
    press(&mut app, Key::Left);
    type_text(&mut app, "l");
    assert_eq!(lines_of(&app), vec!["hello"]);
    assert_eq!(cursor(&app), (0, 4));
    press(&mut app, Key::Right);
    press(&mut app, Key::Right);
    assert_eq!(cursor(&app), (0, 5));
    press(&mut app, Key::Up);
    press(&mut app, Key::Down);
    assert_eq!(cursor(&app), (0, 5));
}

#[test]
fn editor_ignores_characters_typed_with_modifiers() {
    let mut app = editor_with("ab", 0, 1);
    app.handle_key(KeyPress { key: Key::Char('x'), modifiers: Modifiers::Other }, ROWS);
    app.handle_key(KeyPress { key: Key::Char('x'), modifiers: Modifiers::Control }, ROWS);
    assert_eq!(press(&mut app, Key::Other), Effect::Nothing);
    assert_eq!(press(&mut app, Key::Esc), Effect::Nothing);
    assert_eq!(lines_of(&app), vec!["ab"]);
    assert_eq!(cursor(&app), (0, 1));
    assert_eq!(app.focus(), Focus::Editor);
}

#[test]
fn editor_scrolls_to_keep_the_cursor_in_the_window() {
    let mut app = editor_with("0\n1\n2\n3\n4\n5\n6", 0, 0);
    for _ in 0..5 {
        app.handle_key(plain(Key::Down), 3);
    }
    assert_eq!(cursor(&app), (5, 0));
    assert_eq!(app.buffer().scroll(), 3);
    assert_eq!(app.buffer().visible_window(3), vec!["3", "4", "5"]);
    assert_eq!(app.buffer().cursor_in_window(), (2, 0));
    for _ in 0..4 {
        app.handle_key(plain(Key::Up), 3);
    }
    assert_eq!(cursor(&app), (1, 0));
    assert_eq!(app.buffer().scroll(), 1);
}

#[test]
fn rescan_recomputes_the_search_results() {
    let mut app = app_with(&["a.md", "b.md"]);
    app.handle_key(ctrl('p'), ROWS);
    press(&mut app, Key::Char('b'));
    assert_eq!(app.search().results(), vec![1]);
    app.rescan(&strs(&["b.md", "bb.md", "c.md"]));
    assert_eq!(app.search().results(), vec![0, 1]);
    assert_eq!(app.search().query(), "b");
}

#[test]
fn rescan_clamps_the_selection() {
    let mut app = app_with(&["a.md", "b.md", "c.md"]);
    press(&mut app, Key::Down);
    press(&mut app, Key::Down);
    app.rescan(&strs(&["a.md"]));
    assert_eq!(app.index().selected(), 0);
    app.rescan(&Vec::new());
    assert_eq!(app.index().selected(), 0);
    assert_eq!(app.current_file(), None);
}

#[test]
fn status_line_names_focus_note_and_status() {
    let mut app = app_with(&["notes/a.md"]);
    assert_eq!(
        app.status_line(),
        " FILES | a.md | Ready | Ctrl+P search | Ctrl+S save | Ctrl+Q quit "
    );
    press(&mut app, Key::Char('n'));
    app.set_status("Saved".to_string());
    assert_eq!(
        app.status_line(),
        " NEW NOTE | a.md | Saved | Ctrl+P search | Ctrl+S save | Ctrl+Q quit "
    );
    let empty = App::new("notes".to_string());
    assert_eq!(
        empty.status_line(),
        " FILES | - | Ready | Ctrl+P search | Ctrl+S save | Ctrl+Q quit "
    );
}

#[test]
fn focus_names() {
    assert_eq!(Focus::Files.name(), "FILES");
    assert_eq!(Focus::Editor.name(), "EDITOR");
    assert_eq!(Focus::Help.name(), "HELP");
    assert_eq!(Focus::NewNote.name(), "NEW NOTE");
    assert_eq!(Focus::Search.name(), "SEARCH");
}

#[test]
fn set_status_replaces_the_message() {
    let mut app = App::new("notes".to_string());
    app.set_status("Created".to_string());
    assert_eq!(app.status(), "Created");
    assert_eq!(app.focus(), Focus::Files);
}

#[test]
fn editor_rows_leaves_out_borders_and_status_bar() {
    assert_eq!(editor_rows(24), 21);
    assert_eq!(editor_rows(3), 0);
    assert_eq!(editor_rows(2), 0);
    assert_eq!(editor_rows(0), 0);
    assert_eq!(editor_rows(u16::MAX), 65532);
}

#[test]
fn note_saved_sets_the_status_only() {
    let mut app = editor_with("abc", 0, 1);
    app.note_saved();
    assert_eq!(app.status(), "Saved");
    assert_eq!(app.focus(), Focus::Editor);
    assert_eq!(lines_of(&app), vec!["abc"]);
    assert_eq!(cursor(&app), (0, 1));
}

#[test]
fn search_result_names_follow_the_query() {
    let mut app = app_with(&["n/a.md", "n/ab.md", "n/b.md"]);
    app.handle_key(ctrl('p'), ROWS);
    assert_eq!(app.search_result_names(), strs(&["a.md", "ab.md", "b.md"]));
    press(&mut app, Key::Char('b'));
    assert_eq!(app.search_result_names(), strs(&["ab.md", "b.md"]));
}
