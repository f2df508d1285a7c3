//! The editor as a whole: the focus state machine over the line buffer, the
//! file index and the search filter. Each key press is one step; what has to
//! happen outside (reading, writing, creating a note, ending the session) is
//! handed to the caller as an [`Effect`].

use vstd::prelude::*;
use vstd::string::StringExecFns;
use crate::buffer::{BufferView, Direction, LineBuffer};
use crate::index::{clamp_index, FileIndex, IndexView};
use crate::paths::{file_name_for, is_listing_of, note_file_name};
use crate::search::{SearchFilter, SearchView};
use crate::text::{string_of, text_views};

verus! {

/// The pane or popup that takes the input.
#[derive(Clone, Copy, Debug, PartialEq, Eq, Structural)]
pub enum Focus {
    Files,
    Editor,
    Help,
    NewNote,
    Search,
}

impl Focus {
    /// The name of the focus as the status bar shows it.
    pub open spec fn label(self) -> Seq<char> {
        match self {
            Focus::Files => "FILES"@,
            Focus::Editor => "EDITOR"@,
            Focus::Help => "HELP"@,
            Focus::NewNote => "NEW NOTE"@,
            Focus::Search => "SEARCH"@,
        }
    }

    /// The name of the focus as the status bar shows it.
    pub fn name(self) -> (label: &'static str)
        ensures
            label@ == self.label(),
    {
        match self {
            Focus::Files => "FILES",
            Focus::Editor => "EDITOR",
            Focus::Help => "HELP",
            Focus::NewNote => "NEW NOTE",
            Focus::Search => "SEARCH",
        }
    }
}

/// A key of the keyboard.
#[derive(Clone, Copy, Debug, PartialEq, Eq, Structural)]
pub enum Key {
    Char(char),
    Enter,
    Esc,
    Tab,
    Backspace,
    Up,
    Down,
    Left,
    Right,
    Other,
}

/// The modifier keys held with a key: none at all, Control (alone or with
/// others), or others without Control.
#[derive(Clone, Copy, Debug, PartialEq, Eq, Structural)]
pub enum Modifiers {
    Plain,
    Control,
    Other,
}

/// One key press.
#[derive(Clone, Copy, Debug, PartialEq, Eq, Structural)]
pub struct KeyPress {
    pub key: Key,
    pub modifiers: Modifiers,
}

impl KeyPress {
    /// The chord that ends the session: Control and `q`.
    pub open spec fn is_quit(self) -> bool {
        self.modifiers == Modifiers::Control && self.key == Key::Char('q')
    }

    /// The chord that opens and closes the help: Control and `h`.
    pub open spec fn is_toggle_help(self) -> bool {
        self.modifiers == Modifiers::Control && self.key == Key::Char('h')
    }

    /// The key that switches between the two panes: Tab.
    pub open spec fn is_switch_pane(self) -> bool {
        self.key == Key::Tab
    }

    /// The chord that opens the search: Control and `p`.
    pub open spec fn is_search(self) -> bool {
        self.modifiers == Modifiers::Control && self.key == Key::Char('p')
    }

    /// The chord that saves the open note: Control and `s`.
    pub open spec fn is_save(self) -> bool {
        self.modifiers == Modifiers::Control && self.key == Key::Char('s')
    }

    /// The key that starts a new note in the file pane: `n`.
    pub open spec fn is_new_note(self) -> bool {
        self.key == Key::Char('n')
    }

    /// The character that the press types, if it types one: a character key
    /// without any modifier.
    pub open spec fn typed(self) -> Option<char> {
        match self.key {
            Key::Char(c) => if self.modifiers == Modifiers::Plain {
                Some(c)
            } else {
                None
            },
            _ => None,
        }
    }
}

/// What the caller has to do after a step.
#[derive(Debug, PartialEq, Eq)]
pub enum Effect {
    /// Nothing.
    Nothing,
    /// End the session.
    Quit,
    /// Read the note at `path` and hand its text to `load_content`; an
    /// unreadable note counts as empty.
    Load { path: String },
    /// Write `text` to the note at `path`; if that worked, call
    /// `note_saved`.
    Save { path: String, text: String },
    /// Create an empty note of the file name `name` in the notes directory,
    /// list the directory, and hand the path of the note and the listing to
    /// `note_created`.
    Create { name: String },
}

/// The mathematical content of an [`Effect`].
pub enum EffectView {
    Nothing,
    Quit,
    Load { path: Seq<char> },
    Save { path: Seq<char>, text: Seq<char> },
    Create { name: Seq<char> },
}

impl View for Effect {
    type V = EffectView;

    open spec fn view(&self) -> EffectView {
        match self {
            Effect::Nothing => EffectView::Nothing,
            Effect::Quit => EffectView::Quit,
            Effect::Load { path } => EffectView::Load { path: path@ },
            Effect::Save { path, text } => EffectView::Save { path: path@, text: text@ },
            Effect::Create { name } => EffectView::Create { name: name@ },
        }
    }
}

/// The mathematical content of an [`App`].
pub struct AppView {
    pub notes_dir: Seq<char>,
    pub index: IndexView,
    pub buffer: BufferView,
    pub focus: Focus,
    pub status: Seq<char>,
    pub new_note_input: Seq<char>,
    pub search: SearchView,
}

/// A state and the effect of the step that led to it.
pub struct Step {
    pub next: AppView,
    pub effect: EffectView,
}

impl AppView {
    /// The parts are well-formed, and the search results are those of the
    /// query over the present index.
    pub open spec fn wf(self) -> bool {
        &&& self.index.wf()
        &&& self.buffer.wf()
        &&& self.search.wf(self.index.names())
    }

    /// The text of the status bar: the focus, the name of the selected
    /// note, the status and the chords that work everywhere.
    pub open spec fn status_line(self) -> Seq<char> {
        " "@ + self.focus.label() + " | "@ + self.index.current_name() + " | "@ + self.status
            + " | Ctrl+P search | Ctrl+S save | Ctrl+Q quit "@
    }

    /// The state after the notes directory was listed anew and `paths` is
    /// its listing: the selection and the search results are kept inside
    /// the new lists.
    pub open spec fn relisted(self, paths: Seq<Seq<char>>) -> AppView {
        let index = IndexView {
            paths,
            selected: clamp_index(self.index.selected, paths.len() as int),
        };
        AppView {
            index,
            search: self.search.with_query(index.names(), self.search.query),
            ..self
        }
    }

    /// The state after a note was created at `path` and `paths` is the new
    /// listing of the notes directory: the new note is selected (the last
    /// note where the listing does not hold it), the buffer is empty and
    /// the editor pane has the focus. Where the listing holds the new note,
    /// the status says that it was created.
    pub open spec fn with_new_note(self, path: Seq<char>, paths: Seq<Seq<char>>) -> AppView {
        let index = IndexView { paths, selected: 0 }.selecting_path(path);
        AppView {
            index,
            buffer: BufferView::loaded(Seq::empty()),
            focus: Focus::Editor,
            new_note_input: Seq::empty(),
            search: self.search.with_query(index.names(), self.search.query),
            status: if index.holds(path) {
                "Created"@
            } else {
                self.status
            },
            ..self
        }
    }

    /// The state with nothing but the effect `effect` to report.
    pub open spec fn with(self, effect: EffectView) -> Step {
        Step { next: self, effect }
    }

    /// The state without effect.
    pub open spec fn quiet(self) -> Step {
        self.with(EffectView::Nothing)
    }

    /// The file pane focused, with both input texts discarded.
    pub open spec fn to_files(self) -> AppView {
        AppView {
            focus: Focus::Files,
            new_note_input: Seq::empty(),
            search: SearchView::opened(self.index.names()),
            ..self
        }
    }

    /// The selected note opened in the editor pane; nothing happens where
    /// the index is empty.
    pub open spec fn opening_current(self) -> Step {
        match self.index.current() {
            Some(path) => AppView { focus: Focus::Editor, ..self }.with(EffectView::Load { path }),
            None => self.quiet(),
        }
    }

    /// The selection of the index changed to `index`; the newly selected
    /// note is to be loaded if the selection has moved.
    pub open spec fn browsing(self, index: IndexView) -> Step {
        let next = AppView { index, ..self };
        match index.current() {
            Some(path) => if index.selected != self.index.selected {
                next.with(EffectView::Load { path })
            } else {
                next.quiet()
            },
            None => next.quiet(),
        }
    }

    /// The buffer replaced by `buffer`, scrolled so that the cursor is
    /// inside a window of `height` rows.
    pub open spec fn editing(self, buffer: BufferView, height: int) -> Step {
        AppView { buffer: buffer.scrolled(height), ..self }.quiet()
    }

    /// The query of the search replaced by `query`.
    pub open spec fn querying(self, query: Seq<char>) -> Step {
        AppView { search: self.search.with_query(self.index.names(), query), ..self }.quiet()
    }

    /// A step in the file pane.
    pub open spec fn step_files(self, press: KeyPress) -> Step {
        match press.key {
            Key::Up => self.browsing(self.index.previous()),
            Key::Down => self.browsing(self.index.next()),
            Key::Enter => self.opening_current(),
            _ => if press.is_new_note() {
                AppView { focus: Focus::NewNote, new_note_input: Seq::empty(), ..self }.quiet()
            } else {
                self.quiet()
            },
        }
    }

    /// A step in the help popup.
    pub open spec fn step_help(self, press: KeyPress) -> Step {
        match press.key {
            Key::Esc => self.to_files().quiet(),
            _ => self.quiet(),
        }
    }

    /// A step in the new-note popup.
    pub open spec fn step_new_note(self, press: KeyPress) -> Step {
        match press.key {
            Key::Esc => self.to_files().quiet(),
            Key::Enter => self.with(
                EffectView::Create { name: note_file_name(self.new_note_input) },
            ),
            Key::Backspace => AppView {
                new_note_input: if self.new_note_input.len() > 0 {
                    self.new_note_input.drop_last()
                } else {
                    self.new_note_input
                },
                ..self
            }.quiet(),
            _ => match press.typed() {
                Some(c) => AppView {
                    new_note_input: self.new_note_input.push(c),
                    ..self
                }.quiet(),
                None => self.quiet(),
            },
        }
    }

    /// A step in the search popup.
    pub open spec fn step_search(self, press: KeyPress) -> Step {
        match press.key {
            Key::Esc => self.to_files().quiet(),
            Key::Enter => match self.search.confirmed() {
                Some(i) => AppView {
                    index: self.index.selecting(i),
                    ..self
                }.opening_current(),
                None => self.quiet(),
            },
            Key::Up => AppView { search: self.search.previous(), ..self }.quiet(),
            Key::Down => AppView { search: self.search.next(), ..self }.quiet(),
            Key::Backspace => self.querying(
                if self.search.query.len() > 0 {
                    self.search.query.drop_last()
                } else {
                    self.search.query
                },
            ),
            _ => match press.typed() {
                Some(c) => self.querying(self.search.query.push(c)),
                None => self.quiet(),
            },
        }
    }

    /// A step in the editor pane, whose window has `height` rows.
    pub open spec fn step_editor(self, press: KeyPress, height: int) -> Step {
        match press.key {
            Key::Left => self.editing(self.buffer.moved(Direction::Left), height),
            Key::Right => self.editing(self.buffer.moved(Direction::Right), height),
            Key::Up => self.editing(self.buffer.moved(Direction::Up), height),
            Key::Down => self.editing(self.buffer.moved(Direction::Down), height),
            Key::Enter => self.editing(self.buffer.split_at_cursor(), height),
            Key::Backspace => self.editing(self.buffer.backspaced(), height),
            _ => match press.typed() {
                Some(c) => self.editing(self.buffer.inserted(c), height),
                None => self.editing(self.buffer, height),
            },
        }
    }

    /// One step of the state machine. The chords that work everywhere come
    /// first, in this order: quit, help, pane switch, search, save. Any
    /// other key goes to the focused pane or popup.
    pub open spec fn step(self, press: KeyPress, height: int) -> Step {
        if press.is_quit() {
            self.with(EffectView::Quit)
        } else if press.is_toggle_help() {
            if self.focus == Focus::Help {
                self.to_files().quiet()
            } else {
                AppView { focus: Focus::Help, ..self }.quiet()
            }
        } else if press.is_switch_pane() {
            match self.focus {
                Focus::Files => AppView { focus: Focus::Editor, ..self }.quiet(),
                Focus::Editor => self.to_files().quiet(),
                _ => self.quiet(),
            }
        } else if press.is_search() {
            AppView {
                focus: Focus::Search,
                search: SearchView::opened(self.index.names()),
                ..self
            }.quiet()
        } else if press.is_save() {
            match self.index.current() {
                Some(path) => self.with(EffectView::Save { path, text: self.buffer.text() }),
                None => self.quiet(),
            }
        } else {
            match self.focus {
                Focus::Help => self.step_help(press),
                Focus::Files => self.step_files(press),
                Focus::NewNote => self.step_new_note(press),
                Focus::Search => self.step_search(press),
                Focus::Editor => self.step_editor(press, height),
            }
        }
    }
}

/// Whether `press` is Control held with the character key `c`.
fn is_control_char(press: KeyPress, c: char) -> (b: bool)
    ensures
        b == (press.modifiers == Modifiers::Control && press.key == Key::Char(c)),
{
    match press.modifiers {
        Modifiers::Control => match press.key {
            Key::Char(k) => k == c,
            _ => false,
        },
        _ => false,
    }
}

/// The character that `press` types, if it types one.
fn typed_char(press: KeyPress) -> (c: Option<char>)
    ensures
        c == press.typed(),
{
    match press.key {
        Key::Char(c) => match press.modifiers {
            Modifiers::Plain => Some(c),
            _ => None,
        },
        _ => None,
    }
}

/// The state of the editor.
pub struct App {
    notes_dir: String,
    index: FileIndex,
    buffer: LineBuffer,
    focus: Focus,
    status: String,
    new_note_input: Vec<char>,
    search: SearchFilter,
}

impl View for App {
    type V = AppView;

    closed spec fn view(&self) -> AppView {
        AppView {
            notes_dir: self.notes_dir@,
            index: self.index@,
            buffer: self.buffer@,
            focus: self.focus,
            status: self.status@,
            new_note_input: self.new_note_input@,
            search: self.search@,
        }
    }
}

impl App {
    /// The invariant of the state, which every operation keeps.
    pub open spec fn wf(&self) -> bool {
        self@.wf()
    }

    /// The initial state for the notes directory `notes_dir`: the file pane
    /// focused, no notes known, a buffer of one empty line, status `Ready`.
    pub fn new(notes_dir: String) -> (app: App)
        ensures
            app.wf(),
            app@.notes_dir == notes_dir@,
            app@.focus == Focus::Files,
            app@.index.paths.len() == 0,
            app@.index.selected == 0,
            app@.buffer == BufferView::loaded(Seq::empty()),
            app@.status == "Ready"@,
            app@.new_note_input.len() == 0,
            app@.search == SearchView::opened(Seq::empty()),
    {
        App {
            notes_dir,
            index: FileIndex::new(),
            buffer: LineBuffer::new(),
            focus: Focus::Files,
            status: "Ready".to_owned(),
            new_note_input: Vec::new(),
            search: SearchFilter::new(),
        }
    }

    /// The display name of the selected note, or `-` where there is none.
    pub fn current_file_name(&self) -> (name: String)
        ensures
            name@ == self@.index.current_name(),
    {
        self.index.current_name()
    }

    /// The path of the selected note, or `None` where there is none.
    pub fn current_file(&self) -> (path: Option<String>)
        ensures
            path.is_some() == self@.index.current().is_some(),
            path.is_some() ==> path.unwrap()@ == self@.index.current().unwrap(),
    {
        self.index.current()
    }

    /// Loads `content` into the buffer: its lines replace the old ones, and
    /// the cursor and the scroll offset go to the start.
    pub fn load_content(&mut self, content: String)
        ensures
            final(self)@ == (AppView { buffer: BufferView::loaded(content@), ..old(self)@ }),
            old(self).wf() ==> final(self).wf(),
    {
        self.buffer.load(content.as_str());
    }

    /// The text of the buffer: its lines joined by line feeds.
    pub fn content_as_string(&self) -> (text: String)
        ensures
            text@ == self@.buffer.text(),
    {
        self.buffer.serialize()
    }

    /// Takes over a listing of the notes directory: the notes among
    /// `entries` become the index, in ascending order; the selection and the
    /// search results are kept inside the new lists.
    pub fn rescan(&mut self, entries: &Vec<String>)
        requires
            old(self).wf(),
        ensures
            final(self).wf(),
            is_listing_of(final(self)@.index.paths, text_views(entries@)),
            final(self)@ == old(self)@.relisted(final(self)@.index.paths),
            final(self)@.index.paths.len() > 0 ==> final(self)@.index.selected
                < final(self)@.index.paths.len(),
            final(self)@.index.paths.len() == 0 ==> final(self)@.index.selected == 0,
    {
        self.index.rescan(entries);
        self.search.refresh(&self.index);
    }

    /// Completes the creation of a note: `entries` is what the notes
    /// directory holds after the note at `path` was created. The index is
    /// rescanned, the new note selected, the buffer emptied and the editor
    /// pane focused.
    pub fn note_created(&mut self, path: &str, entries: &Vec<String>)
        requires
            old(self).wf(),
        ensures
            final(self).wf(),
            is_listing_of(final(self)@.index.paths, text_views(entries@)),
            final(self)@ == old(self)@.with_new_note(path@, final(self)@.index.paths),
    {
        self.index.rescan(entries);
        let found = self.index.select_path(path);
        self.search.refresh(&self.index);
        self.buffer = LineBuffer::new();
        self.new_note_input.clear();
        self.focus = Focus::Editor;
        if found {
            self.status = "Created".to_owned();
        }
    }

    /// Takes note that the open note was written: the status says so.
    pub fn note_saved(&mut self)
        ensures
            final(self)@ == (AppView { status: "Saved"@, ..old(self)@ }),
    {
        self.status = "Saved".to_owned();
    }

    /// Focuses the file pane and discards both input texts.
    fn enter_files(&mut self)
        requires
            old(self).wf(),
        ensures
            final(self).wf(),
            final(self)@ == old(self)@.to_files(),
    {
        self.focus = Focus::Files;
        self.new_note_input.clear();
        self.search.open(&self.index);
    }

    /// Opens the selected note in the editor pane.
    fn open_current(&mut self) -> (effect: Effect)
        requires
            old(self).wf(),
        ensures
            final(self).wf(),
            final(self)@ == old(self)@.opening_current().next,
            effect@ == old(self)@.opening_current().effect,
    {
        match self.index.current() {
            Some(path) => {
                self.focus = Focus::Editor;
                Effect::Load { path }
            },
            None => Effect::Nothing,
        }
    }

    /// Asks for the selected note to be loaded if the selection has moved
    /// away from `before`.
    fn browse_from(&self, before: usize) -> (effect: Effect)
        ensures
            effect@ == match self@.index.current() {
                Some(path) => if self@.index.selected != before {
                    EffectView::Load { path }
                } else {
                    EffectView::Nothing
                },
                None => EffectView::Nothing,
            },
    {
        if self.index.selected() != before {
            match self.index.current() {
                Some(path) => Effect::Load { path },
                None => Effect::Nothing,
            }
        } else {
            Effect::Nothing
        }
    }

    /// A step in the file pane.
    fn files_key(&mut self, press: KeyPress) -> (effect: Effect)
        requires
            old(self).wf(),
        ensures
            final(self).wf(),
            final(self)@ == old(self)@.step_files(press).next,
            effect@ == old(self)@.step_files(press).effect,
    {
        let before = self.index.selected();
        match press.key {
            Key::Up => {
                self.index.select_previous();
                self.browse_from(before)
            },
            Key::Down => {
                self.index.select_next();
                self.browse_from(before)
            },
            Key::Enter => self.open_current(),
            Key::Char(c) => {
                if c == 'n' {
                    self.focus = Focus::NewNote;
                    self.new_note_input.clear();
                }
                Effect::Nothing
            },
            _ => Effect::Nothing,
        }
    }

    /// A step in the help popup.
    fn help_key(&mut self, press: KeyPress) -> (effect: Effect)
        requires
            old(self).wf(),
        ensures
            final(self).wf(),
            final(self)@ == old(self)@.step_help(press).next,
            effect@ == old(self)@.step_help(press).effect,
    {
        match press.key {
            Key::Esc => {
                self.enter_files();
            },
            _ => {},
        }
        Effect::Nothing
    }

    /// A step in the new-note popup.
    fn new_note_key(&mut self, press: KeyPress) -> (effect: Effect)
        requires
            old(self).wf(),
        ensures
            final(self).wf(),
            final(self)@ == old(self)@.step_new_note(press).next,
            effect@ == old(self)@.step_new_note(press).effect,
    {
        match press.key {
            Key::Esc => {
                self.enter_files();
                Effect::Nothing
            },
            Key::Enter => {
                let name = file_name_for(&self.new_note_input);
                Effect::Create { name: string_of(&name) }
            },
            Key::Backspace => {
                self.new_note_input.pop();
                assert(old(self)@.new_note_input.len() > 0 ==> self@.new_note_input
                    =~= old(self)@.new_note_input.drop_last());
                Effect::Nothing
            },
            _ => {
                match typed_char(press) {
                    Some(c) => {
                        self.new_note_input.push(c);
                    },
                    None => {},
                }
                Effect::Nothing
            },
        }
    }

    /// A step in the search popup.
    fn search_key(&mut self, press: KeyPress) -> (effect: Effect)
        requires
            old(self).wf(),
        ensures
            final(self).wf(),
            final(self)@ == old(self)@.step_search(press).next,
            effect@ == old(self)@.step_search(press).effect,
    {
        match press.key {
            Key::Esc => {
                self.enter_files();
                Effect::Nothing
            },
            Key::Enter => {
                match self.search.confirm() {
                    Some(i) => {
                        self.index.select(i);
                        proof {
                            crate::index::lemma_names_of_selection(old(self)@.index, i as int);
                        }
                        self.open_current()
                    },
                    None => Effect::Nothing,
                }
            },
            Key::Up => {
                self.search.select_previous();
                Effect::Nothing
            },
            Key::Down => {
                self.search.select_next();
                Effect::Nothing
            },
            Key::Backspace => {
                self.search.erase_char(&self.index);
                Effect::Nothing
            },
            _ => {
                match typed_char(press) {
                    Some(c) => {
                        self.search.type_char(&self.index, c);
                    },
                    None => {},
                }
                Effect::Nothing
            },
        }
    }

    /// A step in the editor pane, whose window has `height` rows.
    fn editor_key(&mut self, press: KeyPress, height: usize) -> (effect: Effect)
        requires
            old(self).wf(),
        ensures
            final(self).wf(),
            final(self)@ == old(self)@.step_editor(press, height as int).next,
            effect@ == old(self)@.step_editor(press, height as int).effect,
    {
        match press.key {
            Key::Left => self.buffer.move_cursor(Direction::Left),
            Key::Right => self.buffer.move_cursor(Direction::Right),
            Key::Up => self.buffer.move_cursor(Direction::Up),
            Key::Down => self.buffer.move_cursor(Direction::Down),
            Key::Enter => self.buffer.split_line(),
            Key::Backspace => self.buffer.backspace(),
            _ => {
                match typed_char(press) {
                    Some(c) => self.buffer.insert_char(c),
                    None => {},
                }
            },
        }
        self.buffer.scroll_to_cursor(height);
        Effect::Nothing
    }

    /// Takes one key press. `height` is the number of rows of the editor
    /// window. The state changes as `step` says, and the result tells what
    /// the caller has to do.
    pub fn handle_key(&mut self, press: KeyPress, height: usize) -> (effect: Effect)
        requires
            old(self).wf(),
        ensures
            final(self).wf(),
            final(self)@ == old(self)@.step(press, height as int).next,
            effect@ == old(self)@.step(press, height as int).effect,
    {
        if is_control_char(press, 'q') {
            return Effect::Quit;
        }
        if is_control_char(press, 'h') {
            match self.focus {
                Focus::Help => self.enter_files(),
                _ => {
                    self.focus = Focus::Help;
                },
            }
            return Effect::Nothing;
        }
        match press.key {
            Key::Tab => {
                match self.focus {
                    Focus::Files => {
                        self.focus = Focus::Editor;
                    },
                    Focus::Editor => self.enter_files(),
                    _ => {},
                }
                return Effect::Nothing;
            },
            _ => {},
        }
        if is_control_char(press, 'p') {
            self.focus = Focus::Search;
            self.search.open(&self.index);
            return Effect::Nothing;
        }
        if is_control_char(press, 's') {
            return match self.index.current() {
                Some(path) => Effect::Save { path, text: self.buffer.serialize() },
                None => Effect::Nothing,
            };
        }
        match self.focus {
            Focus::Help => self.help_key(press),
            Focus::Files => self.files_key(press),
            Focus::NewNote => self.new_note_key(press),
            Focus::Search => self.search_key(press),
            Focus::Editor => self.editor_key(press, height),
        }
    }
    /// The focus.
    pub fn focus(&self) -> (focus: Focus)
        ensures
            focus == self@.focus,
    {
        self.focus
    }

    /// The notes directory that the state was made for.
    pub fn notes_dir(&self) -> (dir: &String)
        ensures
            dir@ == self@.notes_dir,
    {
        &self.notes_dir
    }

    /// The status message.
    pub fn status(&self) -> (status: &String)
        ensures
            status@ == self@.status,
    {
        &self.status
    }

    /// Replaces the status message.
    pub fn set_status(&mut self, status: String)
        ensures
            final(self)@ == (AppView { status: status@, ..old(self)@ }),
    {
        self.status = status;
    }

    /// The name typed so far in the new-note popup.
    pub fn new_note_input(&self) -> (input: String)
        ensures
            input@ == self@.new_note_input,
    {
        string_of(&self.new_note_input)
    }

    /// The line buffer.
    pub fn buffer(&self) -> (buffer: &LineBuffer)
        ensures
            buffer@ == self@.buffer,
    {
        &self.buffer
    }

    /// The file index.
    pub fn index(&self) -> (index: &FileIndex)
        ensures
            index@ == self@.index,
    {
        &self.index
    }

    /// The search filter.
    pub fn search(&self) -> (search: &SearchFilter)
        ensures
            search@ == self@.search,
    {
        &self.search
    }

    /// The display names of the search results, in order.
    pub fn search_result_names(&self) -> (names: Vec<String>)
        requires
            self.wf(),
        ensures
            text_views(names@) == self@.search.result_names(self@.index.names()),
    {
        self.search.result_names(&self.index)
    }

    /// The text of the status bar.
    pub fn status_line(&self) -> (line: String)
        ensures
            line@ == self@.status_line(),
    {
        let mut line = String::from_str(" ");
        line.append(self.focus.name());
        line.append(" | ");
        let name = self.index.current_name();
        line.append(name.as_str());
        line.append(" | ");
        line.append(self.status.as_str());
        line.append(" | Ctrl+P search | Ctrl+S save | Ctrl+Q quit ");
        line
    }
}

/// The rows of the editor window on a terminal of `terminal_height` rows:
/// what the two border rows and the status bar leave.
pub fn editor_rows(terminal_height: u16) -> (rows: usize)
    ensures
        rows == if terminal_height >= 3 {
            terminal_height - 3
        } else {
            0
        },
{
    if terminal_height >= 3 {
        (terminal_height - 3) as usize
    } else {
        0
    }
}

} // verus!
