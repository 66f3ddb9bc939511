//! The editor's decisions: which command an event gives, what each command
//! does to the view and the message bar, when the editor quits, and what the
//! title and the message bar say.  Reading events, drawing and writing files
//! are left to the caller, which hands the outcomes back.
use crate::buffer::{joined_lines, line_texts, Buffer};
use std::path::PathBuf;
use crate::command::{command_for_event, Command, Edit, Move, System};
use crate::documentstatus::{decimal, push_decimal};
use crate::editorcommand::{Direction, EditorCommand};
use crate::fileinfo::no_name;
use crate::input::{Event, KeyCode, KeyEvent, KeyEventKind, NONE};
use crate::location::Location;
use crate::messagebar::{
    drawn, expired_after, redraw_needed, shown_text, with_message, MessageBar, MessageBarState,
};
use crate::terminal::{Position, Size};
use crate::view::{
    after_command, command_allowed, command_texts, line_len, lines_fit, resized, row_text, sat_sub, text_position, View, ViewState,
};
use crate::NAME;
use vstd::prelude::*;
use vstd::string::*;
use vstd::view::View as _;

verus! {

/// How many Ctrl-Q presses in a row close a document with unsaved changes.
pub const QUIT_TIMES: u8 = 3;

/// The editor as plain values.
pub struct EditorState {
    /// Whether the editor is done.
    pub should_quit: bool,
    /// How many Ctrl-Q presses in a row were refused because of unsaved
    /// changes.
    pub quit_time: u8,
    /// The view of the document.
    pub view: ViewState,
    /// The message bar.
    pub message_bar: MessageBarState,
    /// The size of the terminal.
    pub terminal_size: Size,
    /// The terminal title last set.
    pub title: Seq<char>,
}

/// What the caller must do after a command.
#[derive(Clone, Copy, Debug, PartialEq, Eq, Structural)]
pub enum Action {
    /// Nothing.
    Continue,
    /// Write the document to its file and report with `handle_save`.
    Save,
}

/// How writing the document went.
#[derive(Clone, Copy, Debug, PartialEq, Eq, Structural)]
pub enum SaveOutcome {
    /// The document was written to its file.
    Written,
    /// The document has no file, so nothing was written.
    NoFile,
    /// Writing failed.
    Failed,
}

/// The view command of an edit.
pub open spec fn edit_command(edit: Edit) -> EditorCommand {
    match edit {
        Edit::Insert(c) => EditorCommand::Insert(c),
        Edit::InsertNewLine => EditorCommand::Enter,
        Edit::Delete => EditorCommand::Delete,
        Edit::DeleteBackward => EditorCommand::Backspace,
    }
}

/// The view command of a caret movement.
pub open spec fn move_command(movement: Move) -> EditorCommand {
    EditorCommand::Move(
        match movement {
            Move::Up => Direction::Up,
            Move::Down => Direction::Down,
            Move::Left => Direction::Left,
            Move::Right => Direction::Right,
            Move::PageUp => Direction::PageUp,
            Move::PageDown => Direction::PageDown,
            Move::Home => Direction::Home,
            Move::End => Direction::End,
        },
    )
}

/// The warning shown when Ctrl-Q is refused, with `left` presses to go.
pub open spec fn quit_warning(left: nat) -> Seq<char> {
    "WARNING! File has unsaved changes. Press Ctrl-Q "@ + decimal(left) + " times to quit."@
}

/// The first message of the editor.
pub open spec fn help_message() -> Seq<char> {
    "HELP: Ctrl-S = save | Ctrl-Q = quit"@
}

/// The message when a file cannot be opened.
pub open spec fn open_failed_message(path: Seq<char>) -> Seq<char> {
    "ERR: Could not open file: "@ + path
}

/// The message after the document was saved, or had no file.
pub open spec fn saved_message() -> Seq<char> {
    "File saved successfully."@
}

/// The message when writing the document failed.
pub open spec fn save_failed_message() -> Seq<char> {
    "Error writing file!"@
}

/// The window title for a document named `filename`.
pub open spec fn title_text(filename: Seq<char>) -> Seq<char> {
    filename + " - "@ + NAME@
}

/// The view of an empty document, of no size, with the caret at the start.
pub open spec fn empty_view(cjk: bool) -> ViewState {
    ViewState {
        lines: Seq::empty(),
        cjk,
        dirty: false,
        size: Size { width: 0, height: 0 },
        target: 0,
        location: Location { grapheme_index: 0, line_index: 0 },
        offset: Position { col: 0, row: 0 },
        needs_redraw: false,
    }
}

/// Ctrl-Q: the editor quits when the document is unchanged, or when this is
/// the last of `QUIT_TIMES` presses in a row; else it counts the press and
/// warns.
pub open spec fn quit_pressed(s: EditorState) -> EditorState {
    if !s.view.dirty || s.quit_time + 1 == QUIT_TIMES {
        EditorState { should_quit: true, ..s }
    } else {
        let q = (s.quit_time + 1) as u8;
        EditorState {
            quit_time: q,
            message_bar: with_message(s.message_bar, quit_warning((QUIT_TIMES - q) as nat)),
            ..s
        }
    }
}

/// Any command but Ctrl-Q and a resize restarts the count of Ctrl-Q presses
/// and clears the warning.
pub open spec fn quit_count_reset(s: EditorState) -> EditorState {
    if s.quit_time > 0 {
        EditorState { quit_time: 0, message_bar: with_message(s.message_bar, Seq::empty()), ..s }
    } else {
        s
    }
}

/// The editor on a terminal of `size`: the view takes all rows but the last
/// two (status and message), the message bar one row.
pub open spec fn editor_resized(s: EditorState, size: Size) -> EditorState {
    EditorState {
        terminal_size: size,
        view: resized(s.view, Size { width: size.width, height: sat_sub(size.height, 2) }),
        message_bar: MessageBarState {
            size: Size { width: size.width, height: 1 },
            needs_redraw: true,
            ..s.message_bar
        },
        ..s
    }
}

/// What a command does to the editor.
pub open spec fn after_editor_command(s: EditorState, command: Command) -> EditorState {
    match command {
        Command::System(System::Quit) => quit_pressed(s),
        Command::System(System::Resize(size)) => editor_resized(s, size),
        Command::System(System::Save) => quit_count_reset(s),
        Command::Edit(edit) => {
            let r = quit_count_reset(s);
            EditorState { view: after_command(r.view, edit_command(edit)), ..r }
        },
        Command::Move(movement) => {
            let r = quit_count_reset(s);
            EditorState { view: after_command(r.view, move_command(movement)), ..r }
        },
    }
}

/// A command the editor can carry out in state `s`: a Delete needs the caret
/// on a line of the document.
pub open spec fn editor_command_allowed(s: EditorState, command: Command) -> bool {
    command matches Command::Edit(edit) ==> command_allowed(s.view, edit_command(edit))
}

/// The events the editor reacts to: key presses and resizes.
pub open spec fn should_process(event: Event) -> bool {
    match event {
        Event::Key(key) => key.kind == KeyEventKind::Press,
        Event::Resize(_, _) => true,
        Event::Other => false,
    }
}

/// Whether `event` gives a command the editor carries out.
pub open spec fn event_processed(event: Event) -> bool {
    should_process(event) && command_for_event(event) is Ok
}

/// What an event does to the editor.
pub open spec fn after_event(s: EditorState, event: Event) -> EditorState {
    if event_processed(event) {
        after_editor_command(s, command_for_event(event)->Ok_0)
    } else {
        s
    }
}

/// An event the editor can handle in state `s`.
pub open spec fn event_allowed(s: EditorState, event: Event) -> bool {
    event_processed(event) ==> editor_command_allowed(s, command_for_event(event)->Ok_0)
}

/// What saving does to the editor, given how writing went.
pub open spec fn after_save(s: EditorState, outcome: SaveOutcome) -> EditorState {
    match outcome {
        SaveOutcome::Written => EditorState {
            view: ViewState { dirty: false, ..s.view },
            message_bar: with_message(s.message_bar, saved_message()),
            ..s
        },
        SaveOutcome::NoFile => EditorState {
            message_bar: with_message(s.message_bar, saved_message()),
            ..s
        },
        SaveOutcome::Failed => EditorState {
            message_bar: with_message(s.message_bar, save_failed_message()),
            ..s
        },
    }
}

/// With unsaved changes the editor quits only at the third Ctrl-Q in a row;
/// the presses before are refused with a warning that counts down.
pub proof fn law_quit_needs_three_presses(s: EditorState)
    requires
        s.view.dirty,
        s.quit_time == 0,
        !s.should_quit,
    ensures
        !after_editor_command(s, Command::System(System::Quit)).should_quit,
        after_editor_command(s, Command::System(System::Quit)).message_bar.text == quit_warning(2),
        !after_editor_command(
            after_editor_command(s, Command::System(System::Quit)),
            Command::System(System::Quit),
        ).should_quit,
        after_editor_command(
            after_editor_command(s, Command::System(System::Quit)),
            Command::System(System::Quit),
        ).message_bar.text == quit_warning(1),
        after_editor_command(
            after_editor_command(
                after_editor_command(s, Command::System(System::Quit)),
                Command::System(System::Quit),
            ),
            Command::System(System::Quit),
        ).should_quit,
{
}

/// The Home key puts the caret at the start of its line and the End key at
/// the end of it; the arrows Left and Right move it by one grapheme within a
/// line.
pub proof fn law_line_keys_move_caret(s: EditorState, event: KeyEvent)
    requires
        event.modifiers.bits == NONE,
        event.kind == KeyEventKind::Press,
    ensures
        event.code == KeyCode::Home ==> after_event(s, Event::Key(event)).view.location == (
        Location { grapheme_index: 0, line_index: s.view.location.line_index }),
        event.code == KeyCode::End ==> after_event(s, Event::Key(event)).view.location == (
        Location {
            grapheme_index: line_len(s.view.lines, s.view.location.line_index),
            line_index: s.view.location.line_index,
        }),
        event.code == KeyCode::Right && s.view.location.grapheme_index < line_len(
            s.view.lines,
            s.view.location.line_index,
        ) ==> after_event(s, Event::Key(event)).view.location == (Location {
            grapheme_index: (s.view.location.grapheme_index + 1) as usize,
            line_index: s.view.location.line_index,
        }),
        event.code == KeyCode::Left && s.view.location.grapheme_index > 0 ==> after_event(
            s,
            Event::Key(event),
        ).view.location == (Location {
            grapheme_index: (s.view.location.grapheme_index - 1) as usize,
            line_index: s.view.location.line_index,
        }),
{
}

/// Without unsaved changes one Ctrl-Q quits.
pub proof fn law_unchanged_document_quits_at_once(s: EditorState)
    requires
        !s.view.dirty,
    ensures
        after_editor_command(s, Command::System(System::Quit)).should_quit,
{
}

/// After the document was written, one Ctrl-Q quits.
pub proof fn law_quit_after_save(s: EditorState)
    ensures
        after_editor_command(
            after_save(after_editor_command(s, Command::System(System::Save)), SaveOutcome::Written),
            Command::System(System::Quit),
        ).should_quit,
{
}

/// Every command but Ctrl-Q and a resize restarts the count of Ctrl-Q
/// presses; a resize keeps it.
pub proof fn law_other_commands_reset_quit_count(s: EditorState, command: Command)
    ensures
        command != Command::System(System::Quit) && !(command is System && command->System_0 is Resize)
            ==> after_editor_command(s, command).quit_time == 0,
        command is System && command->System_0 is Resize ==> after_editor_command(
            s,
            command,
        ).quit_time == s.quit_time,
{
}

/// No command takes the count of refused Ctrl-Q presses to the limit, and
/// no command undoes a quit.
pub proof fn law_commands_keep_quit_state(s: EditorState, command: Command)
    requires
        s.quit_time < QUIT_TIMES,
    ensures
        after_editor_command(s, command).quit_time < QUIT_TIMES,
        s.should_quit ==> after_editor_command(s, command).should_quit,
{
}

/// Released and repeated keys, and events other than keys and resizes, leave
/// the editor as it is.
pub proof fn law_ignored_events_change_nothing(s: EditorState, event: Event)
    requires
        !should_process(event),
    ensures
        after_event(s, event) == s,
{
}

/// What to draw on the screen: the rows of each part that must be drawn
/// again, and where the caret goes.
pub struct Frame {
    /// The row of the message bar, and its text when it must be drawn.
    pub message: (usize, Option<String>),
    /// The row of the status bar, when the screen has room for it.
    pub status_row: Option<usize>,
    /// The rows of the view, from the top of the screen, when it must be
    /// drawn.
    pub view_rows: Option<Vec<String>>,
    /// The caret's position on screen.
    pub caret: Position,
}

/// The editor: a view of the document, a message bar, and the count of
/// refused Ctrl-Q presses.
pub struct Editor {
    should_quit: bool,
    view: View,
    message_bar: MessageBar,
    terminal_size: Size,
    title: String,
    quit_time: u8,
}

impl Editor {
    /// The editor as plain values.
    pub closed spec fn model(&self) -> EditorState {
        EditorState {
            should_quit: self.should_quit,
            quit_time: self.quit_time,
            view: self.view.model(),
            message_bar: self.message_bar.model(),
            terminal_size: self.terminal_size,
            title: self.title@,
        }
    }

    /// The view the editor shows.
    pub closed spec fn view_spec(&self) -> View {
        self.view
    }

    /// The editor's invariant: a valid view, and fewer refused Ctrl-Q
    /// presses than it takes to quit.
    pub closed spec fn wf(&self) -> bool {
        &&& self.view.wf()
        &&& self.quit_time < QUIT_TIMES
    }

    /// What the editor's invariant gives callers: the document's counts fit
    /// a `usize` (so the view laws apply), and fewer Ctrl-Q presses were
    /// refused than it takes to quit (so the quit laws apply).
    pub proof fn lemma_wf(&self)
        requires
            self.wf(),
        ensures
            lines_fit(self.model().view.lines),
            self.model().quit_time < QUIT_TIMES,
    {
        self.view.lemma_wf();
    }

    /// An editor on a terminal of `size`, with an empty document, showing the
    /// help message.
    pub fn new(cjk_width: bool, size: Size) -> (e: Editor)
        ensures
            e.wf(),
            e.model() == (EditorState {
                should_quit: false,
                quit_time: 0,
                view: resized(
                    empty_view(cjk_width),
                    Size { width: size.width, height: sat_sub(size.height, 2) },
                ),
                message_bar: MessageBarState {
                    text: help_message(),
                    needs_redraw: true,
                    size: Size { width: size.width, height: 1 },
                    cleared_after_expiry: false,
                },
                terminal_size: size,
                title: Seq::empty(),
            }),
            e.view_spec().buffer().file_info.path is None,
    {
        let view = View::new(cjk_width);
        assert(view.model().lines =~= Seq::<Seq<Seq<char>>>::empty());
        assert(view.model() == empty_view(cjk_width));
        let mut editor = Editor {
            should_quit: false,
            view,
            message_bar: MessageBar::default(),
            terminal_size: Size::default(),
            title: String::new(),
            quit_time: 0,
        };
        editor.resize(size);
        editor.message_bar.update_message(String::from_str("HELP: Ctrl-S = save | Ctrl-Q = quit"));
        editor
    }

    /// Shows the loaded document, or, when the file at `path` could not be
    /// read, says so in the message bar.
    pub fn load(&mut self, loaded: Option<Buffer>, path: &str)
        requires
            old(self).wf(),
            loaded matches Some(b) ==> b.wf(),
        ensures
            final(self).wf(),
            loaded matches Some(b) ==> {
                &&& final(self).view_spec().buffer() == b
                &&& final(self).model() == (EditorState {
                    view: ViewState {
                        lines: b.model(),
                        cjk: b.cjk_width,
                        dirty: b.dirty,
                        needs_redraw: true,
                        ..old(self).model().view
                    },
                    ..old(self).model()
                })
            },
            loaded is None ==> final(self).model() == (EditorState {
                message_bar: with_message(old(self).model().message_bar, open_failed_message(path@)),
                ..old(self).model()
            }) && final(self).view_spec() == old(self).view_spec(),
    {
        match loaded {
            Some(buffer) => self.view.load(buffer),
            None => {
                let mut message = String::from_str("ERR: Could not open file: ");
                message.append(path);
                self.message_bar.update_message(message);
            },
        }
    }

    /// The view the editor shows.
    pub fn view(&self) -> (v: &View)
        ensures
            *v == self.view_spec(),
    {
        &self.view
    }

    /// The message bar.
    pub fn message_bar(&self) -> (b: &MessageBar)
        ensures
            b.model() == self.model().message_bar,
    {
        &self.message_bar
    }

    /// Where and what to write when the document is saved: its file and
    /// its text, when it has a file.
    pub fn save_target(&self) -> (target: Option<(&PathBuf, String)>)
        requires
            self.wf(),
        ensures
            target is Some <==> self.view_spec().buffer().file_info.path is Some,
            target matches Some(t) ==> self.view_spec().buffer().file_info.path == Some(*t.0)
                && t.1@ == joined_lines(self.model().view.lines),
    {
        proof {
            self.view.lemma_wf();
        }
        let document = self.view.document();
        match &document.file_info.path {
            Some(path) => Some((path, document.contents())),
            None => None,
        }
    }

    /// Whether the editor is done.
    pub fn should_quit(&self) -> (b: bool)
        ensures
            b == self.model().should_quit,
    {
        self.should_quit
    }

    /// The size of the terminal.
    pub fn terminal_size(&self) -> (size: Size)
        ensures
            size == self.model().terminal_size,
    {
        self.terminal_size
    }

    /// Takes the terminal's new size: the view gets all rows but two, the
    /// message bar one.
    pub fn resize(&mut self, size: Size)
        requires
            old(self).wf(),
        ensures
            final(self).wf(),
            final(self).model() == editor_resized(old(self).model(), size),
            final(self).view_spec().buffer() == old(self).view_spec().buffer(),
    {
        self.terminal_size = size;
        self.view.resize(Size { width: size.width, height: size.height.saturating_sub(2) });
        self.message_bar.resize(Size { width: size.width, height: 1 });
    }

    /// The title for a document named `filename`, when it differs from the
    /// title last set.
    pub fn title_for(&self, filename: &str) -> (t: Option<String>)
        ensures
            t matches Some(title) ==> title@ == title_text(filename@),
            t is Some <==> title_text(filename@) != self.model().title,
    {
        let mut title = String::from_str(filename);
        title.append(" - ");
        title.append(NAME);
        if title == self.title {
            None
        } else {
            Some(title)
        }
    }

    /// Reads the document's status and gives the window title for it, when
    /// it differs from the title last set.  Unnamed documents are titled
    /// "[No Name] - hecto".
    pub fn refresh_status(&self) -> (t: Option<String>)
        requires
            self.wf(),
        ensures
            exists|name: Seq<char>|
                (t is Some <==> #[trigger] title_text(name) != self.model().title) && (t matches Some(
                    title,
                ) ==> title@ == title_text(name)),
            self.view_spec().buffer().file_info.path is None ==> (t matches Some(title)
                ==> title@ == title_text(no_name())) && (t is Some <==> title_text(no_name())
                != self.model().title),
    {
        let status = self.view.get_status();
        self.title_for(status.filename.as_str())
    }

    /// Records the title that was set on the terminal.
    pub fn set_title(&mut self, title: String)
        ensures
            final(self).model() == (EditorState { title: title@, ..old(self).model() }),
            final(self).view_spec() == old(self).view_spec(),
    {
        self.title = title;
    }

    /// Ctrl-Q.
    fn handle_quit(&mut self)
        requires
            old(self).wf(),
        ensures
            final(self).wf(),
            final(self).model() == quit_pressed(old(self).model()),
            final(self).view_spec() == old(self).view_spec(),
    {
        let is_modified = self.view.get_status().is_modified;
        if !is_modified || self.quit_time + 1 == QUIT_TIMES {
            self.should_quit = true;
        } else {
            self.quit_time = self.quit_time + 1;
            let mut message = String::from_str("WARNING! File has unsaved changes. Press Ctrl-Q ");
            push_decimal(&mut message, (QUIT_TIMES - self.quit_time) as usize);
            message.append(" times to quit.");
            self.message_bar.update_message(message);
        }
    }

    /// Restarts the count of Ctrl-Q presses.
    fn reset_quit_time(&mut self)
        requires
            old(self).wf(),
        ensures
            final(self).wf(),
            final(self).model() == quit_count_reset(old(self).model()),
            final(self).view_spec() == old(self).view_spec(),
    {
        if self.quit_time > 0 {
            self.quit_time = 0;
            self.message_bar.update_message(String::new());
        }
    }

    /// The view command of an edit.
    fn edit_to_view_command(edit: Edit) -> (c: EditorCommand)
        ensures
            c == edit_command(edit),
    {
        match edit {
            Edit::Insert(c) => EditorCommand::Insert(c),
            Edit::InsertNewLine => EditorCommand::Enter,
            Edit::Delete => EditorCommand::Delete,
            Edit::DeleteBackward => EditorCommand::Backspace,
        }
    }

    /// The view command of a caret movement.
    fn move_to_view_command(movement: Move) -> (c: EditorCommand)
        ensures
            c == move_command(movement),
    {
        EditorCommand::Move(
            match movement {
                Move::Up => Direction::Up,
                Move::Down => Direction::Down,
                Move::Left => Direction::Left,
                Move::Right => Direction::Right,
                Move::PageUp => Direction::PageUp,
                Move::PageDown => Direction::PageDown,
                Move::Home => Direction::Home,
                Move::End => Direction::End,
            },
        )
    }

    /// Whether `command` can be carried out now (see
    /// `editor_command_allowed`).
    pub fn allows(&self, command: Command) -> (b: bool)
        requires
            self.wf(),
        ensures
            b == editor_command_allowed(self.model(), command),
    {
        match command {
            Command::Edit(edit) => self.view.allows(Self::edit_to_view_command(edit)),
            _ => true,
        }
    }

    /// Carries out `command`.  Saving is left to the caller: the result says
    /// when to write the document.
    pub fn process_command(&mut self, command: Command) -> (action: Action)
        requires
            old(self).wf(),
            editor_command_allowed(old(self).model(), command),
        ensures
            final(self).wf(),
            final(self).model() == after_editor_command(old(self).model(), command),
            command matches Command::Edit(edit) ==> line_texts(final(self).model().view.lines)
                == command_texts(old(self).model().view, edit_command(edit)),
            action == (if command == Command::System(System::Save) {
                Action::Save
            } else {
                Action::Continue
            }),
            final(self).view_spec().buffer().file_info == old(self).view_spec().buffer().file_info,
    {
        match command {
            Command::System(System::Quit) => self.handle_quit(),
            Command::System(System::Resize(size)) => self.resize(size),
            _ => self.reset_quit_time(),
        }
        match command {
            Command::System(System::Quit) | Command::System(System::Resize(_)) => Action::Continue,
            Command::System(System::Save) => Action::Save,
            Command::Edit(edit) => {
                self.view.handle_command(Self::edit_to_view_command(edit));
                Action::Continue
            },
            Command::Move(movement) => {
                self.view.handle_command(Self::move_to_view_command(movement));
                Action::Continue
            },
        }
    }

    /// Whether `event` can be handled now (see `event_allowed`).
    pub fn allows_event(&self, event: Event) -> (b: bool)
        requires
            self.wf(),
        ensures
            b == event_allowed(self.model(), event),
    {
        let should_process = match event {
            Event::Key(key) => key.kind == KeyEventKind::Press,
            Event::Resize(_, _) => true,
            Event::Other => false,
        };
        if should_process {
            match Command::try_from(event) {
                Ok(command) => self.allows(command),
                Err(_) => true,
            }
        } else {
            true
        }
    }

    /// Handles a terminal event: key presses and resizes become commands,
    /// other events are ignored.
    pub fn evaluate_event(&mut self, event: Event) -> (action: Action)
        requires
            old(self).wf(),
            event_allowed(old(self).model(), event),
        ensures
            final(self).wf(),
            final(self).model() == after_event(old(self).model(), event),
            action == (if event_processed(event) && command_for_event(event)->Ok_0
                == Command::System(System::Save) {
                Action::Save
            } else {
                Action::Continue
            }),
            final(self).view_spec().buffer().file_info == old(self).view_spec().buffer().file_info,
    {
        let should_process = match event {
            Event::Key(key) => key.kind == KeyEventKind::Press,
            Event::Resize(_, _) => true,
            Event::Other => false,
        };
        if should_process {
            match Command::try_from(event) {
                Ok(command) => self.process_command(command),
                Err(_) => Action::Continue,
            }
        } else {
            Action::Continue
        }
    }

    /// Reports how writing the document went.
    pub fn handle_save(&mut self, outcome: SaveOutcome)
        requires
            old(self).wf(),
        ensures
            final(self).wf(),
            final(self).model() == after_save(old(self).model(), outcome),
            final(self).view_spec().buffer().file_info == old(self).view_spec().buffer().file_info,
    {
        match outcome {
            SaveOutcome::Written => {
                self.view.save(true);
                self.message_bar.update_message(String::from_str("File saved successfully."));
            },
            SaveOutcome::NoFile => {
                self.message_bar.update_message(String::from_str("File saved successfully."));
            },
            SaveOutcome::Failed => {
                self.message_bar.update_message(String::from_str("Error writing file!"));
            },
        }
    }

    /// What to draw now: nothing on a screen without rows or columns; else
    /// the message bar on the last row, the status bar on the row above when
    /// there are two rows, and the view from the top when there are three.
    /// A part is handed out when it must be drawn again, and counts as drawn
    /// from then on.
    pub fn refresh_screen(&mut self) -> (frame: Option<Frame>)
        requires
            old(self).wf(),
        ensures
            final(self).wf(),
            final(self).view_spec().buffer() == old(self).view_spec().buffer(),
            final(self).model().should_quit == old(self).model().should_quit,
            final(self).model().quit_time == old(self).model().quit_time,
            final(self).model().terminal_size == old(self).model().terminal_size,
            final(self).model().title == old(self).model().title,
            frame is None <==> old(self).model().terminal_size.width == 0
                || old(self).model().terminal_size.height == 0,
            frame is None ==> final(self).model() == old(self).model(),
            frame matches Some(f) ==> {
                let s = old(self).model();
                let height = s.terminal_size.height;
                &&& f.message.0 == height - 1
                &&& (f.message.1 matches Some(text) ==> exists|elapsed_nanos: u128|
                    text@ == shown_text(s.message_bar, #[trigger] expired_after(elapsed_nanos))
                        && final(self).model().message_bar == (MessageBarState {
                        needs_redraw: false,
                        ..drawn(s.message_bar, expired_after(elapsed_nanos))
                    }))
                &&& (f.message.1 is None ==> final(self).model().message_bar == s.message_bar
                    && exists|elapsed_nanos: u128|
                    !redraw_needed(s.message_bar, #[trigger] expired_after(elapsed_nanos)))
                &&& f.status_row == (if height > 1 {
                    Some((height - 2) as usize)
                } else {
                    None::<usize>
                })
                &&& (if height > 2 && s.view.needs_redraw {
                    &&& f.view_rows matches Some(rows)
                    &&& rows@.len() == s.view.size.height
                    &&& forall|i: int|
                        0 <= i < rows@.len() ==> #[trigger] rows@[i]@ == row_text(
                            s.view,
                            i as usize,
                        )
                    &&& final(self).model().view == (ViewState { needs_redraw: false, ..s.view })
                } else {
                    f.view_rows is None && final(self).model().view == s.view
                })
                &&& f.caret.col == sat_sub(text_position(s.view).col, s.view.offset.col)
                &&& f.caret.row == sat_sub(text_position(s.view).row, s.view.offset.row)
            },
    {
        let size = self.terminal_size;
        if size.width == 0 || size.height == 0 {
            return None;
        }
        let message_text = if self.message_bar.needs_redraw() {
            let text = self.message_bar.draw();
            self.message_bar.set_need_redraw(false);
            Some(text)
        } else {
            None
        };
        let status_row = if size.height > 1 {
            Some(size.height - 2)
        } else {
            None
        };
        let view_rows = if size.height > 2 && self.view.needs_redraw() {
            let rows = self.view.draw_rows(0);
            self.view.mark_redraw(false);
            Some(rows)
        } else {
            None
        };
        let caret = self.view.caret_position();
        let frame = Frame { message: (size.height - 1, message_text), status_row, view_rows, caret };
        let ghost bar = old(self).model().message_bar;
        assert(frame.message.1 matches Some(text) ==> exists|elapsed_nanos: u128|
            text@ == shown_text(bar, #[trigger] expired_after(elapsed_nanos))
                && self.model().message_bar == (MessageBarState {
                needs_redraw: false,
                ..drawn(bar, expired_after(elapsed_nanos))
            }));
        Some(frame)
    }
}

} // verus!
