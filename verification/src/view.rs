//! The view: the part of the document shown on screen, the caret in it, and
//! how commands move the caret and change the document.
use crate::buffer::{
    buffer_after_delete, buffer_after_insert, buffer_after_newline,
    law_insert_then_delete_restores_text, line_fits, line_texts, texts_after_delete,
    texts_after_insert, Buffer,
};
use crate::documentstatus::DocumentStatus;
use crate::editorcommand::{Direction, EditorCommand};
use crate::fileinfo::no_name;
use crate::line::{
    column, drawn_range, first_overflowing, first_reaching, inserted_text, lemma_column_monotonic,
    visible_text,
};
use crate::unicode::{grapheme_clusters, push_char, str_width};
use crate::{NAME, VERSION};
use vstd::string::*;
use crate::location::Location;
use crate::terminal::{Position, Size};
use vstd::prelude::*;
use vstd::view::View as _;

verus! {

/// Everything the view's behavior depends on, as plain values.
pub struct ViewState {
    /// The graphemes of each line of the document.
    pub lines: Seq<Seq<Seq<char>>>,
    /// Whether columns are counted in East Asian widths.
    pub cjk: bool,
    /// Whether the document changed since it was loaded or saved.
    pub dirty: bool,
    /// The size of the view on screen.
    pub size: Size,
    /// The grapheme index the caret tries to keep when it moves up or down.
    pub target: usize,
    /// Where the caret is in the text.
    pub location: Location,
    /// The text position shown in the top left cell of the view.
    pub offset: Position,
    /// Whether the view must be drawn again.
    pub needs_redraw: bool,
}

/// `a - b`, or 0 when `b` is larger.
pub open spec fn sat_sub(a: usize, b: usize) -> usize {
    if a >= b {
        (a - b) as usize
    } else {
        0
    }
}

/// `a + b`, or the largest `usize` when that overflows.
pub open spec fn sat_add(a: usize, b: usize) -> usize {
    if a + b > usize::MAX {
        usize::MAX
    } else {
        (a + b) as usize
    }
}

/// The smaller of two numbers.
pub open spec fn min_usize(a: usize, b: usize) -> usize {
    if a <= b {
        a
    } else {
        b
    }
}

/// The number of graphemes of line `i`, or 0 past the last line.
pub open spec fn line_len(lines: Seq<Seq<Seq<char>>>, i: usize) -> usize {
    if i < lines.len() {
        lines[i as int].len() as usize
    } else {
        0
    }
}

/// Every line count and line length fits a `usize`.
pub open spec fn lines_fit(lines: Seq<Seq<Seq<char>>>) -> bool {
    &&& lines.len() <= usize::MAX
    &&& forall|i: int| 0 <= i < lines.len() ==> #[trigger] lines[i].len() <= usize::MAX
}

/// The caret is on a line of the document, or at the start of the place just
/// past the last line.
pub open spec fn location_valid(s: ViewState) -> bool {
    &&& s.location.line_index <= s.lines.len()
    &&& s.location.line_index == s.lines.len() ==> s.location.grapheme_index == 0
}

/// The screen position of the caret in the text: its line as row, and the
/// width of the graphemes before it on its line as column.
pub open spec fn text_position(s: ViewState) -> Position {
    let row = s.location.line_index;
    let col = if row < s.lines.len() {
        let line = s.lines[row as int];
        let k = if s.location.grapheme_index <= line.len() {
            s.location.grapheme_index as int
        } else {
            line.len() as int
        };
        column(line, s.cjk, k)
    } else {
        0
    };
    Position { col, row }
}

/// The new offset along one axis that brings `pos` into a window of
/// `extent` cells that starts at `offset`.
pub open spec fn scroll_axis(pos: usize, offset: usize, extent: usize) -> usize {
    if pos < offset {
        pos
    } else if pos >= sat_add(offset, extent) {
        sat_add(sat_sub(pos, extent), 1)
    } else {
        offset
    }
}

/// Whether `scroll_axis` moves the offset.
pub open spec fn scroll_axis_moves(pos: usize, offset: usize, extent: usize) -> bool {
    pos < offset || pos >= sat_add(offset, extent)
}

/// Scrolls the view so that the caret is in it; a scroll asks for a redraw.
pub open spec fn scrolled(s: ViewState) -> ViewState {
    let p = text_position(s);
    let moves = scroll_axis_moves(p.row, s.offset.row, s.size.height) || scroll_axis_moves(
        p.col,
        s.offset.col,
        s.size.width,
    );
    ViewState {
        offset: Position {
            col: scroll_axis(p.col, s.offset.col, s.size.width),
            row: scroll_axis(p.row, s.offset.row, s.size.height),
        },
        needs_redraw: s.needs_redraw || moves,
        ..s
    }
}

/// The caret keeps its line and takes the target grapheme, or the end of the
/// line when the line is shorter.
pub open spec fn snapped_to_grapheme(s: ViewState) -> ViewState {
    let line = s.location.line_index;
    let g = if line < s.lines.len() {
        min_usize(line_len(s.lines, line), s.target)
    } else {
        0
    };
    ViewState { location: Location { grapheme_index: g, line_index: line }, ..s }
}

/// The caret goes no further down than just past the last line.
pub open spec fn snapped_to_line(s: ViewState) -> ViewState {
    let line = min_usize(s.lines.len() as usize, s.location.line_index);
    ViewState {
        location: Location { grapheme_index: s.location.grapheme_index, line_index: line },
        ..s
    }
}

/// The caret moves `step` lines up.
pub open spec fn moved_up(s: ViewState, step: usize) -> ViewState {
    snapped_to_grapheme(
        ViewState {
            location: Location {
                grapheme_index: s.location.grapheme_index,
                line_index: sat_sub(s.location.line_index, step),
            },
            ..s
        },
    )
}

/// The caret moves `step` lines down.
pub open spec fn moved_down(s: ViewState, step: usize) -> ViewState {
    snapped_to_grapheme(
        snapped_to_line(
            ViewState {
                location: Location {
                    grapheme_index: s.location.grapheme_index,
                    line_index: sat_add(s.location.line_index, step),
                },
                ..s
            },
        ),
    )
}

/// The caret goes to the start of its line.
pub open spec fn moved_to_start_of_line(s: ViewState) -> ViewState {
    ViewState {
        location: Location { grapheme_index: 0, line_index: s.location.line_index },
        target: 0,
        ..s
    }
}

/// The caret goes to the end of its line.
pub open spec fn moved_to_end_of_line(s: ViewState) -> ViewState {
    let g = line_len(s.lines, s.location.line_index);
    ViewState {
        location: Location { grapheme_index: g, line_index: s.location.line_index },
        target: g,
        ..s
    }
}

/// The caret moves one grapheme left, to the end of the line above from the
/// start of a line.
pub open spec fn moved_left(s: ViewState) -> ViewState {
    if s.location.grapheme_index > 0 {
        let g = (s.location.grapheme_index - 1) as usize;
        ViewState {
            location: Location { grapheme_index: g, line_index: s.location.line_index },
            target: g,
            ..s
        }
    } else if s.location.line_index > 0 {
        moved_to_end_of_line(moved_up(s, 1))
    } else {
        s
    }
}

/// The caret moves one grapheme right, to the start of the line below from
/// the end of a line.
pub open spec fn moved_right(s: ViewState) -> ViewState {
    if s.location.grapheme_index < line_len(s.lines, s.location.line_index) {
        let g = (s.location.grapheme_index + 1) as usize;
        ViewState {
            location: Location { grapheme_index: g, line_index: s.location.line_index },
            target: g,
            ..s
        }
    } else {
        moved_to_start_of_line(moved_down(s, 1))
    }
}

/// Where the caret goes in `direction`, before the view scrolls (a page is
/// one row less than the view is high).
pub open spec fn stepped(s: ViewState, direction: Direction) -> ViewState {
    let page = sat_sub(s.size.height, 1);
    match direction {
        Direction::Up => moved_up(s, 1),
        Direction::Down => moved_down(s, 1),
        Direction::Left => moved_left(s),
        Direction::Right => moved_right(s),
        Direction::PageUp => moved_up(s, page),
        Direction::PageDown => moved_down(s, page),
        Direction::Home => moved_to_start_of_line(s),
        Direction::End => moved_to_end_of_line(s),
    }
}

/// The caret moves in `direction` and the view scrolls to it.
pub open spec fn moved(s: ViewState, direction: Direction) -> ViewState {
    scrolled(stepped(s, direction))
}

/// `ch` is put at the caret; the caret moves right past it when its line
/// gained a grapheme, and the target follows the caret.
pub open spec fn inserted(s: ViewState, ch: char) -> ViewState {
    let line = s.location.line_index;
    let old_len = line_len(s.lines, line);
    let edited = ViewState {
        lines: buffer_after_insert(s.lines, s.location, ch),
        dirty: s.dirty || line <= s.lines.len(),
        ..s
    };
    let stepped = if line_len(edited.lines, line) > old_len {
        moved(edited, Direction::Right)
    } else {
        edited
    };
    ViewState { target: stepped.location.grapheme_index, ..stepped }
}

/// `inserted`, then the view scrolls to the caret and asks for a redraw.
pub open spec fn after_insert(s: ViewState, ch: char) -> ViewState {
    ViewState { needs_redraw: true, ..scrolled(inserted(s, ch)) }
}

/// The grapheme at the caret, or the line break at the end of its line, is
/// deleted.
pub open spec fn deleted(s: ViewState) -> ViewState {
    let line = s.location.line_index as int;
    let g = s.location.grapheme_index as int;
    let changes = g < s.lines[line].len() || (g == s.lines[line].len() && line + 1
        < s.lines.len());
    ViewState {
        lines: buffer_after_delete(s.lines, s.location),
        dirty: s.dirty || changes,
        ..s
    }
}

/// `deleted`, then the view scrolls to the caret and asks for a redraw.
pub open spec fn after_delete(s: ViewState) -> ViewState {
    ViewState { needs_redraw: true, ..scrolled(deleted(s)) }
}

/// The caret moves left and what is then at the caret is deleted; nothing
/// happens at the start of the text.
pub open spec fn after_backspace(s: ViewState) -> ViewState {
    if s.location.line_index == 0 && s.location.grapheme_index == 0 {
        s
    } else {
        after_delete(moved(s, Direction::Left))
    }
}

/// A line break is put at the caret.
pub open spec fn broken(s: ViewState) -> ViewState {
    ViewState {
        lines: buffer_after_newline(s.lines, s.location),
        dirty: s.dirty || s.location.line_index <= s.lines.len(),
        ..s
    }
}

/// A line break is put at the caret and the caret moves right, to the start
/// of the new line; the view asks for a redraw.
pub open spec fn after_newline(s: ViewState) -> ViewState {
    ViewState { needs_redraw: true, ..moved(broken(s), Direction::Right) }
}

/// What a command does to the view.  Resizing and quitting are handled
/// elsewhere and leave the view as it is.
pub open spec fn after_command(s: ViewState, command: EditorCommand) -> ViewState {
    match command {
        EditorCommand::Resize(_) | EditorCommand::Quit => s,
        EditorCommand::Move(direction) => moved(s, direction),
        EditorCommand::Insert(ch) => after_insert(s, ch),
        EditorCommand::Backspace => after_backspace(s),
        EditorCommand::Delete => after_delete(s),
        EditorCommand::Enter => after_newline(s),
    }
}

/// The text of each line after `command`: typing and deleting change the
/// text as `texts_after_insert` and `texts_after_delete` say (the changed
/// line is then split into graphemes afresh); every other command leaves the
/// texts as its own line model gives them.
pub open spec fn command_texts(s: ViewState, command: EditorCommand) -> Seq<Seq<char>> {
    match command {
        EditorCommand::Insert(ch) => texts_after_insert(s.lines, s.location, ch),
        EditorCommand::Delete => texts_after_delete(s.lines, s.location),
        EditorCommand::Backspace => if s.location.line_index == 0 && s.location.grapheme_index
            == 0 {
            line_texts(s.lines)
        } else {
            texts_after_delete(s.lines, moved(s, Direction::Left).location)
        },
        _ => line_texts(after_command(s, command).lines),
    }
}

/// A command that the view can carry out in state `s`: Delete needs the
/// caret on a line of the document, and so does Backspace once it has moved
/// the caret one step left (unless the caret is at the very start).
pub open spec fn command_allowed(s: ViewState, command: EditorCommand) -> bool {
    match command {
        EditorCommand::Delete => s.location.line_index < s.lines.len(),
        EditorCommand::Backspace => (s.location.line_index == 0 && s.location.grapheme_index == 0)
            || moved(s, Direction::Left).location.line_index < s.lines.len(),
        _ => true,
    }
}

/// The view takes a new size, scrolls to the caret and asks for a redraw.
pub open spec fn resized(s: ViewState, size: Size) -> ViewState {
    ViewState { needs_redraw: true, ..scrolled(ViewState { size, ..s }) }
}

/// The caret is inside the view.
pub open spec fn caret_visible(s: ViewState) -> bool {
    let p = text_position(s);
    &&& s.offset.row <= p.row < s.offset.row + s.size.height
    &&& s.offset.col <= p.col < s.offset.col + s.size.width
}

/// Once the view has scrolled to the caret, the caret is inside the view,
/// whenever the view is at least one cell wide and high.
pub proof fn law_scroll_shows_caret(s: ViewState)
    requires
        s.size.width >= 1,
        s.size.height >= 1,
    ensures
        caret_visible(scrolled(s)),
        text_position(scrolled(s)) == text_position(s),
{
}

/// Resizing to a size of at least one cell shows the caret.
pub proof fn law_resize_shows_caret(s: ViewState, size: Size)
    requires
        size.width >= 1,
        size.height >= 1,
    ensures
        caret_visible(resized(s, size)),
{
    law_scroll_shows_caret(ViewState { size, ..s });
}

/// A step of the caret keeps it in the text.
proof fn lemma_step_keeps_caret_in_text(s: ViewState, direction: Direction)
    requires
        location_valid(s),
        lines_fit(s.lines),
    ensures
        location_valid(moved(s, direction)),
        moved(s, direction).lines == s.lines,
{
}

/// Putting a character at the caret keeps it in the text.
proof fn lemma_insert_keeps_caret_in_text(s: ViewState, ch: char)
    requires
        location_valid(s),
        lines_fit(s.lines),
        s.lines.len() < usize::MAX,
    ensures
        location_valid(after_insert(s, ch)),
{
    let line = s.location.line_index;
    let edited = ViewState {
        lines: buffer_after_insert(s.lines, s.location, ch),
        dirty: s.dirty || line <= s.lines.len(),
        ..s
    };
    assert(location_valid(edited));
    if line_len(edited.lines, line) > line_len(s.lines, line) {
        assert(line < edited.lines.len());
        assert(location_valid(moved_right(edited)));
    }
}

/// Deleting at the caret keeps it in the text.
proof fn lemma_delete_keeps_caret_in_text(s: ViewState)
    requires
        location_valid(s),
        s.location.line_index < s.lines.len(),
    ensures
        location_valid(after_delete(s)),
{
    assert(location_valid(deleted(s)));
}

/// A line break at the caret keeps it in the text.
proof fn lemma_newline_keeps_caret_in_text(s: ViewState)
    requires
        location_valid(s),
        lines_fit(s.lines),
        s.lines.len() < usize::MAX,
    ensures
        location_valid(after_newline(s)),
{
    let b = broken(s);
    assert(location_valid(b));
    assert(b.lines.len() == s.lines.len() + 1);
    assert(location_valid(moved_right(b)));
}

/// Every command keeps the caret on a line of the document or at the start
/// of the place just past the last line.
pub proof fn law_command_keeps_caret_in_text(s: ViewState, command: EditorCommand)
    requires
        location_valid(s),
        lines_fit(s.lines),
        s.lines.len() < usize::MAX,
        command_allowed(s, command),
    ensures
        location_valid(after_command(s, command)),
{
    match command {
        EditorCommand::Move(direction) => lemma_step_keeps_caret_in_text(s, direction),
        EditorCommand::Insert(ch) => lemma_insert_keeps_caret_in_text(s, ch),
        EditorCommand::Backspace => {
            if !(s.location.line_index == 0 && s.location.grapheme_index == 0) {
                lemma_step_keeps_caret_in_text(s, Direction::Left);
                lemma_delete_keeps_caret_in_text(moved(s, Direction::Left));
            }
        },
        EditorCommand::Delete => lemma_delete_keeps_caret_in_text(s),
        EditorCommand::Enter => lemma_newline_keeps_caret_in_text(s),
        _ => {},
    }
}

/// Putting a character at the caret leaves the caret in view.
proof fn lemma_insert_shows_caret(s: ViewState, ch: char)
    requires
        s.size.width >= 1,
        s.size.height >= 1,
    ensures
        caret_visible(after_insert(s, ch)),
{
    law_scroll_shows_caret(inserted(s, ch));
}

/// Deleting at the caret leaves the caret in view.
proof fn lemma_delete_shows_caret(s: ViewState)
    requires
        s.size.width >= 1,
        s.size.height >= 1,
    ensures
        caret_visible(after_delete(s)),
{
    law_scroll_shows_caret(deleted(s));
}

/// A move leaves the caret in view.
proof fn lemma_move_shows_caret(s: ViewState, direction: Direction)
    requires
        s.size.width >= 1,
        s.size.height >= 1,
    ensures
        caret_visible(moved(s, direction)),
{
    law_scroll_shows_caret(stepped(s, direction));
}

/// A line break leaves the caret in view.
proof fn lemma_newline_shows_caret(s: ViewState)
    requires
        s.size.width >= 1,
        s.size.height >= 1,
    ensures
        caret_visible(after_newline(s)),
{
    lemma_move_shows_caret(broken(s), Direction::Right);
}

/// A view that shows the caret still shows it after any command, as long as
/// it is at least one cell wide and high.
pub proof fn law_command_keeps_caret_visible(s: ViewState, command: EditorCommand)
    requires
        s.size.width >= 1,
        s.size.height >= 1,
        caret_visible(s),
    ensures
        caret_visible(after_command(s, command)),
{
    match command {
        EditorCommand::Move(direction) => lemma_move_shows_caret(s, direction),
        EditorCommand::Insert(ch) => lemma_insert_shows_caret(s, ch),
        EditorCommand::Backspace => {
            if !(s.location.line_index == 0 && s.location.grapheme_index == 0) {
                lemma_delete_shows_caret(moved(s, Direction::Left));
            }
        },
        EditorCommand::Delete => lemma_delete_shows_caret(s),
        EditorCommand::Enter => lemma_newline_shows_caret(s),
        _ => {},
    }
}

/// The caret is on a grapheme of its line, or at its end.
pub open spec fn caret_on_grapheme(s: ViewState) -> bool {
    s.location.grapheme_index <= line_len(s.lines, s.location.line_index)
}

/// Every caret movement but Left and Right puts the caret on a grapheme of
/// its line, or at its end; Left and Right keep it there.
pub proof fn law_moves_keep_caret_on_grapheme(s: ViewState, direction: Direction)
    requires
        location_valid(s),
        lines_fit(s.lines),
        direction is Left || direction is Right ==> caret_on_grapheme(s),
    ensures
        caret_on_grapheme(moved(s, direction)),
{
}

/// Moving right and then left brings the caret back, from any place on a line
/// of the document.
pub proof fn law_right_then_left(s: ViewState)
    requires
        lines_fit(s.lines),
        s.location.line_index < s.lines.len(),
        s.location.grapheme_index <= s.lines[s.location.line_index as int].len(),
    ensures
        moved(moved(s, Direction::Right), Direction::Left).location == s.location,
{
}

/// Moving left and then right brings the caret back, from any place in the
/// text but its very start.
pub proof fn law_left_then_right(s: ViewState)
    requires
        location_valid(s),
        lines_fit(s.lines),
        s.location.line_index < s.lines.len() ==> s.location.grapheme_index <= s.lines[s.location.line_index as int].len(),
        !(s.location.line_index == 0 && s.location.grapheme_index == 0),
    ensures
        moved(moved(s, Direction::Left), Direction::Right).location == s.location,
{
}

/// Enter and then Backspace bring the caret back to where it was, and the
/// Backspace deletes, at that place, the line break that Enter put there (so
/// every line has its text back: see
/// `buffer::law_newline_then_delete_restores_text`).
pub proof fn law_enter_then_backspace(s: ViewState)
    requires
        location_valid(s),
        lines_fit(s.lines),
        s.lines.len() < usize::MAX,
        s.location.line_index < s.lines.len(),
        s.location.grapheme_index <= s.lines[s.location.line_index as int].len(),
    ensures
        after_backspace(after_newline(s)).location == s.location,
        after_backspace(after_newline(s)).lines == buffer_after_delete(
            buffer_after_newline(s.lines, s.location),
            s.location,
        ),
{
    let b = broken(s);
    let l = s.location.line_index;
    assert(b.lines[l as int] == s.lines[l as int].subrange(0, s.location.grapheme_index as int));
    let e = after_newline(s);
    assert(e.location.line_index == l + 1 && e.location.grapheme_index == 0);
    assert(e.lines == b.lines);
    let m = moved(e, Direction::Left);
    assert(m.location == s.location);
}

/// Typing a character that stays a grapheme of its own, between the
/// graphemes around it, and then Backspace returns the caret to where it
/// was, and the Backspace deletes, at that place, the character typed (so
/// every line has its text back: see
/// `buffer::law_insert_then_delete_restores_text`).
pub proof fn law_insert_then_backspace(s: ViewState, ch: char)
    requires
        lines_fit(s.lines),
        s.location.line_index < s.lines.len(),
        s.location.grapheme_index <= s.lines[s.location.line_index as int].len(),
        s.lines[s.location.line_index as int].len() < usize::MAX,
        grapheme_clusters(
            inserted_text(
                s.lines[s.location.line_index as int],
                s.location.grapheme_index as int,
                ch,
            ),
        ) == s.lines[s.location.line_index as int].subrange(
            0,
            s.location.grapheme_index as int,
        ).push(seq![ch]) + s.lines[s.location.line_index as int].subrange(
            s.location.grapheme_index as int,
            s.lines[s.location.line_index as int].len() as int,
        ),
    ensures
        after_backspace(after_insert(s, ch)).location == s.location,
        after_backspace(after_insert(s, ch)).lines == buffer_after_delete(
            buffer_after_insert(s.lines, s.location, ch),
            s.location,
        ),
        texts_after_delete(buffer_after_insert(s.lines, s.location, ch), s.location) == line_texts(
            s.lines,
        ),
{
    let l = s.location.line_index as int;
    let g = s.location.grapheme_index as int;
    let line = s.lines[l];
    let new_line = line.subrange(0, g).push(seq![ch]) + line.subrange(g, line.len() as int);
    let typed = after_insert(s, ch);
    assert(buffer_after_insert(s.lines, s.location, ch)[l] == new_line);
    assert(new_line.len() == line.len() + 1);
    assert(typed.lines == buffer_after_insert(s.lines, s.location, ch));
    assert(typed.location == Location {
        grapheme_index: (g + 1) as usize,
        line_index: l as usize,
    });
    let back = moved(typed, Direction::Left);
    assert(back.location == s.location);
    law_insert_then_delete_restores_text(s.lines, s.location, ch);
}

/// Home puts the caret at the start of its line and makes the start of the
/// line the column that later vertical moves aim for: after Home and then
/// Down the caret is at the start of a line.
pub proof fn law_home_resets_target(s: ViewState)
    ensures
        moved(s, Direction::Home).location.grapheme_index == 0,
        moved(s, Direction::Home).location.line_index == s.location.line_index,
        moved(s, Direction::Home).target == 0,
        moved(moved(s, Direction::Home), Direction::Down).location.grapheme_index == 0,
        moved(moved(s, Direction::Home), Direction::Up).location.grapheme_index == 0,
{
}

/// Up and Down move the caret one line (Down stops just past the last line)
/// and put it at the target grapheme, or at the end of a shorter line; the
/// target stays, so a later move can reach it again.
pub proof fn law_vertical_moves_keep_target(s: ViewState)
    requires
        lines_fit(s.lines),
    ensures
        ({
            let d = moved(s, Direction::Down);
            let line = if s.location.line_index + 1 <= s.lines.len() {
                s.location.line_index + 1
            } else {
                s.lines.len() as int
            };
            &&& d.location.line_index == line
            &&& d.target == s.target
            &&& d.location.grapheme_index == (if line < s.lines.len() {
                if s.lines[line].len() < s.target {
                    s.lines[line].len() as int
                } else {
                    s.target as int
                }
            } else {
                0
            })
        }),
        ({
            let u = moved(s, Direction::Up);
            let line = if s.location.line_index >= 1 {
                s.location.line_index - 1
            } else {
                0
            };
            &&& u.location.line_index == line
            &&& u.target == s.target
            &&& u.location.grapheme_index == (if line < s.lines.len() {
                if s.lines[line].len() < s.target {
                    s.lines[line].len() as int
                } else {
                    s.target as int
                }
            } else {
                0
            })
        }),
{
}

/// Scrolling is minimal along each axis: a caret above (left of) the view
/// becomes its first row (column), a caret below (right of) it its last, and
/// a caret inside it leaves the view where it is (where the view's far edge
/// is a `usize`).
pub proof fn law_scroll_is_minimal(s: ViewState)
    ensures
        text_position(s).row < s.offset.row ==> scrolled(s).offset.row == text_position(s).row,
        s.offset.row <= text_position(s).row < s.offset.row + s.size.height
            && s.offset.row + s.size.height <= usize::MAX ==> scrolled(
            s,
        ).offset.row == s.offset.row,
        s.size.height >= 1 && text_position(s).row >= s.offset.row + s.size.height ==> scrolled(
            s,
        ).offset.row == text_position(s).row - s.size.height + 1,
        text_position(s).col < s.offset.col ==> scrolled(s).offset.col == text_position(s).col,
        s.offset.col <= text_position(s).col < s.offset.col + s.size.width
            && s.offset.col + s.size.width <= usize::MAX ==> scrolled(
            s,
        ).offset.col == s.offset.col,
        s.size.width >= 1 && text_position(s).col >= s.offset.col + s.size.width ==> scrolled(
            s,
        ).offset.col == text_position(s).col - s.size.width + 1,
        scrolled(s).location == s.location,
        scrolled(s).lines == s.lines,
{
}

/// A line that is no wider than the view, in a view scrolled fully left, is
/// drawn whole: every grapheme as it is drawn, with no cut marks.
pub proof fn law_fitting_line_drawn_whole(s: ViewState, row: usize)
    requires
        lines_fit(s.lines),
        s.offset.col == 0,
        s.size.width >= 1,
        row + s.offset.row < s.lines.len(),
        column(s.lines[row + s.offset.row], s.cjk, s.lines[row + s.offset.row].len() as int)
            <= s.size.width,
    ensures
        row_text(s, row) == drawn_range(
            s.lines[row + s.offset.row],
            s.cjk,
            0,
            s.lines[row + s.offset.row].len() as int,
        ),
{
    let gs = s.lines[row + s.offset.row];
    let cjk = s.cjk;
    let end = s.size.width as int;
    lemma_fits_first_overflowing(gs, cjk, end, 0);
    let k = first_overflowing(gs, cjk, end, 0);
    assert(k == gs.len());
    assert(first_reaching(gs, cjk, 0, 0, k) == 0);
    assert(sat_add(row, s.offset.row) == row + s.offset.row);
    assert(sat_add(s.offset.col, s.size.width) == s.size.width);
}

/// When the whole of `gs` ends by column `end`, no grapheme from `i` on
/// overflows it.
proof fn lemma_fits_first_overflowing(gs: Seq<Seq<char>>, cjk: bool, end: int, i: int)
    requires
        0 <= i,
        column(gs, cjk, gs.len() as int) <= end,
    ensures
        first_overflowing(gs, cjk, end, i) == gs.len(),
    decreases gs.len() - i,
{
    if i < gs.len() {
        lemma_column_monotonic(gs, cjk, i + 1, gs.len() as int);
        lemma_fits_first_overflowing(gs, cjk, end, i + 1);
    }
}

/// The line shown under the welcome banner: the editor's name and version.
pub open spec fn welcome_text() -> Seq<char> {
    NAME@ + " editor -- version "@ + VERSION@
}

/// `n` spaces.
pub open spec fn spaces(n: int) -> Seq<char> {
    Seq::new(n as nat, |_i: int| ' ')
}

/// The welcome banner in a row `width` cells wide: a tilde, then the welcome
/// text centred in the rest of the row (the extra space, if odd, on the
/// right).  Only the tilde when the text (as wide as it is long) does not
/// fit; nothing in a row of no width.
pub open spec fn welcome_message(width: usize) -> Seq<char> {
    if width == 0 {
        Seq::empty()
    } else if welcome_text().len() >= width {
        seq!['~']
    } else {
        let remaining = width - 1;
        let pad = if remaining > welcome_text().len() {
            remaining - welcome_text().len()
        } else {
            0
        };
        let left = pad / 2;
        seq!['~'] + spaces(left) + welcome_text() + spaces(pad - left)
    }
}

/// What row `row` of the view shows: the visible part of the line scrolled
/// there; in an empty document, the welcome banner a third of the way down;
/// otherwise a tilde.
pub open spec fn row_text(s: ViewState, row: usize) -> Seq<char> {
    let index = sat_add(row, s.offset.row);
    if index < s.lines.len() {
        visible_text(
            s.lines[index as int],
            s.cjk,
            s.offset.col,
            sat_add(s.offset.col, s.size.width),
        )
    } else if row == s.size.height / 3 && s.lines.len() == 0 {
        welcome_message(s.size.width)
    } else {
        seq!['~']
    }
}

/// The part of the document shown on screen, with the caret.
pub struct View {
    buffer: Buffer,
    needs_redraw: bool,
    size: Size,
    target_grapheme_index: usize,
    text_location: Location,
    scroll_offset: Position,
}

impl View {
    /// The view as plain values.
    pub closed spec fn model(&self) -> ViewState {
        ViewState {
            lines: self.buffer.model(),
            cjk: self.buffer.cjk_width,
            dirty: self.buffer.dirty,
            size: self.size,
            target: self.target_grapheme_index,
            location: self.text_location,
            offset: self.scroll_offset,
            needs_redraw: self.needs_redraw,
        }
    }

    /// The document shown.
    pub closed spec fn buffer(&self) -> Buffer {
        self.buffer
    }

    /// The view's invariant: a well-formed document whose counts fit a
    /// `usize`.  The caret may be anywhere, also below the document.
    pub closed spec fn wf(&self) -> bool {
        &&& self.buffer.wf()
        &&& lines_fit(self.model().lines)
    }

    /// A view of an empty document, of no size, with the caret at the start.
    pub fn new(cjk_width: bool) -> (v: View)
        ensures
            v.wf(),
            v.model().lines.len() == 0,
            v.model().cjk == cjk_width,
            !v.model().dirty,
            v.model().size == (Size { width: 0, height: 0 }),
            v.model().location == (Location { grapheme_index: 0, line_index: 0 }),
            v.model().offset == (Position { col: 0, row: 0 }),
            v.model().target == 0,
            !v.model().needs_redraw,
            v.buffer().file_info.path is None,
    {
        View {
            buffer: Buffer::new(cjk_width),
            needs_redraw: false,
            size: Size::default(),
            target_grapheme_index: 0,
            text_location: Location::default(),
            scroll_offset: Position::default(),
        }
    }

    /// Shows `buffer` in place of the current document, and asks for a redraw.
    /// The caret, the scrolling and the size stay as they were.
    pub fn load(&mut self, buffer: Buffer)
        requires
            old(self).wf(),
            buffer.wf(),
        ensures
            final(self).wf(),
            final(self).buffer() == buffer,
            final(self).model() == (ViewState {
                lines: buffer.model(),
                cjk: buffer.cjk_width,
                dirty: buffer.dirty,
                needs_redraw: true,
                ..old(self).model()
            }),
    {
        self.buffer = buffer;
        self.mark_redraw(true);
        proof {
            self.lemma_lines_fit();
        }
    }

    /// What a well-formed view gives callers: its document is well formed
    /// and is what the view's lines model, and the line count and line
    /// lengths fit a `usize` (so the laws over `ViewState` that ask for
    /// `lines_fit` apply to it).
    pub proof fn lemma_wf(&self)
        requires
            self.wf(),
        ensures
            self.buffer().wf(),
            self.model().lines == self.buffer().model(),
            lines_fit(self.model().lines),
    {
    }

    /// The line and grapheme counts of a well-formed document fit a `usize`.
    proof fn lemma_lines_fit(&self)
        ensures
            lines_fit(self.buffer.model()),
    {
        assert(self.buffer.lines.len() == self.buffer.lines@.len());
        assert forall|i: int| 0 <= i < self.buffer.model().len() implies #[trigger] self.buffer.model()[i].len()
            <= usize::MAX by {
            assert(self.buffer.model()[i] == self.buffer.lines@[i]@);
            self.buffer.lines@[i].lemma_len_fits();
        }
    }

    /// Asks for, or cancels, a redraw.
    pub fn mark_redraw(&mut self, value: bool)
        ensures
            final(self).model() == (ViewState { needs_redraw: value, ..old(self).model() }),
            final(self).buffer() == old(self).buffer(),
            old(self).wf() ==> final(self).wf(),
    {
        self.needs_redraw = value;
    }

    /// Whether the view must be drawn again.
    pub fn needs_redraw(&self) -> (b: bool)
        ensures
            b == self.model().needs_redraw,
    {
        self.needs_redraw
    }

    /// Takes a new size and scrolls to the caret.
    pub fn set_size(&mut self, size: Size)
        requires
            old(self).wf(),
        ensures
            final(self).wf(),
            final(self).model() == scrolled(ViewState { size, ..old(self).model() }),
            final(self).buffer() == old(self).buffer(),
    {
        self.size = size;
        self.scroll_text_location_into_view();
    }

    /// Takes a new size, scrolls to the caret and asks for a redraw.
    pub fn resize(&mut self, size: Size)
        requires
            old(self).wf(),
        ensures
            final(self).wf(),
            final(self).model() == resized(old(self).model(), size),
            final(self).buffer() == old(self).buffer(),
    {
        self.set_size(size);
        self.mark_redraw(true);
    }

    /// The number of graphemes of line `i`, or 0 past the last line.
    fn line_length(&self, i: usize) -> (n: usize)
        requires
            self.buffer.wf(),
        ensures
            n == line_len(self.model().lines, i),
    {
        if i < self.buffer.lines.len() {
            assert(line_fits(self.buffer.lines@[i as int], self.buffer.cjk_width));
            self.buffer.lines[i].len()
        } else {
            0
        }
    }

    /// The screen position of the caret in the text.
    fn text_location_to_position(&self) -> (p: Position)
        requires
            self.buffer.wf(),
        ensures
            p == text_position(self.model()),
    {
        let row = self.text_location.line_index;
        let col = if row < self.buffer.lines.len() {
            assert(line_fits(self.buffer.lines@[row as int], self.buffer.cjk_width));
            self.buffer.lines[row].width_until(self.text_location.grapheme_index)
        } else {
            0
        };
        Position { col, row }
    }

    /// The position of the caret on screen, relative to the view.
    pub fn caret_position(&self) -> (p: Position)
        requires
            self.wf(),
        ensures
            p.col == sat_sub(text_position(self.model()).col, self.model().offset.col),
            p.row == sat_sub(text_position(self.model()).row, self.model().offset.row),
    {
        self.text_location_to_position().saturating_sub(self.scroll_offset)
    }

    /// Scrolls the view so that the caret is in it.
    fn scroll_text_location_into_view(&mut self)
        requires
            old(self).wf(),
        ensures
            final(self).wf(),
            final(self).model() == scrolled(old(self).model()),
            final(self).buffer() == old(self).buffer(),
    {
        let Position { col, row } = self.text_location_to_position();
        let Size { width, height } = self.size;
        let mut offset_changed = false;
        if row < self.scroll_offset.row {
            self.scroll_offset.row = row;
            offset_changed = true;
        } else if row >= self.scroll_offset.row.saturating_add(height) {
            self.scroll_offset.row = row.saturating_sub(height).saturating_add(1);
            offset_changed = true;
        }
        if col < self.scroll_offset.col {
            self.scroll_offset.col = col;
            offset_changed = true;
        } else if col >= self.scroll_offset.col.saturating_add(width) {
            self.scroll_offset.col = col.saturating_sub(width).saturating_add(1);
            offset_changed = true;
        }
        if offset_changed {
            self.mark_redraw(true);
        }
    }

    /// The caret keeps its line and takes the target grapheme, or the end of
    /// its line.
    fn snap_to_valid_grapheme(&mut self)
        requires
            old(self).buffer.wf(),
        ensures
            final(self).wf(),
            final(self).model() == snapped_to_grapheme(old(self).model()),
            final(self).buffer() == old(self).buffer(),
    {
        let line = self.text_location.line_index;
        let len = self.line_length(line);
        self.text_location.grapheme_index = if line < self.buffer.lines.len() {
            if len <= self.target_grapheme_index {
                len
            } else {
                self.target_grapheme_index
            }
        } else {
            0
        };
        proof {
            self.lemma_lines_fit();
        }
    }

    /// The caret goes no further down than just past the last line.
    fn snap_to_valid_line(&mut self)
        requires
            old(self).buffer.wf(),
        ensures
            final(self).buffer.wf(),
            final(self).text_location.line_index <= final(self).buffer.model().len(),
            final(self).model() == snapped_to_line(old(self).model()),
            final(self).buffer() == old(self).buffer(),
    {
        let n = self.buffer.len();
        if n < self.text_location.line_index {
            self.text_location.line_index = n;
        }
    }

    /// The caret moves `step` lines up.
    fn move_up(&mut self, step: usize)
        requires
            old(self).wf(),
        ensures
            final(self).wf(),
            final(self).model() == moved_up(old(self).model(), step),
            final(self).buffer() == old(self).buffer(),
    {
        self.text_location.line_index = self.text_location.line_index.saturating_sub(step);
        self.snap_to_valid_grapheme();
    }

    /// The caret moves `step` lines down.
    fn move_down(&mut self, step: usize)
        requires
            old(self).wf(),
        ensures
            final(self).wf(),
            final(self).model() == moved_down(old(self).model(), step),
            final(self).buffer() == old(self).buffer(),
    {
        self.text_location.line_index = self.text_location.line_index.saturating_add(step);
        self.snap_to_valid_line();
        self.snap_to_valid_grapheme();
    }

    /// The caret goes to the start of its line.
    fn move_to_start_of_line(&mut self)
        requires
            old(self).wf(),
        ensures
            final(self).wf(),
            final(self).model() == moved_to_start_of_line(old(self).model()),
            final(self).buffer() == old(self).buffer(),
    {
        self.text_location.grapheme_index = 0;
        self.target_grapheme_index = self.text_location.grapheme_index;
    }

    /// The caret goes to the end of its line.
    fn move_to_end_of_line(&mut self)
        requires
            old(self).wf(),
        ensures
            final(self).wf(),
            final(self).model() == moved_to_end_of_line(old(self).model()),
            final(self).buffer() == old(self).buffer(),
    {
        self.text_location.grapheme_index = self.line_length(self.text_location.line_index);
        self.target_grapheme_index = self.text_location.grapheme_index;
    }

    /// The caret moves one grapheme left.
    fn move_left(&mut self)
        requires
            old(self).wf(),
        ensures
            final(self).wf(),
            final(self).model() == moved_left(old(self).model()),
            final(self).buffer() == old(self).buffer(),
    {
        if self.text_location.grapheme_index > 0 {
            self.text_location.grapheme_index -= 1;
            self.target_grapheme_index = self.text_location.grapheme_index;
        } else if self.text_location.line_index > 0 {
            self.move_up(1);
            self.move_to_end_of_line();
        }
    }

    /// The caret moves one grapheme right.
    fn move_right(&mut self)
        requires
            old(self).wf(),
        ensures
            final(self).wf(),
            final(self).model() == moved_right(old(self).model()),
            final(self).buffer() == old(self).buffer(),
    {
        let line_width = self.line_length(self.text_location.line_index);
        if self.text_location.grapheme_index < line_width {
            self.text_location.grapheme_index += 1;
            self.target_grapheme_index = self.text_location.grapheme_index;
        } else {
            self.move_down(1);
            self.move_to_start_of_line();
        }
    }

    /// The caret moves in `direction` and the view scrolls to it.
    fn move_text_location(&mut self, direction: Direction)
        requires
            old(self).wf(),
        ensures
            final(self).wf(),
            final(self).model() == moved(old(self).model(), direction),
            final(self).buffer() == old(self).buffer(),
    {
        let height = self.size.height;
        match direction {
            Direction::Up => self.move_up(1),
            Direction::Down => self.move_down(1),
            Direction::Left => self.move_left(),
            Direction::Right => self.move_right(),
            Direction::PageUp => self.move_up(height.saturating_sub(1)),
            Direction::PageDown => self.move_down(height.saturating_sub(1)),
            Direction::Home => self.move_to_start_of_line(),
            Direction::End => self.move_to_end_of_line(),
        }
        self.scroll_text_location_into_view();
    }

    /// Puts `ch` at the caret; the caret moves past it when its line gained a
    /// grapheme.
    fn insert(&mut self, ch: char)
        requires
            old(self).wf(),
        ensures
            final(self).wf(),
            final(self).model() == after_insert(old(self).model(), ch),
            line_texts(final(self).model().lines) == texts_after_insert(
                old(self).model().lines,
                old(self).model().location,
                ch,
            ),
            final(self).buffer().file_info == old(self).buffer().file_info,
    {
        let old_len = self.line_length(self.text_location.line_index);
        self.buffer.insert(self.text_location, ch);
        proof {
            self.lemma_lines_fit();
        }
        let new_len = self.line_length(self.text_location.line_index);
        if new_len > old_len {
            self.move_text_location(Direction::Right);
        }
        self.target_grapheme_index = self.text_location.grapheme_index;
        self.scroll_text_location_into_view();
        self.mark_redraw(true);
    }

    /// Deletes the grapheme at the caret, or the line break at the end of its
    /// line.
    fn delete(&mut self)
        requires
            old(self).wf(),
            old(self).model().location.line_index < old(self).model().lines.len(),
        ensures
            final(self).wf(),
            final(self).model() == after_delete(old(self).model()),
            line_texts(final(self).model().lines) == texts_after_delete(
                old(self).model().lines,
                old(self).model().location,
            ),
            final(self).buffer().file_info == old(self).buffer().file_info,
    {
        self.buffer.delete(self.text_location);
        proof {
            self.lemma_lines_fit();
        }
        self.scroll_text_location_into_view();
        self.mark_redraw(true);
    }

    /// Deletes the grapheme before the caret, or the line break before its
    /// line.
    fn backspace(&mut self)
        requires
            old(self).wf(),
            command_allowed(old(self).model(), EditorCommand::Backspace),
        ensures
            final(self).wf(),
            final(self).model() == after_backspace(old(self).model()),
            line_texts(final(self).model().lines) == command_texts(
                old(self).model(),
                EditorCommand::Backspace,
            ),
            final(self).buffer().file_info == old(self).buffer().file_info,
    {
        if self.text_location.line_index == 0 && self.text_location.grapheme_index == 0 {
            return;
        }
        self.move_text_location(Direction::Left);
        self.delete();
    }

    /// Breaks the line at the caret and moves the caret to the new line.
    fn insert_newline(&mut self)
        requires
            old(self).wf(),
        ensures
            final(self).wf(),
            final(self).model() == after_newline(old(self).model()),
            final(self).buffer().file_info == old(self).buffer().file_info,
    {
        self.buffer.insert_newline(self.text_location);
        proof {
            self.lemma_lines_fit();
        }
        self.move_text_location(Direction::Right);
        self.mark_redraw(true);
    }

    /// Carries out `command`.  A Delete needs the caret on a line of the
    /// document.
    pub fn handle_command(&mut self, command: EditorCommand)
        requires
            old(self).wf(),
            command_allowed(old(self).model(), command),
        ensures
            final(self).wf(),
            final(self).model() == after_command(old(self).model(), command),
            line_texts(final(self).model().lines) == command_texts(old(self).model(), command),
            final(self).buffer().file_info == old(self).buffer().file_info,
    {
        match command {
            EditorCommand::Resize(_) | EditorCommand::Quit => {},
            EditorCommand::Move(direction) => self.move_text_location(direction),
            EditorCommand::Insert(ch) => self.insert(ch),
            EditorCommand::Backspace => self.backspace(),
            EditorCommand::Delete => self.delete(),
            EditorCommand::Enter => self.insert_newline(),
        }
    }

    /// Whether `command` can be carried out now (see `command_allowed`).
    pub fn allows(&self, command: EditorCommand) -> (b: bool)
        requires
            self.wf(),
        ensures
            b == command_allowed(self.model(), command),
    {
        match command {
            EditorCommand::Delete => self.text_location.line_index < self.buffer.len(),
            EditorCommand::Backspace => {
                let line = self.text_location.line_index;
                let grapheme = self.text_location.grapheme_index;
                if line == 0 && grapheme == 0 {
                    true
                } else if grapheme > 0 {
                    line < self.buffer.len()
                } else {
                    line - 1 < self.buffer.len()
                }
            },
            _ => true,
        }
    }

    /// The document's line count, the caret's line, whether the document
    /// changed, and the name of its file.
    pub fn get_status(&self) -> (status: DocumentStatus)
        requires
            self.wf(),
        ensures
            status.total_lines == self.model().lines.len(),
            status.current_line_index == self.model().location.line_index,
            status.is_modified == self.model().dirty,
            self.buffer().file_info.path is None ==> status.filename@ == no_name(),
    {
        DocumentStatus {
            total_lines: self.buffer.len(),
            current_line_index: self.text_location.line_index,
            is_modified: self.buffer.dirty,
            filename: self.buffer.file_info.to_string(),
        }
    }

    /// The document shown.
    pub fn document(&self) -> (b: &Buffer)
        ensures
            *b == self.buffer(),
    {
        &self.buffer
    }

    /// Records the outcome of writing the document to its file: once it was
    /// written, the document counts as unchanged.
    pub fn save(&mut self, written: bool)
        requires
            old(self).wf(),
        ensures
            final(self).wf(),
            final(self).model() == (if written {
                ViewState { dirty: false, ..old(self).model() }
            } else {
                old(self).model()
            }),
            final(self).buffer().file_info == old(self).buffer().file_info,
    {
        if written {
            self.buffer.mark_saved();
        }
    }

    /// Appends `n` spaces to `s`.
    fn push_spaces(s: &mut String, n: usize)
        ensures
            final(s)@ == old(s)@ + spaces(n as int),
    {
        let ghost start = s@;
        let mut i: usize = 0;
        while i < n
            invariant
                i <= n,
                s@ == start + spaces(i as int),
            decreases n - i,
        {
            push_char(s, ' ');
            i = i + 1;
            assert(s@ =~= start + spaces(i as int));
        }
    }

    /// The welcome banner for a row `width` cells wide.
    pub fn build_welcome_message(width: usize) -> (s: String)
        ensures
            s@ == welcome_message(width),
    {
        if width == 0 {
            return String::new();
        }
        let mut message = String::from_str(NAME);
        message.append(" editor -- version ");
        message.append(VERSION);
        proof {
            reveal_strlit("hecto");
            reveal_strlit(" editor -- version ");
            reveal_strlit("0.1.0");
            assert(forall|i: int|
                0 <= i < message@.len() ==> ' ' <= #[trigger] message@[i] <= '~');
        }
        let message_width = str_width(message.as_str());
        let remaining_width = width - 1;
        let mut s = String::new();
        push_char(&mut s, '~');
        if message_width >= width {
            return s;
        }
        let len = message.unicode_len();
        let pad = remaining_width.saturating_sub(len);
        let left = pad / 2;
        Self::push_spaces(&mut s, left);
        s.append(message.as_str());
        Self::push_spaces(&mut s, pad - left);
        s
    }

    /// The text of each row of the view, drawn from screen row `origin_y`
    /// down: one entry per row that fits on a screen of `usize::MAX` rows.
    pub fn draw_rows(&self, origin_y: usize) -> (rows: Vec<String>)
        requires
            self.wf(),
        ensures
            rows@.len() == sat_add(origin_y, self.model().size.height) - origin_y,
            forall|i: int|
                0 <= i < rows@.len() ==> #[trigger] rows@[i]@ == row_text(self.model(), i as usize),
    {
        let ghost s = self.model();
        let height = self.size.height;
        let width = self.size.width;
        let end_y = origin_y.saturating_add(height);
        let top_third = height / 3;
        let scroll_top = self.scroll_offset.row;
        let left = self.scroll_offset.col;
        let right = left.saturating_add(width);
        let mut rows: Vec<String> = Vec::new();
        let mut current_row = origin_y;
        while current_row < end_y
            invariant
                self.wf(),
                s == self.model(),
                origin_y <= current_row <= end_y,
                end_y == sat_add(origin_y, height),
                height == s.size.height,
                width == s.size.width,
                top_third == height / 3,
                scroll_top == s.offset.row,
                left == s.offset.col,
                right == sat_add(left, width),
                rows@.len() == current_row - origin_y,
                forall|i: int|
                    0 <= i < rows@.len() ==> #[trigger] rows@[i]@ == row_text(s, i as usize),
            decreases end_y - current_row,
        {
            let view_row = current_row - origin_y;
            let index = view_row.saturating_add(scroll_top);
            if index < self.buffer.lines.len() {
                assert(line_fits(self.buffer.lines@[index as int], self.buffer.cjk_width));
                let text = self.buffer.lines[index].get_visible_graphemes(left..right).to_string();
                rows.push(text);
            } else if current_row == origin_y.saturating_add(top_third) && self.buffer.is_empty() {
                rows.push(Self::build_welcome_message(width));
            } else {
                let mut tilde = String::new();
                push_char(&mut tilde, '~');
                rows.push(tilde);
            }
            assert(rows@[view_row as int]@ == row_text(s, view_row));
            current_row = current_row + 1;
        }
        rows
    }
}

} // verus!
