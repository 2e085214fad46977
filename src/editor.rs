use vstd::prelude::*;

use crate::buffer::{join_lines, rows_from_text, rows_to_text, rows_view, split_lines};
use crate::position::{inc, moved, Direction, Position};
use crate::row::Row;
use crate::screen::{screen_line, Screen};
use crate::search::{find_in_rows, find_spec, lemma_find_from, occurs_at};
use crate::text::{chars_of, clip, prefix_string, string_of};

verus! {

/// Modifier keys held with a character key.
#[derive(Clone, Copy, Debug, PartialEq, Eq, Structural)]
pub enum Modifiers {
    Plain,
    Shift,
    Control,
    Other,
}

/// One key press.
#[derive(Clone, Copy, Debug, PartialEq, Eq, Structural)]
pub enum Key {
    Char(char, Modifiers),
    Enter,
    Backspace,
    Delete,
    Up,
    Down,
    Left,
    Right,
    Escape,
    Other,
}

/// What a prompt collects text for.
#[derive(Clone, Copy, Debug, PartialEq, Eq, Structural)]
pub enum PromptKind {
    SaveAs,
    Search,
}

/// Label of the save-as prompt.
pub const SAVE_AS_LABEL: &'static str = "save as";

/// Label of the search prompt.
pub const SEARCH_LABEL: &'static str = "search";

/// Text between a prompt's label and what was typed.
pub const PROMPT_SEPARATOR: &'static str = ": ";

/// The label shown for a prompt of kind `k`.
pub open spec fn label_of(k: PromptKind) -> Seq<char> {
    match k {
        PromptKind::SaveAs => SAVE_AS_LABEL@,
        PromptKind::Search => SEARCH_LABEL@,
    }
}

/// What the caller is to do after a key press.
#[derive(Debug)]
pub enum Action {
    /// Nothing: read the next key.
    Continue,
    /// Leave the editor.
    Quit,
    /// Write the buffer's text (`Editor::erows_to_string`) to the given path.
    Save(String),
}

/// The abstract form of an `Action`.
pub ghost enum ActionView {
    Continue,
    Quit,
    Save(Seq<char>),
}

impl View for Action {
    type V = ActionView;

    open spec fn view(&self) -> ActionView {
        match self {
            Action::Continue => ActionView::Continue,
            Action::Quit => ActionView::Quit,
            Action::Save(p) => ActionView::Save(p@),
        }
    }
}

/// The abstract state of an editor.
pub ghost struct EditorView {
    /// Raw text of each row, in order.
    pub rows: Seq<Seq<char>>,
    pub cursor: Position,
    /// The path that the buffer is saved to, once bound.
    pub filename: Option<Seq<char>>,
    /// The open prompt, if any, and what was typed into it.
    pub prompt: Option<(PromptKind, Seq<char>)>,
    /// A message for the user, shown until the next key press.
    pub status: Option<Seq<char>>,
}

/// `s` with `rows` and `cursor` replaced.
pub open spec fn with_text(s: EditorView, rows: Seq<Seq<char>>, cursor: Position) -> EditorView {
    EditorView { rows, cursor, filename: s.filename, prompt: s.prompt, status: s.status }
}

/// `s` with the cursor replaced.
pub open spec fn with_cursor(s: EditorView, cursor: Position) -> EditorView {
    with_text(s, s.rows, cursor)
}

/// `s` with the prompt replaced.
pub open spec fn with_prompt(s: EditorView, prompt: Option<(PromptKind, Seq<char>)>) -> EditorView {
    EditorView { rows: s.rows, cursor: s.cursor, filename: s.filename, prompt, status: s.status }
}

/// Deleting the character before the cursor: where the cursor's row exists and the
/// cursor stands after at least one of its characters, that character goes and the cursor
/// moves left onto its place; otherwise nothing changes (no rows are joined).
pub open spec fn del_spec(s: EditorView) -> EditorView {
    let x = s.cursor.x;
    let y = s.cursor.y;
    if y < s.rows.len() && 0 < x <= s.rows[y as int].len() {
        with_text(
            s,
            s.rows.update(y as int, s.rows[y as int].remove(x - 1)),
            Position { x: (x - 1) as usize, y },
        )
    } else {
        s
    }
}

/// The rows, with empty rows appended so that row `y` exists.
pub open spec fn rows_through(rows: Seq<Seq<char>>, y: nat) -> Seq<Seq<char>> {
    if y < rows.len() {
        rows
    } else {
        rows + Seq::new((y + 1 - rows.len()) as nat, |_i: int| Seq::<char>::empty())
    }
}

/// Inserting `c` at the cursor: the cursor's row is made to exist, `c` goes before the
/// cursor's column (or at the end of the row where the column is past it), and the
/// cursor moves one column right.
pub open spec fn ins_spec(s: EditorView, c: char) -> EditorView {
    let x = s.cursor.x;
    let y = s.cursor.y;
    let rows = rows_through(s.rows, y as nat);
    let line = rows[y as int];
    let new_line = if x < line.len() {
        line.insert(x as int, c)
    } else {
        line.push(c)
    };
    with_text(s, rows.update(y as int, new_line), Position { x: inc(x), y })
}

/// Searching for `q`: the cursor goes to the first place where `q` stands, rows in order
/// and leftmost within a row; where it stands nowhere, nothing changes.
pub open spec fn search_spec(s: EditorView, q: Seq<char>) -> EditorView {
    match find_spec(s.rows, q) {
        Some((c, r)) => with_cursor(s, Position { x: c as usize, y: r as usize }),
        None => s,
    }
}

/// A key press in normal editing.
pub open spec fn normal_step(s: EditorView, k: Key) -> (EditorView, ActionView) {
    if k == Key::Char('q', Modifiers::Control) {
        (s, ActionView::Quit)
    } else if k == Key::Char('s', Modifiers::Control) {
        match s.filename {
            Some(f) => (s, ActionView::Save(f)),
            None => (with_prompt(s, Some((PromptKind::SaveAs, Seq::empty()))), ActionView::Continue),
        }
    } else if k == Key::Char('f', Modifiers::Control) {
        (with_prompt(s, Some((PromptKind::Search, Seq::empty()))), ActionView::Continue)
    } else {
        let next = match k {
            Key::Backspace => del_spec(s),
            Key::Delete => del_spec(with_cursor(s, Position { x: inc(s.cursor.x), y: s.cursor.y })),
            Key::Up => with_cursor(s, moved(s.cursor, Direction::Up)),
            Key::Down => with_cursor(s, moved(s.cursor, Direction::Down)),
            Key::Left => with_cursor(s, moved(s.cursor, Direction::Left)),
            Key::Right => with_cursor(s, moved(s.cursor, Direction::Right)),
            Key::Char(c, _) => ins_spec(s, c),
            _ => s,
        };
        (next, ActionView::Continue)
    }
}

/// A key press while a prompt of kind `kind` holding `text` is open: Enter commits,
/// Escape cancels, a character typed alone or with Shift is appended, other keys are
/// ignored. A committed empty text does nothing.
pub open spec fn prompt_step(s: EditorView, kind: PromptKind, text: Seq<char>, k: Key) -> (
    EditorView,
    ActionView,
) {
    let closed = with_prompt(s, None);
    match k {
        Key::Enter => if text.len() == 0 {
            (closed, ActionView::Continue)
        } else {
            match kind {
                PromptKind::SaveAs => (
                    EditorView {
                        rows: s.rows,
                        cursor: s.cursor,
                        filename: Some(text),
                        prompt: None,
                        status: s.status,
                    },
                    ActionView::Save(text),
                ),
                PromptKind::Search => (search_spec(closed, text), ActionView::Continue),
            }
        },
        Key::Escape => (closed, ActionView::Continue),
        Key::Char(c, m) => if m == Modifiers::Plain || m == Modifiers::Shift {
            (with_prompt(s, Some((kind, text.push(c)))), ActionView::Continue)
        } else {
            (s, ActionView::Continue)
        },
        _ => (s, ActionView::Continue),
    }
}

/// The state after key `k` in state `s0`, and what the caller is to do. The status
/// message is cleared by every key.
pub open spec fn key_step(s0: EditorView, k: Key) -> (EditorView, ActionView) {
    let s = EditorView {
        rows: s0.rows,
        cursor: s0.cursor,
        filename: s0.filename,
        prompt: s0.prompt,
        status: None,
    };
    match s.prompt {
        None => normal_step(s, k),
        Some((kind, text)) => prompt_step(s, kind, text, k),
    }
}

/// The line that a prompt shows: its label, a separator, and what was typed.
pub open spec fn prompt_line(kind: PromptKind, text: Seq<char>) -> Seq<char> {
    label_of(kind) + PROMPT_SEPARATOR@ + text
}

/// Terminal row `i` of a `w` by `h` terminal showing `s`: with a prompt open, the prompt
/// line on row 0 and nothing below; otherwise the document (`screen_line`), with a status
/// message, if any, in place of the last row.
pub open spec fn frame_line(s: EditorView, w: nat, h: nat, i: nat) -> Seq<char> {
    match s.prompt {
        Some((kind, text)) => if i == 0 {
            clip(prompt_line(kind, text), w)
        } else {
            Seq::empty()
        },
        None => match s.status {
            Some(m) => if i + 1 == h {
                clip(m, w)
            } else {
                screen_line(s.rows, w, h, i)
            },
            None => screen_line(s.rows, w, h, i),
        },
    }
}

enum Mode {
    Normal,
    Prompt(PromptKind, Vec<char>),
}

/// The editor: document rows, cursor, bound file name, and the open prompt if any.
pub struct Editor {
    cursor: Position,
    erows: Vec<Row>,
    filename: Option<String>,
    mode: Mode,
    status: Option<String>,
}

/// The abstract form of an optional string.
pub open spec fn opt_view(o: Option<String>) -> Option<Seq<char>> {
    match o {
        Some(s) => Some(s@),
        None => None,
    }
}

impl View for Editor {
    type V = EditorView;

    closed spec fn view(&self) -> EditorView {
        EditorView {
            rows: rows_view(self.erows@),
            cursor: self.cursor,
            filename: opt_view(self.filename),
            prompt: match self.mode {
                Mode::Normal => None,
                Mode::Prompt(k, t) => Some((k, t@)),
            },
            status: opt_view(self.status),
        }
    }
}

/// Where the terminal's cursor stands when showing `s`: after the prompt line while a
/// prompt is open, else at the editing cursor.
pub open spec fn screen_cursor_spec(s: EditorView) -> Position {
    match s.prompt {
        Some((kind, text)) => Position {
            x: if prompt_line(kind, text).len() <= usize::MAX {
                prompt_line(kind, text).len() as usize
            } else {
                usize::MAX
            },
            y: 0,
        },
        None => s.cursor,
    }
}

impl PromptKind {
    /// The label shown for this prompt.
    pub fn label(&self) -> (r: &'static str)
        ensures
            r@ == label_of(*self),
    {
        match self {
            PromptKind::SaveAs => SAVE_AS_LABEL,
            PromptKind::Search => SEARCH_LABEL,
        }
    }
}

impl Editor {
    /// An editor over the rows `data`, bound to `filename` if given, with the cursor at
    /// the top left.
    pub fn new(data: &[String], filename: Option<String>) -> (r: Editor)
        ensures
            r@.rows == data@.map_values(|d: String| d@),
            r@.cursor == (Position { x: 0, y: 0 }),
            r@.filename == opt_view(filename),
            r@.prompt is None,
            r@.status is None,
    {
        let mut erows: Vec<Row> = Vec::new();
        let mut i: usize = 0;
        while i < data.len()
            invariant
                i <= data@.len(),
                rows_view(erows@) == data@.take(i as int).map_values(|d: String| d@),
            decreases data@.len() - i,
        {
            let row = Row::from_chars(chars_of(data[i].as_str()));
            let ghost before = rows_view(erows@);
            erows.push(row);
            assert(rows_view(erows@) =~= before.push(data@[i as int]@));
            assert(data@.take(i + 1).map_values(|d: String| d@) =~= data@.take(i as int).map_values(
                |d: String| d@,
            ).push(data@[i as int]@));
            i += 1;
        }
        assert(data@.take(data@.len() as int) =~= data@);
        Editor { cursor: Position { x: 0, y: 0 }, erows, filename, mode: Mode::Normal, status: None }
    }

    /// An editor over the text `contents` of the file `filename`, split into rows at its
    /// line feeds, with the cursor at the top left.
    pub fn new_with_file(filename: String, contents: &str) -> (r: Editor)
        ensures
            r@.rows == split_lines(contents@),
            r@.cursor == (Position { x: 0, y: 0 }),
            r@.filename == Some(filename@),
            r@.prompt is None,
            r@.status is None,
    {
        let erows = rows_from_text(contents);
        Editor {
            cursor: Position { x: 0, y: 0 },
            erows,
            filename: Some(filename),
            mode: Mode::Normal,
            status: None,
        }
    }

    /// The editing cursor.
    pub fn cursor(&self) -> (r: Position)
        ensures
            r == self@.cursor,
    {
        self.cursor
    }

    /// The document's rows.
    pub fn erows(&self) -> (r: &Vec<Row>)
        ensures
            rows_view(r@) == self@.rows,
    {
        &self.erows
    }

    /// The bound file name.
    pub fn filename(&self) -> (r: &Option<String>)
        ensures
            opt_view(*r) == self@.filename,
    {
        &self.filename
    }

    /// The status message.
    pub fn status(&self) -> (r: &Option<String>)
        ensures
            opt_view(*r) == self@.status,
    {
        &self.status
    }

    /// Whether a prompt is open.
    pub fn in_prompt(&self) -> (r: bool)
        ensures
            r == self@.prompt is Some,
    {
        match self.mode {
            Mode::Normal => false,
            Mode::Prompt(_, _) => true,
        }
    }

    /// Shows `message` to the user until the next key press.
    pub fn set_status(&mut self, message: String)
        ensures
            final(self)@ == (EditorView { status: Some(message@), ..old(self)@ }),
    {
        self.status = Some(message);
    }

    /// Moves the cursor one step towards `dir`.
    pub fn move_cursor(&mut self, dir: Direction)
        ensures
            final(self)@ == with_cursor(old(self)@, moved(old(self)@.cursor, dir)),
    {
        self.cursor.step(dir);
    }

    /// Inserts `c` at the cursor and moves the cursor past it; where the cursor's row does
    /// not exist yet, empty rows are appended up to it first.
    pub fn insert_char(&mut self, c: char)
        ensures
            final(self)@ == ins_spec(old(self)@, c),
    {
        let ghost old_rows = rows_view(self.erows@);
        let y = self.cursor.y;
        while self.erows.len() <= y
            invariant
                y == self.cursor.y,
                self.cursor == old(self).cursor,
                self.filename == old(self).filename,
                self.mode == old(self).mode,
                self.status == old(self).status,
                old_rows.len() <= self.erows@.len(),
                self.erows@.len() <= y + 1 || self.erows@.len() == old_rows.len(),
                rows_view(self.erows@) == old_rows + Seq::new(
                    (self.erows@.len() - old_rows.len()) as nat,
                    |_i: int| Seq::<char>::empty(),
                ),
            decreases y + 1 - self.erows@.len(),
        {
            let ghost before = rows_view(self.erows@);
            let row = Row::from_chars(Vec::new());
            assert(row@ =~= Seq::<char>::empty());
            self.erows.push(row);
            assert(rows_view(self.erows@) =~= before.push(Seq::<char>::empty()));
            assert(rows_view(self.erows@) =~= old_rows + Seq::new(
                (self.erows@.len() - old_rows.len()) as nat,
                |_i: int| Seq::<char>::empty(),
            ));
        }
        let ghost grown = rows_view(self.erows@);
        assert(grown =~= rows_through(old_rows, y as nat));
        let x = self.cursor.x;
        self.erows[y].insert_char(x, c);
        assert(rows_view(self.erows@) =~= grown.update(y as int, self.erows@[y as int]@));
        self.cursor.x = self.cursor.x.saturating_add(1);
    }

    /// Deletes the character before the cursor and moves the cursor onto its place; does
    /// nothing where the cursor's row does not exist or no character stands before the
    /// cursor in it.
    pub fn del_char(&mut self)
        ensures
            final(self)@ == del_spec(old(self)@),
    {
        if !self.cursor.above(self.erows.len()) {
            return;
        }
        let y = self.cursor.y;
        let x = self.cursor.x;
        if x > 0 && x <= self.erows[y].len() {
            let ghost before = rows_view(self.erows@);
            self.erows[y].remove_char(x - 1);
            assert(rows_view(self.erows@) =~= before.update(y as int, before[y as int].remove(x - 1)));
            self.cursor.x = x - 1;
        }
    }

    /// Moves the cursor to the first place at which `query` stands; leaves it where it
    /// is when `query` stands nowhere.
    pub fn find(&mut self, query: &str)
        ensures
            final(self)@ == search_spec(old(self)@, query@),
    {
        let q = chars_of(query);
        self.find_chars(&q);
    }

    fn find_chars(&mut self, query: &Vec<char>)
        ensures
            final(self)@ == search_spec(old(self)@, query@),
    {
        match find_in_rows(&self.erows, query) {
            Some(p) => {
                self.cursor = p;
            },
            None => {},
        }
    }

    /// Saving: with a bound file name, asks the caller to write the buffer there; without
    /// one, opens the save-as prompt.
    pub fn save(&mut self) -> (r: Action)
        ensures
            (final(self)@, r@) == normal_step(old(self)@, Key::Char('s', Modifiers::Control)),
    {
        match &self.filename {
            Some(f) => Action::Save(f.clone()),
            None => {
                self.mode = Mode::Prompt(PromptKind::SaveAs, Vec::new());
                Action::Continue
            },
        }
    }

    /// The document's text: each row followed by a line feed.
    pub fn erows_to_string(&self) -> (r: String)
        ensures
            r@ == join_lines(self@.rows),
    {
        rows_to_text(&self.erows)
    }

    fn normal_keypress(&mut self, key: Key) -> (r: Action)
        requires
            old(self)@.prompt is None,
        ensures
            (final(self)@, r@) == normal_step(old(self)@, key),
    {
        if key == Key::Char('q', Modifiers::Control) {
            return Action::Quit;
        }
        if key == Key::Char('s', Modifiers::Control) {
            return self.save();
        }
        if key == Key::Char('f', Modifiers::Control) {
            self.mode = Mode::Prompt(PromptKind::Search, Vec::new());
            return Action::Continue;
        }
        match key {
            Key::Backspace => self.del_char(),
            Key::Delete => {
                self.cursor.x = self.cursor.x.saturating_add(1);
                self.del_char();
            },
            Key::Up => self.move_cursor(Direction::Up),
            Key::Down => self.move_cursor(Direction::Down),
            Key::Left => self.move_cursor(Direction::Left),
            Key::Right => self.move_cursor(Direction::Right),
            Key::Char(c, _) => self.insert_char(c),
            _ => {},
        }
        Action::Continue
    }

    /// Handles one key press (see `key_step`) and says what the caller is to do next.
    pub fn process_keypress(&mut self, key: Key) -> (r: Action)
        ensures
            (final(self)@, r@) == key_step(old(self)@, key),
    {
        self.status = None;
        let mut mode = Mode::Normal;
        std::mem::swap(&mut mode, &mut self.mode);
        match mode {
            Mode::Normal => self.normal_keypress(key),
            Mode::Prompt(kind, mut text) => match key {
                Key::Enter => {
                    if text.len() == 0 {
                        Action::Continue
                    } else {
                        match kind {
                            PromptKind::SaveAs => {
                                let name = string_of(&text);
                                self.filename = Some(name.clone());
                                Action::Save(name)
                            },
                            PromptKind::Search => {
                                self.find_chars(&text);
                                Action::Continue
                            },
                        }
                    }
                },
                Key::Escape => Action::Continue,
                Key::Char(c, m) => {
                    if m == Modifiers::Plain || m == Modifiers::Shift {
                        text.push(c);
                    }
                    self.mode = Mode::Prompt(kind, text);
                    Action::Continue
                },
                _ => {
                    self.mode = Mode::Prompt(kind, text);
                    Action::Continue
                },
            },
        }
    }

    /// The text of each terminal row of `screen`, top to bottom, each drawn from column 0
    /// (see `frame_line`).
    pub fn refresh_screen(&self, screen: &Screen) -> (r: Vec<String>)
        ensures
            r@.len() == screen.height,
            forall|i: int|
                0 <= i < screen.height ==> #[trigger] r@[i]@ == frame_line(
                    self@,
                    screen.width as nat,
                    screen.height as nat,
                    i as nat,
                ),
    {
        match &self.mode {
            Mode::Prompt(kind, text) => {
                let mut line = chars_of(kind.label());
                let sep = chars_of(PROMPT_SEPARATOR);
                append_chars(&mut line, &sep);
                append_chars(&mut line, text);
                let mut lines: Vec<String> = Vec::new();
                let mut i: u16 = 0;
                while i < screen.height
                    invariant
                        i <= screen.height,
                        lines@.len() == i,
                        line@ == prompt_line(*kind, text@),
                        self@.prompt == Some((*kind, text@)),
                        forall|j: int|
                            0 <= j < i ==> #[trigger] lines@[j]@ == frame_line(
                                self@,
                                screen.width as nat,
                                screen.height as nat,
                                j as nat,
                            ),
                    decreases screen.height - i,
                {
                    if i == 0 {
                        lines.push(prefix_string(&line, screen.width as usize));
                    } else {
                        let empty = String::new();
                        assert(empty@ =~= Seq::<char>::empty());
                        lines.push(empty);
                    }
                    i += 1;
                }
                lines
            },
            Mode::Normal => {
                let mut lines = screen.draw_rows(&self.erows);
                match &self.status {
                    Some(m) => {
                        if lines.len() > 0 {
                            let last = lines.len() - 1;
                            let shown = prefix_string(&chars_of(m.as_str()), screen.width as usize);
                            lines.set(last, shown);
                        }
                    },
                    None => {},
                }
                lines
            },
        }
    }

    /// Where the terminal's cursor is to stand.
    pub fn screen_cursor(&self) -> (r: Position)
        ensures
            r == screen_cursor_spec(self@),
    {
        match &self.mode {
            Mode::Prompt(kind, text) => {
                let label_len = chars_of(kind.label()).len();
                let sep_len = chars_of(PROMPT_SEPARATOR).len();
                Position { x: text.len().saturating_add(label_len).saturating_add(sep_len), y: 0 }
            },
            Mode::Normal => self.cursor,
        }
    }
}

/// The state after the keys `keys`, pressed in order from state `s`.
pub open spec fn run_keys(s: EditorView, keys: Seq<Key>) -> EditorView
    decreases keys.len(),
{
    if keys.len() == 0 {
        s
    } else {
        key_step(run_keys(s, keys.drop_last()), keys.last()).0
    }
}

/// The key press that types `c`.
pub open spec fn press(c: char) -> Key {
    Key::Char(c, Modifiers::Plain)
}

/// The key presses that type `text`, one character each, without modifiers.
pub open spec fn typed(text: Seq<char>) -> Seq<Key> {
    text.map_values(|c: char| press(c))
}

/// Typing into an empty document: the document becomes one row holding exactly the
/// typed characters, in order, and the cursor stands on that row after the last of them.
pub proof fn lemma_typing_into_empty(s: EditorView, text: Seq<char>)
    requires
        s.rows.len() == 0,
        s.cursor == (Position { x: 0, y: 0 }),
        s.prompt is None,
        text.len() < usize::MAX,
    ensures
        text.len() > 0 ==> run_keys(s, typed(text)).rows == seq![text],
        text.len() == 0 ==> run_keys(s, typed(text)).rows.len() == 0,
        run_keys(s, typed(text)).cursor == (Position { x: text.len() as usize, y: 0 }),
        run_keys(s, typed(text)).prompt is None,
    decreases text.len(),
{
    if text.len() > 0 {
        let t = text.drop_last();
        let c = text.last();
        lemma_typing_into_empty(s, t);
        assert(t.push(c) =~= text);
        assert(typed(text).len() == text.len());
        assert(typed(t).len() == t.len());
        assert forall|j: int| 0 <= j < t.len() implies typed(text).drop_last()[j] == typed(t)[j] by {
            assert(t[j] == text[j]);
        }
        assert(typed(text).drop_last() =~= typed(t));
        let e = run_keys(s, typed(t));
        let k = Key::Char(c, Modifiers::Plain);
        assert(typed(text).last() == k);
        assert(k != Key::Char('q', Modifiers::Control));
        assert(k != Key::Char('s', Modifiers::Control));
        assert(k != Key::Char('f', Modifiers::Control));
        if t.len() == 0 {
            assert(rows_through(e.rows, 0) =~= seq![Seq::<char>::empty()]);
            assert(Seq::<char>::empty().push(c) =~= text);
            assert(seq![Seq::<char>::empty()].update(0, Seq::<char>::empty().push(c)) =~= seq![text]);
        } else {
            assert(rows_through(e.rows, 0) == seq![t]);
            assert(seq![t].update(0, t.push(c)) =~= seq![text]);
        }
        assert(t.push(c) =~= text);
    } else {
        assert(typed(text) =~= Seq::<Key>::empty());
    }
}

/// Backspace with the cursor at the start of a row changes neither the document nor the
/// cursor: rows are never joined.
pub proof fn lemma_backspace_at_row_start(s: EditorView)
    requires
        s.prompt is None,
        s.cursor.x == 0,
    ensures
        key_step(s, Key::Backspace).0.rows == s.rows,
        key_step(s, Key::Backspace).0.cursor == s.cursor,
{
}

/// Delete with the cursor on the last character of a row does what Backspace does with
/// the cursor one column to the right.
pub proof fn lemma_delete_last_is_backspace(s: EditorView)
    requires
        s.prompt is None,
        s.cursor.y < s.rows.len(),
        s.cursor.x + 1 == s.rows[s.cursor.y as int].len(),
        s.rows[s.cursor.y as int].len() <= usize::MAX,
    ensures
        key_step(s, Key::Delete) == key_step(
            with_cursor(s, Position { x: (s.cursor.x + 1) as usize, y: s.cursor.y }),
            Key::Backspace,
        ),
{
}

/// Up on the first row keeps the cursor on it, and Left in the first column keeps the
/// cursor in it.
pub proof fn lemma_moves_stop_at_zero(s: EditorView)
    requires
        s.prompt is None,
    ensures
        s.cursor.y == 0 ==> key_step(s, Key::Up).0.cursor.y == 0,
        s.cursor.x == 0 ==> key_step(s, Key::Left).0.cursor.x == 0,
{
}

/// Committing a search for a text that stands in one row only puts the cursor on that
/// row, at the leftmost column where the text starts in it.
pub proof fn lemma_search_single_row(s: EditorView, q: Seq<char>, i: int, c: int)
    requires
        s.prompt == Some((PromptKind::Search, q)),
        q.len() > 0,
        s.rows.len() <= usize::MAX,
        0 <= i < s.rows.len(),
        s.rows[i].len() <= usize::MAX,
        occurs_at(s.rows[i], q, c),
        forall|r: int, k: int| 0 <= r < s.rows.len() && r != i ==> !occurs_at(s.rows[r], q, k),
    ensures
        key_step(s, Key::Enter).0.cursor.y == i,
        occurs_at(s.rows[i], q, key_step(s, Key::Enter).0.cursor.x as int),
        forall|k: int|
            0 <= k < key_step(s, Key::Enter).0.cursor.x ==> !occurs_at(s.rows[i], q, k),
        key_step(s, Key::Enter).0.rows == s.rows,
{
    lemma_find_from(s.rows, q, 0);
}

/// Committing a search for a text that stands nowhere leaves the cursor and the document
/// as they were.
pub proof fn lemma_search_absent(s: EditorView, q: Seq<char>)
    requires
        s.prompt == Some((PromptKind::Search, q)),
        forall|r: int, k: int| 0 <= r < s.rows.len() ==> !occurs_at(s.rows[r], q, k),
    ensures
        key_step(s, Key::Enter).0.cursor == s.cursor,
        key_step(s, Key::Enter).0.rows == s.rows,
{
    lemma_find_from(s.rows, q, 0);
}

/// Appends the characters of `tail` to `v`.
fn append_chars(v: &mut Vec<char>, tail: &Vec<char>)
    ensures
        final(v)@ == old(v)@ + tail@,
{
    let mut i: usize = 0;
    while i < tail.len()
        invariant
            i <= tail@.len(),
            v@ == old(v)@ + tail@.take(i as int),
        decreases tail@.len() - i,
    {
        v.push(tail[i]);
        assert(tail@.take(i + 1) =~= tail@.take(i as int).push(tail@[i as int]));
        i += 1;
    }
    assert(tail@.take(tail@.len() as int) =~= tail@);
}

} // verus!
