use crate::document::{inserted, joined, removed, Document, DocumentModel};
use crate::text::{decimal, pad_with_spaces, push_char, spaces, usize_to_decimal};
use crate::terminal::{InputEvent, KeyEvent, ScreenSize, SyscallEvent, TerminalEvent};
use vstd::prelude::*;

verus! {

/// A place in the document: `x` is the column, `y` the row.
#[derive(Debug, Clone, Copy, PartialEq, Eq, Structural)]
pub struct Position {
    pub x: usize,
    pub y: usize,
}

/// The top-left corner of a document.
pub open spec fn origin() -> Position {
    Position { x: 0, y: 0 }
}

/// The cursor addresses a line of `lines`, at a column no greater than
/// its length.
pub open spec fn cursor_valid(lines: Seq<Seq<char>>, p: Position) -> bool {
    &&& p.y < lines.len()
    &&& p.x <= lines[p.y as int].len()
}

/// The cursor after the up arrow: one row up where there is one, the
/// column kept but not past the end of the new row.
pub open spec fn moved_up(lines: Seq<Seq<char>>, p: Position) -> Position {
    let y: usize = if p.y > 0 { (p.y - 1) as usize } else { 0 };
    let len = lines[y as int].len();
    Position { x: if p.x > len { len as usize } else { p.x }, y }
}

/// The cursor after the down arrow: one row down where there is one, the
/// column kept but not past the end of the new row.
pub open spec fn moved_down(lines: Seq<Seq<char>>, p: Position) -> Position {
    if p.y + 1 < lines.len() {
        let y = (p.y + 1) as usize;
        let len = lines[y as int].len();
        Position { x: if p.x > len { len as usize } else { p.x }, y }
    } else {
        p
    }
}

/// The cursor after the left arrow: one column left, or from the start of
/// a row to the end of the row above.
pub open spec fn moved_left(lines: Seq<Seq<char>>, p: Position) -> Position {
    if p.x == 0 && p.y != 0 {
        Position { x: lines[p.y - 1].len() as usize, y: (p.y - 1) as usize }
    } else if p.x > 0 {
        Position { x: (p.x - 1) as usize, y: p.y }
    } else {
        p
    }
}

/// The cursor after the right arrow: one column right, or from the end of
/// a row to the start of the row below.
pub open spec fn moved_right(lines: Seq<Seq<char>>, p: Position) -> Position {
    if p.x < lines[p.y as int].len() {
        Position { x: (p.x + 1) as usize, y: p.y }
    } else if p.y + 1 < lines.len() {
        Position { x: 0, y: (p.y + 1) as usize }
    } else {
        p
    }
}

/// One axis of the viewport after the cursor moved: the offset moves just
/// far enough that `cursor` lies in `[offset, offset + size)`; the new
/// offset saturates at the largest `usize`.
pub open spec fn scrolled(offset: usize, cursor: usize, size: usize) -> usize {
    if cursor < offset {
        cursor
    } else if cursor >= offset + size {
        if cursor - size + 1 > usize::MAX {
            usize::MAX
        } else {
            (cursor - size + 1) as usize
        }
    } else {
        offset
    }
}

/// The cursor lies in the window of `size` that starts at `offset`.
pub open spec fn in_view(offset: Position, cursor: Position, size: ScreenSize) -> bool {
    &&& offset.x <= cursor.x < offset.x + size.width
    &&& offset.y <= cursor.y < offset.y + size.height
}

/// What the caller must do after the editor handled an event.
#[derive(Debug, Clone, Copy, PartialEq, Eq, Structural)]
pub enum Action {
    /// Nothing: the editor's state says it all.
    Nothing,
    /// Write the document's text to its file, then report the outcome.
    SaveDocument,
    /// Query the terminal's size and hand it to the editor.
    Resize,
}

/// The state of the editor as mathematical values.
pub ghost struct EditorModel {
    pub document: DocumentModel,
    pub cursor: Position,
    pub offset: Position,
    pub size: ScreenSize,
    pub exit: bool,
}

/// The editor's state: the document, the cursor, the viewport and whether
/// the session is over.
pub struct Editor {
    exit: bool,
    document: Document,
    cursor_position: Position,
    screen_offset: Position,
    size: ScreenSize,
}

/// The state after `c` is typed at the cursor: the character goes in (a
/// newline splits the row) and the cursor moves right.
pub open spec fn typed(m: EditorModel, c: char) -> EditorModel {
    let lines = inserted(m.document.lines, m.cursor.y as int, m.cursor.x as int, c);
    EditorModel {
        document: DocumentModel { lines, modified: true, ..m.document },
        cursor: moved_right(lines, m.cursor),
        ..m
    }
}

/// The state after backspace: the character left of the cursor goes; at
/// the start of a row the row joins the one above, the cursor at the join.
pub open spec fn backspaced(m: EditorModel) -> EditorModel {
    let lines = m.document.lines;
    let p = m.cursor;
    if p.x > 0 {
        EditorModel {
            document: DocumentModel {
                lines: removed(lines, p.y as int, p.x - 1),
                modified: true,
                ..m.document
            },
            cursor: Position { x: (p.x - 1) as usize, y: p.y },
            ..m
        }
    } else if p.y > 0 {
        EditorModel {
            document: DocumentModel { lines: joined(lines, p.y as int), modified: true, ..m.document },
            cursor: moved_left(lines, p),
            ..m
        }
    } else {
        m
    }
}

/// The state after a key, and what the caller must do.
pub open spec fn after_key(m: EditorModel, k: KeyEvent) -> (EditorModel, Action) {
    let lines = m.document.lines;
    match k {
        KeyEvent::Char(c) => (typed(m, c), Action::Nothing),
        KeyEvent::Exit => (EditorModel { exit: true, ..m }, Action::Nothing),
        KeyEvent::SaveDocument => (m, Action::SaveDocument),
        KeyEvent::Backspace => (backspaced(m), Action::Nothing),
        KeyEvent::Up => (EditorModel { cursor: moved_up(lines, m.cursor), ..m }, Action::Nothing),
        KeyEvent::Down => (
            EditorModel { cursor: moved_down(lines, m.cursor), ..m },
            Action::Nothing,
        ),
        KeyEvent::Left => (
            EditorModel { cursor: moved_left(lines, m.cursor), ..m },
            Action::Nothing,
        ),
        KeyEvent::Right => (
            EditorModel { cursor: moved_right(lines, m.cursor), ..m },
            Action::Nothing,
        ),
        KeyEvent::Unsupported => (m, Action::Nothing),
    }
}

/// The state after an event, and what the caller must do.
pub open spec fn after_event(m: EditorModel, e: TerminalEvent) -> (EditorModel, Action) {
    match e {
        TerminalEvent::Input(InputEvent::Key(k)) => after_key(m, k),
        TerminalEvent::Syscall(SyscallEvent::WindowSizeChanged) => (m, Action::Resize),
        _ => (m, Action::Nothing),
    }
}

/// The part of `line` that a viewport `width` columns wide, starting at
/// column `from`, shows.
pub open spec fn visible_part(line: Seq<char>, from: int, width: int) -> Seq<char> {
    if from >= line.len() {
        Seq::<char>::empty()
    } else if from + width < line.len() {
        line.subrange(from, from + width)
    } else {
        line.subrange(from, line.len() as int)
    }
}

/// A column or row of the cursor on the screen: its distance from the
/// viewport's edge, within the range of `u16`.
pub open spec fn screen_coordinate(cursor: usize, offset: usize) -> u16 {
    if cursor < offset {
        0
    } else if cursor - offset > u16::MAX {
        u16::MAX
    } else {
        (cursor - offset) as u16
    }
}

/// The status bar's text before padding: a mark when the document has
/// unsaved changes, its path, and the cursor as `(column|row)`.
pub open spec fn status_message(m: EditorModel) -> Seq<char> {
    let flag = if m.document.modified {
        seq!['[', '+', ']', ' ']
    } else {
        Seq::<char>::empty()
    };
    flag + m.document.path + seq![' ', '('] + decimal(m.cursor.x as nat) + seq!['|'] + decimal(
        m.cursor.y as nat,
    ) + seq![')']
}

/// The status bar's text: the message, padded with spaces to the width of
/// the screen.
pub open spec fn status_text(m: EditorModel) -> Seq<char> {
    let msg = status_message(m);
    msg + spaces(if msg.len() < m.size.width { (m.size.width - msg.len()) as nat } else { 0 })
}

impl View for Editor {
    type V = EditorModel;

    closed spec fn view(&self) -> EditorModel {
        EditorModel {
            document: self.document@,
            cursor: self.cursor_position,
            offset: self.screen_offset,
            size: self.size,
            exit: self.exit,
        }
    }
}

impl Editor {
    /// The document is well formed and the cursor addresses it.
    pub open spec fn wf(&self) -> bool {
        &&& self@.document.lines.len() >= 1
        &&& crate::document::no_line_breaks(self@.document.lines)
        &&& cursor_valid(self@.document.lines, self@.cursor)
    }

    /// An editor on `document` in a text area of `size`, with the cursor and
    /// the viewport at the top-left corner.
    pub fn new(document: Document, size: ScreenSize) -> (r: Editor)
        requires
            document.wf(),
        ensures
            r@.document == document@,
            r@.cursor == origin(),
            r@.offset == origin(),
            r@.size == size,
            !r@.exit,
            r.wf(),
    {
        Editor {
            exit: false,
            document,
            cursor_position: Position { x: 0, y: 0 },
            screen_offset: Position { x: 0, y: 0 },
            size,
        }
    }

    /// The length of row `y`.
    fn row_len(&self, y: usize) -> (r: usize)
        requires
            y < self@.document.lines.len(),
        ensures
            r == self@.document.lines[y as int].len(),
    {
        self.document.get_row(y).as_str().unicode_len()
    }

    pub fn move_up(&mut self)
        requires
            old(self).wf(),
        ensures
            final(self)@ == (EditorModel {
                cursor: moved_up(old(self)@.document.lines, old(self)@.cursor),
                ..old(self)@
            }),
            final(self).wf(),
    {
        self.cursor_position.y = self.cursor_position.y.saturating_sub(1);
        let row_len = self.row_len(self.cursor_position.y);
        if self.cursor_position.x > row_len {
            self.cursor_position.x = row_len;
        }
    }

    pub fn move_down(&mut self)
        requires
            old(self).wf(),
        ensures
            final(self)@ == (EditorModel {
                cursor: moved_down(old(self)@.document.lines, old(self)@.cursor),
                ..old(self)@
            }),
            final(self).wf(),
    {
        if self.cursor_position.y < self.document.len() - 1 {
            self.cursor_position.y = self.cursor_position.y + 1;
            let row_len = self.row_len(self.cursor_position.y);
            if self.cursor_position.x > row_len {
                self.cursor_position.x = row_len;
            }
        }
    }

    pub fn move_left(&mut self)
        requires
            old(self).wf(),
        ensures
            final(self)@ == (EditorModel {
                cursor: moved_left(old(self)@.document.lines, old(self)@.cursor),
                ..old(self)@
            }),
            final(self).wf(),
    {
        if self.cursor_position.x == 0 && self.cursor_position.y != 0 {
            self.cursor_position.y = self.cursor_position.y - 1;
            self.cursor_position.x = self.row_len(self.cursor_position.y);
        } else {
            self.cursor_position.x = self.cursor_position.x.saturating_sub(1);
        }
    }

    pub fn move_right(&mut self)
        requires
            old(self).wf(),
        ensures
            final(self)@ == (EditorModel {
                cursor: moved_right(old(self)@.document.lines, old(self)@.cursor),
                ..old(self)@
            }),
            final(self).wf(),
    {
        if self.cursor_position.x < self.row_len(self.cursor_position.y) {
            self.cursor_position.x = self.cursor_position.x + 1;
        } else if self.cursor_position.y < self.document.len() - 1 {
            self.cursor_position.y = self.cursor_position.y + 1;
            self.cursor_position.x = 0;
        }
    }

    /// Moves the viewport just far enough, on each axis, that the cursor
    /// lies inside it.
    pub fn change_offsets(&mut self)
        requires
            old(self).wf(),
        ensures
            final(self)@ == (EditorModel {
                offset: Position {
                    x: scrolled(old(self)@.offset.x, old(self)@.cursor.x, old(self)@.size.width as usize),
                    y: scrolled(old(self)@.offset.y, old(self)@.cursor.y, old(self)@.size.height as usize),
                },
                ..old(self)@
            }),
            final(self).wf(),
            old(self)@.size.width > 0 && old(self)@.size.height > 0 ==> in_view(
                final(self)@.offset,
                final(self)@.cursor,
                final(self)@.size,
            ),
    {
        let height = self.size.height as usize;
        if self.cursor_position.y < self.screen_offset.y {
            self.screen_offset.y = self.cursor_position.y;
        } else if self.cursor_position.y - self.screen_offset.y >= height {
            self.screen_offset.y = (self.cursor_position.y - height).saturating_add(1);
        }
        let width = self.size.width as usize;
        if self.cursor_position.x < self.screen_offset.x {
            self.screen_offset.x = self.cursor_position.x;
        } else if self.cursor_position.x - self.screen_offset.x >= width {
            self.screen_offset.x = (self.cursor_position.x - width).saturating_add(1);
        }
    }

    /// Types `c` at the cursor and moves the cursor right.
    pub fn add_char(&mut self, c: char)
        requires
            old(self).wf(),
        ensures
            final(self)@ == typed(old(self)@, c),
            final(self).wf(),
    {
        self.document.insert_char(self.cursor_position.y, self.cursor_position.x, c);
        self.move_right();
    }

    /// Backspace: removes the character left of the cursor, or at the start
    /// of a row joins it to the row above.
    pub fn remove_char(&mut self)
        requires
            old(self).wf(),
        ensures
            final(self)@ == backspaced(old(self)@),
            final(self).wf(),
    {
        if self.cursor_position.x > 0 {
            let y = self.cursor_position.y;
            let prev_index = self.cursor_position.x - 1;
            self.move_left();
            self.document.remove_char(y, prev_index);
        } else if self.cursor_position.y > 0 {
            let current_row_num = self.cursor_position.y;
            self.move_left();
            self.document.join_row_with_previous(current_row_num);
        }
    }

    /// Handles one event; returns what the caller must do next.
    pub fn process_event(&mut self, event: TerminalEvent) -> (r: Action)
        requires
            old(self).wf(),
        ensures
            (final(self)@, r) == after_event(old(self)@, event),
            final(self).wf(),
    {
        match event {
            TerminalEvent::Input(InputEvent::Key(key_event)) => self.process_key_event(key_event),
            TerminalEvent::Syscall(SyscallEvent::WindowSizeChanged) => Action::Resize,
            _ => Action::Nothing,
        }
    }

    fn process_key_event(&mut self, key_event: KeyEvent) -> (r: Action)
        requires
            old(self).wf(),
        ensures
            (final(self)@, r) == after_key(old(self)@, key_event),
            final(self).wf(),
    {
        match key_event {
            KeyEvent::Char(c) => self.add_char(c),
            KeyEvent::Exit => {
                self.exit = true;
            },
            KeyEvent::SaveDocument => {
                return Action::SaveDocument;
            },
            KeyEvent::Backspace => self.remove_char(),
            KeyEvent::Up => self.move_up(),
            KeyEvent::Down => self.move_down(),
            KeyEvent::Left => self.move_left(),
            KeyEvent::Right => self.move_right(),
            KeyEvent::Unsupported => {},
        }
        Action::Nothing
    }

    /// The document the editor works on.
    pub fn document(&self) -> (r: &Document)
        ensures
            r@ == self@.document,
    {
        &self.document
    }

    /// Whether the session is over.
    pub fn is_exit(&self) -> (r: bool)
        ensures
            r == self@.exit,
    {
        self.exit
    }

    pub fn cursor_position(&self) -> (r: Position)
        ensures
            r == self@.cursor,
    {
        self.cursor_position
    }

    pub fn screen_offset(&self) -> (r: Position)
        ensures
            r == self@.offset,
    {
        self.screen_offset
    }

    pub fn size(&self) -> (r: ScreenSize)
        ensures
            r == self@.size,
    {
        self.size
    }

    /// Takes the terminal's new text area.
    pub fn resize(&mut self, size: ScreenSize)
        requires
            old(self).wf(),
        ensures
            final(self)@ == (EditorModel { size, ..old(self)@ }),
            final(self).wf(),
    {
        self.size = size;
    }

    /// Records that the document's text was written to its file.
    pub fn document_saved(&mut self)
        requires
            old(self).wf(),
        ensures
            final(self)@ == (EditorModel {
                document: DocumentModel { modified: false, ..old(self)@.document },
                ..old(self)@
            }),
            final(self).wf(),
    {
        self.document.mark_saved();
    }

    /// What screen row `row` shows: the part of the document row it faces
    /// that lies in the viewport, or `None` past the end of the document.
    pub fn screen_row(&self, row: u16) -> (r: Option<String>)
        requires
            self.wf(),
        ensures
            self@.offset.y + row < self@.document.lines.len() ==> r is Some && r->0@
                == visible_part(
                self@.document.lines[self@.offset.y + row],
                self@.offset.x as int,
                self@.size.width as int,
            ),
            self@.offset.y + row >= self@.document.lines.len() ==> r is None,
    {
        let n = self.document.len();
        let row = row as usize;
        if row < n && self.screen_offset.y < n - row {
            let line = self.document.get_row(self.screen_offset.y + row).as_str();
            let len = line.unicode_len();
            let width = self.size.width as usize;
            let from = if self.screen_offset.x < len {
                self.screen_offset.x
            } else {
                len
            };
            let to = if len - from > width {
                from + width
            } else {
                len
            };
            Some(String::from_str(line.substring_char(from, to)))
        } else {
            None
        }
    }

    /// Where the cursor stands on the screen, counted from the viewport's
    /// top-left corner.
    pub fn cursor_on_screen(&self) -> (r: (u16, u16))
        ensures
            r.0 == screen_coordinate(self@.cursor.x, self@.offset.x),
            r.1 == screen_coordinate(self@.cursor.y, self@.offset.y),
            in_view(self@.offset, self@.cursor, self@.size) ==> r.0 == self@.cursor.x
                - self@.offset.x && r.1 == self@.cursor.y - self@.offset.y,
    {
        (
            screen_distance(self.cursor_position.x, self.screen_offset.x),
            screen_distance(self.cursor_position.y, self.screen_offset.y),
        )
    }

    /// The text of the status bar.
    pub fn status_line(&self) -> (r: String)
        ensures
            r@ == status_text(self@),
    {
        let mut out = String::new();
        if self.document.is_modified() {
            proof {
                reveal_strlit("[+] ");
            }
            out.append("[+] ");
        }
        out.append(self.document.file_path().as_str());
        push_char(&mut out, ' ');
        push_char(&mut out, '(');
        out.append(usize_to_decimal(self.cursor_position.x).as_str());
        push_char(&mut out, '|');
        out.append(usize_to_decimal(self.cursor_position.y).as_str());
        push_char(&mut out, ')');
        assert(out@ =~= status_message(self@));
        pad_with_spaces(&mut out, self.size.width as usize);
        out
    }
}

fn screen_distance(cursor: usize, offset: usize) -> (r: u16)
    ensures
        r == screen_coordinate(cursor, offset),
{
    if cursor < offset {
        0
    } else if cursor - offset > u16::MAX as usize {
        u16::MAX
    } else {
        (cursor - offset) as u16
    }
}

} // verus!
