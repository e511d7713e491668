use vstd::prelude::*;

verus! {

/// Rows of the terminal kept for the status bar and the message bar.
pub const PADDING_BUTTON: u16 = 2;

/// With Ctrl held, this character ends the session.
pub const EXIT_CHARACTER: char = 'q';

/// With Ctrl held, this character saves the document.
pub const SAVE_CHARACTER: char = 's';

/// The part of the terminal that shows the document: its width in columns
/// and its height in rows.
#[derive(Debug, Clone, Copy, PartialEq, Eq, Structural)]
pub struct ScreenSize {
    pub width: u16,
    pub height: u16,
}

impl ScreenSize {
    /// The text area of a terminal of `columns` by `rows`: all columns, and
    /// the rows that the two bars leave.
    pub fn from_terminal(columns: u16, rows: u16) -> (r: ScreenSize)
        ensures
            r.width == columns,
            r.height == (if rows >= PADDING_BUTTON {
                rows - PADDING_BUTTON
            } else {
                0
            }),
    {
        ScreenSize { width: columns, height: rows.saturating_sub(PADDING_BUTTON) }
    }
}

/// What the event sources hand to the editor.
#[derive(Debug, Clone, Copy, PartialEq, Eq, Structural)]
pub enum TerminalEvent {
    Input(InputEvent),
    Syscall(SyscallEvent),
    Empty,
}

/// A notification from the operating system.
#[derive(Debug, Clone, Copy, PartialEq, Eq, Structural)]
pub enum SyscallEvent {
    WindowSizeChanged,
    Unsupported,
}

/// What one read from the keyboard gave.
#[derive(Debug, Clone, Copy, PartialEq, Eq, Structural)]
pub enum InputEvent {
    Key(KeyEvent),
    Empty,
    Unsupported,
}

/// What a key press asks of the editor.
#[derive(Debug, Clone, Copy, PartialEq, Eq, Structural)]
pub enum KeyEvent {
    Char(char),
    Up,
    Down,
    Left,
    Right,
    Backspace,
    Exit,
    SaveDocument,
    Unsupported,
}

/// A key as the terminal decodes it.
#[derive(Debug, Clone, Copy, PartialEq, Eq, Structural)]
pub enum KeyPress {
    Char(char),
    Ctrl(char),
    Up,
    Down,
    Left,
    Right,
    Backspace,
    Other,
}

/// One item read from the terminal's input: a key, or anything else
/// (a mouse event, an unknown sequence).
#[derive(Debug, Clone, Copy, PartialEq, Eq, Structural)]
pub enum TerminalInput {
    Key(KeyPress),
    Other,
}

/// The meaning of a key press.
pub open spec fn key_meaning(k: KeyPress) -> KeyEvent {
    match k {
        KeyPress::Char(c) => KeyEvent::Char(c),
        KeyPress::Up => KeyEvent::Up,
        KeyPress::Down => KeyEvent::Down,
        KeyPress::Left => KeyEvent::Left,
        KeyPress::Right => KeyEvent::Right,
        KeyPress::Backspace => KeyEvent::Backspace,
        KeyPress::Ctrl(c) => if c == EXIT_CHARACTER {
            KeyEvent::Exit
        } else if c == SAVE_CHARACTER {
            KeyEvent::SaveDocument
        } else {
            KeyEvent::Unsupported
        },
        KeyPress::Other => KeyEvent::Unsupported,
    }
}

impl KeyEvent {
    /// Maps a key press to what it asks of the editor.
    pub fn from_key_press(k: KeyPress) -> (r: KeyEvent)
        ensures
            r == key_meaning(k),
    {
        match k {
            KeyPress::Char(c) => KeyEvent::Char(c),
            KeyPress::Up => KeyEvent::Up,
            KeyPress::Down => KeyEvent::Down,
            KeyPress::Left => KeyEvent::Left,
            KeyPress::Right => KeyEvent::Right,
            KeyPress::Backspace => KeyEvent::Backspace,
            KeyPress::Ctrl(c) => {
                if c == EXIT_CHARACTER {
                    KeyEvent::Exit
                } else if c == SAVE_CHARACTER {
                    KeyEvent::SaveDocument
                } else {
                    KeyEvent::Unsupported
                }
            },
            KeyPress::Other => KeyEvent::Unsupported,
        }
    }
}

impl InputEvent {
    /// The event for one read of the input stream: `None` when the stream
    /// had nothing more to give.
    pub fn from_terminal_input(input: Option<TerminalInput>) -> (r: InputEvent)
        ensures
            r == (match input {
                None => InputEvent::Empty,
                Some(TerminalInput::Other) => InputEvent::Unsupported,
                Some(TerminalInput::Key(k)) => InputEvent::Key(key_meaning(k)),
            }),
    {
        match input {
            None => InputEvent::Empty,
            Some(TerminalInput::Other) => InputEvent::Unsupported,
            Some(TerminalInput::Key(k)) => InputEvent::Key(KeyEvent::from_key_press(k)),
        }
    }

    /// Whether the keyboard source stops after forwarding this event: it
    /// does so after the exit key and only then.
    pub fn ends_input(&self) -> (r: bool)
        ensures
            r == (*self == InputEvent::Key(KeyEvent::Exit)),
    {
        match self {
            InputEvent::Key(KeyEvent::Exit) => true,
            _ => false,
        }
    }
}

impl SyscallEvent {
    /// The event for a delivered signal: a change of the window's size
    /// when it is `window_change_signal`.
    pub fn from_signal(signal: i32, window_change_signal: i32) -> (r: SyscallEvent)
        ensures
            r == (if signal == window_change_signal {
                SyscallEvent::WindowSizeChanged
            } else {
                SyscallEvent::Unsupported
            }),
    {
        if signal == window_change_signal {
            SyscallEvent::WindowSizeChanged
        } else {
            SyscallEvent::Unsupported
        }
    }
}

/// What waiting on the two event channels gave: a value or a disconnected
/// channel (`None`) on one of them, or neither within the timeout.
#[derive(Debug, Clone, Copy, PartialEq, Eq, Structural)]
pub enum Selected {
    Syscall(Option<SyscallEvent>),
    Input(Option<InputEvent>),
    TimedOut,
}

/// The event that stops the editor.
pub open spec fn exit_event() -> TerminalEvent {
    TerminalEvent::Input(InputEvent::Key(KeyEvent::Exit))
}

/// The event that a wait on the channels yields, given whether each
/// producer has finished: a received value as it came; a disconnected
/// channel, or a timeout after a producer finished, as the exit key, so that
/// a dead producer cannot leave the editor waiting forever.
pub open spec fn resolved(s: Selected, input_finished: bool, syscall_finished: bool) -> TerminalEvent {
    match s {
        Selected::Syscall(Some(e)) => TerminalEvent::Syscall(e),
        Selected::Input(Some(e)) => TerminalEvent::Input(e),
        Selected::Syscall(None) => exit_event(),
        Selected::Input(None) => exit_event(),
        Selected::TimedOut => if input_finished || syscall_finished {
            exit_event()
        } else {
            TerminalEvent::Empty
        },
    }
}

/// Turns the outcome of one wait on the keyboard and signal channels into
/// the next event for the editor.
pub fn next_event(selected: Selected, input_finished: bool, syscall_finished: bool) -> (r:
    TerminalEvent)
    ensures
        r == resolved(selected, input_finished, syscall_finished),
        selected == Selected::TimedOut && (input_finished || syscall_finished) ==> r
            == exit_event(),
        selected == Selected::Input(None) || selected == Selected::Syscall(None) ==> r
            == exit_event(),
{
    match selected {
        Selected::Syscall(Some(e)) => TerminalEvent::Syscall(e),
        Selected::Input(Some(e)) => TerminalEvent::Input(e),
        Selected::Syscall(None) => TerminalEvent::Input(InputEvent::Key(KeyEvent::Exit)),
        Selected::Input(None) => TerminalEvent::Input(InputEvent::Key(KeyEvent::Exit)),
        Selected::TimedOut => {
            if input_finished || syscall_finished {
                TerminalEvent::Input(InputEvent::Key(KeyEvent::Exit))
            } else {
                TerminalEvent::Empty
            }
        },
    }
}

} // verus!
