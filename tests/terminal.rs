use crossbeam::channel::{unbounded, Select};
use std::time::Duration;
use rte::terminal::{
    next_event, InputEvent, KeyEvent, KeyPress, ScreenSize, Selected, SyscallEvent,
    TerminalEvent, TerminalInput,
};

const EXIT: TerminalEvent = TerminalEvent::Input(InputEvent::Key(KeyEvent::Exit));

#[test]
fn screen_size_keeps_two_rows_for_bars() {
    assert_eq!(ScreenSize::from_terminal(80, 24), ScreenSize { width: 80, height: 22 });
    assert_eq!(ScreenSize::from_terminal(10, 1), ScreenSize { width: 10, height: 0 });
}

#[test]
fn keys_map_to_events() {
    assert_eq!(KeyEvent::from_key_press(KeyPress::Char('a')), KeyEvent::Char('a'));
    assert_eq!(KeyEvent::from_key_press(KeyPress::Char('\n')), KeyEvent::Char('\n'));
    assert_eq!(KeyEvent::from_key_press(KeyPress::Up), KeyEvent::Up);
    assert_eq!(KeyEvent::from_key_press(KeyPress::Down), KeyEvent::Down);
    assert_eq!(KeyEvent::from_key_press(KeyPress::Left), KeyEvent::Left);
    assert_eq!(KeyEvent::from_key_press(KeyPress::Right), KeyEvent::Right);
    assert_eq!(KeyEvent::from_key_press(KeyPress::Backspace), KeyEvent::Backspace);
}

#[test]
fn control_keys_map_to_commands() {
    assert_eq!(KeyEvent::from_key_press(KeyPress::Ctrl('q')), KeyEvent::Exit);
    assert_eq!(KeyEvent::from_key_press(KeyPress::Ctrl('s')), KeyEvent::SaveDocument);
    assert_eq!(KeyEvent::from_key_press(KeyPress::Ctrl('x')), KeyEvent::Unsupported);
    assert_eq!(KeyEvent::from_key_press(KeyPress::Other), KeyEvent::Unsupported);
}

#[test]
fn terminal_input_maps_to_input_events() {
    assert_eq!(InputEvent::from_terminal_input(None), InputEvent::Empty);
    assert_eq!(
        InputEvent::from_terminal_input(Some(TerminalInput::Other)),
        InputEvent::Unsupported
    );
    assert_eq!(
        InputEvent::from_terminal_input(Some(TerminalInput::Key(KeyPress::Ctrl('q')))),
        InputEvent::Key(KeyEvent::Exit)
    );
}

#[test]
fn only_exit_ends_input() {
    assert!(InputEvent::Key(KeyEvent::Exit).ends_input());
    assert!(!InputEvent::Key(KeyEvent::SaveDocument).ends_input());
    assert!(!InputEvent::Empty.ends_input());
    assert!(!InputEvent::Unsupported.ends_input());
}

#[test]
fn signals_map_to_syscall_events() {
    assert_eq!(SyscallEvent::from_signal(28, 28), SyscallEvent::WindowSizeChanged);
    assert_eq!(SyscallEvent::from_signal(2, 28), SyscallEvent::Unsupported);
}

#[test]
fn received_values_pass_through() {
    let key = InputEvent::Key(KeyEvent::Char('z'));
    assert_eq!(next_event(Selected::Input(Some(key)), false, false), TerminalEvent::Input(key));
    assert_eq!(
        next_event(Selected::Syscall(Some(SyscallEvent::WindowSizeChanged)), true, true),
        TerminalEvent::Syscall(SyscallEvent::WindowSizeChanged)
    );
}

#[test]
fn timeout_with_live_producers_is_empty() {
    assert_eq!(next_event(Selected::TimedOut, false, false), TerminalEvent::Empty);
}

#[test]
fn timeout_after_producer_died_is_exit() {
    assert_eq!(next_event(Selected::TimedOut, true, false), EXIT);
    assert_eq!(next_event(Selected::TimedOut, false, true), EXIT);
}

#[test]
fn disconnected_channel_is_exit() {
    assert_eq!(next_event(Selected::Input(None), false, false), EXIT);
    assert_eq!(next_event(Selected::Syscall(None), false, false), EXIT);
}

#[test]
fn both_channels_drain_without_loss() {
    let n = 5;
    let (key_tx, key_rx) = unbounded::<InputEvent>();
    let (sig_tx, sig_rx) = unbounded::<SyscallEvent>();
    for i in 0..n {
        key_tx.send(InputEvent::Key(KeyEvent::Char((b'a' + i as u8) as char))).unwrap();
        sig_tx.send(SyscallEvent::WindowSizeChanged).unwrap();
    }
    let mut keys = Vec::new();
    let mut resizes = 0;
    for _ in 0..2 * n {
        let mut sel = Select::new();
        let sig_index = sel.recv(&sig_rx);
        let key_index = sel.recv(&key_rx);
        let selected = match sel.select_timeout(Duration::from_secs(1)) {
            Ok(op) if op.index() == sig_index => Selected::Syscall(op.recv(&sig_rx).ok()),
            Ok(op) if op.index() == key_index => Selected::Input(op.recv(&key_rx).ok()),
            Ok(_) => unreachable!(),
            Err(_) => Selected::TimedOut,
        };
        match next_event(selected, false, false) {
            TerminalEvent::Input(InputEvent::Key(KeyEvent::Char(c))) => keys.push(c),
            TerminalEvent::Syscall(SyscallEvent::WindowSizeChanged) => resizes += 1,
            other => panic!("unexpected event {:?}", other),
        }
    }
    assert_eq!(keys, vec!['a', 'b', 'c', 'd', 'e']);
    assert_eq!(resizes, n);
}
