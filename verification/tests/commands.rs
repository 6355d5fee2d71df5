use dz6::app::{App, Dialog, FileInfo, UIState};
use dz6::config::Config;
use dz6::global::command::{
    command_events, command_key, parse_command, read_command, run_line, Command,
};
use dz6::input::Key;
use ratatui::crossterm::event::{Event, KeyCode, KeyEvent, KeyModifiers};

fn session(size: u64) -> App {
    App::new(FileInfo { size, is_read_only: false }, Config::default())
}

fn key(code: KeyCode) -> Event {
    Event::Key(KeyEvent::new(code, KeyModifiers::NONE))
}

fn chars(text: &str) -> Vec<char> {
    text.chars().collect()
}

fn type_text(app: &mut App, text: &str) {
    for c in text.chars() {
        assert!(!command_events(app, &key(KeyCode::Char(c))));
    }
}

#[test]
fn commands_are_read() {
    assert_eq!(read_command(&chars("q"), 5, 100), Command::Quit);
    assert_eq!(read_command(&chars("10"), 5, 100), Command::Goto(16));
    assert_eq!(read_command(&chars("10t"), 5, 100), Command::Goto(10));
    assert_eq!(read_command(&chars("+10"), 5, 100), Command::Goto(21));
    assert_eq!(read_command(&chars("+10t"), 5, 100), Command::Goto(15));
    assert_eq!(read_command(&chars("63"), 5, 100), Command::Goto(99));
    assert_eq!(read_command(&chars("64"), 5, 100), Command::OutOfRange);
    assert_eq!(read_command(&chars("+5f"), 5, 100), Command::OutOfRange);
    assert_eq!(read_command(&chars("+ffffffffffffffff"), 5, 100), Command::OutOfRange);
    assert_eq!(read_command(&chars("0"), 0, 0), Command::OutOfRange);
    assert_eq!(read_command(&chars(""), 5, 100), Command::Invalid);
    assert_eq!(read_command(&chars("qq"), 5, 100), Command::Invalid);
    assert_eq!(read_command(&chars("Q"), 5, 100), Command::Invalid);
    assert_eq!(read_command(&chars("-1"), 5, 100), Command::Invalid);
    assert_eq!(read_command(&chars(" 10"), 5, 100), Command::Invalid);
    assert_eq!(read_command(&chars("10000000000000000"), 5, 100), Command::Invalid);
}

#[test]
fn quit_ends_the_session() {
    let mut app = session(100);
    app.dialog = Some(Dialog::InvalidCommand);
    parse_command(&mut app, "q");
    assert!(!app.running);
    assert_eq!(app.dialog, Some(Dialog::InvalidCommand));
    assert_eq!(app.hex_view.offset, 0);
}

#[test]
fn offset_command_moves_and_closes_the_dialog() {
    let mut app = session(0x1000);
    app.dialog = Some(Dialog::InvalidCommand);
    parse_command(&mut app, "ff");
    assert_eq!(app.hex_view.offset, 255);
    assert_eq!(app.dialog, None);
    assert!(app.running);

    parse_command(&mut app, "+1");
    assert_eq!(app.hex_view.offset, 256);
    assert_eq!(app.hex_view.last_visited_offset, 255);

    parse_command(&mut app, "+16t");
    assert_eq!(app.hex_view.offset, 272);
    assert_eq!((app.hex_view.cursor.x, app.hex_view.cursor.y), (0, 17));
}

#[test]
fn offset_outside_the_file_is_reported() {
    let mut app = session(0x1000);
    app.goto(7);
    parse_command(&mut app, "1000");
    assert_eq!(app.dialog, Some(Dialog::InvalidOffset(0xfff)));
    assert_eq!(app.hex_view.offset, 7);
    assert_eq!(app.dialog.unwrap().message(), "Invalid offset. Maximum offset for this file: FFF");

    parse_command(&mut app, "+ff9");
    assert_eq!(app.dialog, Some(Dialog::InvalidOffset(0xfff)));
    assert_eq!(app.hex_view.offset, 7);

    let mut empty = session(0);
    parse_command(&mut empty, "0");
    assert_eq!(empty.dialog, Some(Dialog::InvalidOffset(0)));
}

#[test]
fn what_is_no_command_is_reported() {
    let mut app = session(0x1000);
    app.goto(7);
    for line in ["", "x", "255th", "-5", "q ", "+"] {
        app.dialog = None;
        run_line(&mut app, &chars(line));
        assert_eq!(app.dialog, Some(Dialog::InvalidCommand));
        assert_eq!(app.hex_view.offset, 7);
        assert!(app.running);
    }
    assert_eq!(Dialog::InvalidCommand.message(), "Invalid command");
    assert_eq!(Dialog::ReadFailed.message(), "Could not read the file");
}

#[test]
fn dialog_offsets_are_written_in_capital_hex() {
    assert_eq!(
        Dialog::InvalidOffset(0).message(),
        "Invalid offset. Maximum offset for this file: 0"
    );
    assert_eq!(
        Dialog::InvalidOffset(0xdead_beef).message(),
        "Invalid offset. Maximum offset for this file: DEADBEEF"
    );
    assert_eq!(
        Dialog::InvalidOffset(u64::MAX).message(),
        "Invalid offset. Maximum offset for this file: FFFFFFFFFFFFFFFF"
    );
    assert_eq!(
        Dialog::InvalidOffset(0x10).message(),
        "Invalid offset. Maximum offset for this file: 10"
    );
}

#[test]
fn command_line_starts_empty() {
    let app = session(100);
    assert_eq!(app.command_line(), ":");
    assert_eq!(app.command_input.value(), "");
}

#[test]
fn typed_keys_edit_the_command_line() {
    let mut app = session(0x1000);
    app.begin_command();
    assert_eq!(app.state, UIState::Command);
    type_text(&mut app, "1f");
    assert_eq!(app.command_line(), ":1f");
    assert_eq!(app.state, UIState::Command);
    assert_eq!(app.hex_view.offset, 0);

    assert!(!command_events(&mut app, &key(KeyCode::Backspace)));
    assert_eq!(app.command_line(), ":1");
}

#[test]
fn enter_submits_the_command_line() {
    let mut app = session(0x1000);
    app.begin_command();
    type_text(&mut app, "ff");
    assert!(!command_events(&mut app, &key(KeyCode::Enter)));
    assert_eq!(app.hex_view.offset, 255);
    assert_eq!(app.state, UIState::Normal);
    assert_eq!(app.dialog, None);
    assert_eq!(app.command_line(), ":");

    app.begin_command();
    type_text(&mut app, "zz");
    assert!(!command_events(&mut app, &key(KeyCode::Enter)));
    assert_eq!(app.dialog, Some(Dialog::InvalidCommand));
    assert_eq!(app.state, UIState::Normal);
    assert_eq!(app.hex_view.offset, 255);
    assert_eq!(app.command_line(), ":");

    app.begin_command();
    type_text(&mut app, "q");
    app.submit_command();
    assert!(!app.running);
}

#[test]
fn esc_closes_the_command_line() {
    let mut app = session(0x1000);
    app.begin_command();
    app.dialog = Some(Dialog::InvalidCommand);
    type_text(&mut app, "ff");
    assert!(!command_events(&mut app, &key(KeyCode::Esc)));
    assert_eq!(app.state, UIState::Normal);
    assert_eq!(app.dialog, None);
    assert_eq!(app.hex_view.offset, 0);
    assert_eq!(app.command_line(), ":ff");
}

#[test]
fn events_that_are_no_keys_change_nothing() {
    let mut app = session(0x1000);
    app.begin_command();
    type_text(&mut app, "ff");
    for event in [Event::FocusGained, Event::FocusLost, Event::Resize(80, 24)] {
        assert!(!command_events(&mut app, &event));
        assert_eq!(app.state, UIState::Command);
        assert_eq!(app.command_line(), ":ff");
        assert_eq!(app.hex_view.offset, 0);
    }
}

#[test]
fn the_key_decides_what_an_event_does() {
    let letter = key(KeyCode::Char('7'));

    let mut app = session(0x1000);
    app.begin_command();
    assert!(!command_key(&mut app, Some(Key::Char('7')), &letter));
    assert_eq!(app.command_line(), ":7");
    assert_eq!(app.state, UIState::Command);

    assert!(!command_key(&mut app, None, &letter));
    assert_eq!(app.command_line(), ":7");
    assert_eq!(app.state, UIState::Command);

    assert!(!command_key(&mut app, Some(Key::Enter), &letter));
    assert_eq!(app.command_line(), ":");
    assert_eq!(app.hex_view.offset, 7);
    assert_eq!(app.state, UIState::Normal);

    app.begin_command();
    app.dialog = Some(Dialog::InvalidCommand);
    assert!(!command_key(&mut app, Some(Key::Esc), &letter));
    assert_eq!(app.command_line(), ":");
    assert_eq!(app.dialog, None);
    assert_eq!(app.state, UIState::Normal);
    assert_eq!(app.hex_view.offset, 7);
}

#[test]
fn script_runs_line_by_line() {
    let mut app = session(0x1000);
    app.run_script("10\n+1\r\n\n+2t");
    assert_eq!(app.hex_view.offset, 0x13);
    assert_eq!(app.hex_view.last_visited_offset, 0x11);
    assert_eq!(app.dialog, None);

    let mut app = session(0x1000);
    app.run_script("20\nbogus\n");
    assert_eq!(app.hex_view.offset, 0x20);
    assert_eq!(app.dialog, Some(Dialog::InvalidCommand));

    let mut app = session(0x1000);
    app.run_script("");
    assert_eq!(app.hex_view.offset, 0);
    assert_eq!(app.dialog, None);

    let mut app = session(0x1000);
    app.run_script("q\n5000\n");
    assert!(!app.running);
    assert_eq!(app.dialog, Some(Dialog::InvalidOffset(0xfff)));

    let mut app = session(0x1000);
    app.run_script("\n");
    assert_eq!(app.dialog, Some(Dialog::InvalidCommand));

    let mut app = session(0x1000);
    app.run_script("10\r");
    assert_eq!(app.dialog, Some(Dialog::InvalidCommand));
    assert_eq!(app.hex_view.offset, 0);
}
