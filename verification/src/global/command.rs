//! The command line.
//!
//! A command is `q`, which ends the session, or an offset expression, which
//! moves there. An expression that starts with `+` counts from the current
//! offset.

use crate::app::{App, Dialog, UIState};
use crate::input::{
    copy_text, edit_text, event_key, input_text, pressed_key, take_text, Key,
};
use crate::util::{chars_of, hex_number, offset_value, parse_offset_chars, push_hex_number};
use ratatui::crossterm::event::Event;
use vstd::prelude::*;
use vstd::string::StringExecFns;

verus! {

/// What a line of the command line asks for.
#[derive(Debug, PartialEq, Eq, Structural, Clone, Copy)]
pub enum Command {
    /// End the session.
    Quit,
    /// Move to the offset held here, which the file has.
    Goto(u64),
    /// Move to an offset that the file does not have.
    OutOfRange,
    /// Nothing that is understood.
    Invalid,
}

/// What `line` asks for, at the current offset `offset` of a file of `size`
/// bytes.
pub open spec fn command_value(line: Seq<char>, offset: u64, size: u64) -> Command {
    if line == seq!['q'] {
        Command::Quit
    } else {
        match offset_value(line) {
            Err(_) => Command::Invalid,
            Ok(number) => {
                let target = if line[0] == '+' {
                    offset + number
                } else {
                    number as int
                };
                if target < size {
                    Command::Goto(target as u64)
                } else {
                    Command::OutOfRange
                }
            },
        }
    }
}

/// Reads one line of the command line.
pub fn read_command(line: &[char], offset: u64, size: u64) -> (command: Command)
    ensures
        command == command_value(line@, offset, size),
{
    if line.len() == 1 && line[0] == 'q' {
        assert(line@ =~= seq!['q']);
        return Command::Quit;
    }
    match parse_offset_chars(line) {
        Err(_) => Command::Invalid,
        Ok(number) => {
            let target = if line[0] == '+' {
                offset.checked_add(number)
            } else {
                Some(number)
            };
            match target {
                Some(target) => if target < size {
                    Command::Goto(target)
                } else {
                    Command::OutOfRange
                },
                None => Command::OutOfRange,
            }
        },
    }
}

impl Dialog {
    /// The words of the message. An offset is written in hexadecimal.
    pub open spec fn text(self) -> Seq<char> {
        match self {
            Dialog::InvalidCommand => "Invalid command"@,
            Dialog::InvalidOffset(last) => "Invalid offset. Maximum offset for this file: "@
                + hex_number(last as nat),
            Dialog::ReadFailed => "Could not read the file"@,
        }
    }

    /// The words of the message.
    pub fn message(&self) -> (message: String)
        ensures
            message@ == self.text(),
    {
        match self {
            Dialog::InvalidCommand => String::from_str("Invalid command"),
            Dialog::InvalidOffset(last) => {
                let mut message = String::from_str(
                    "Invalid offset. Maximum offset for this file: ",
                );
                push_hex_number(&mut message, *last);
                message
            },
            Dialog::ReadFailed => String::from_str("Could not read the file"),
        }
    }
}

impl App {
    /// The last offset of the file, or 0 in an empty file.
    pub open spec fn last_offset(self) -> u64 {
        if self.file_info.size > 0 {
            (self.file_info.size - 1) as u64
        } else {
            0
        }
    }

    /// `self` is what `command` makes of `before`: the end of the session,
    /// a move without a dialog, or a dialog that says what was wrong.
    pub open spec fn commanded(self, before: App, command: Command) -> bool {
        match command {
            Command::Quit => self == (App { running: false, ..before }),
            Command::Goto(target) => self.reached(App { dialog: None, ..before }, target),
            Command::OutOfRange => self == (App {
                dialog: Some(Dialog::InvalidOffset(before.last_offset())),
                ..before
            }),
            Command::Invalid => self == (App { dialog: Some(Dialog::InvalidCommand), ..before }),
        }
    }

    /// `self` is `before` after Esc on the command line: no dialog, normal
    /// mode.
    pub open spec fn closed(self, before: App) -> bool {
        self == (App { dialog: None, state: UIState::Normal, ..before })
    }

    /// `self` is `before` after Enter on the command line: the text of the
    /// line was taken as a command, the line is empty, the mode is normal.
    pub open spec fn submitted(self, before: App) -> bool {
        &&& input_text(self.command_input) == Seq::<char>::empty()
        &&& self.commanded(
            App { state: UIState::Normal, command_input: self.command_input, ..before },
            command_value(
                input_text(before.command_input),
                before.hex_view.offset,
                before.file_info.size,
            ),
        )
    }

    /// `self` is `before` after `key` on the command line: closed by Esc,
    /// submitted by Enter, with some other text in the line after any other
    /// key, and the same where there was no key.
    pub open spec fn keyed(self, before: App, key: Option<Key>) -> bool {
        match key {
            Some(Key::Esc) => self.closed(before),
            Some(Key::Enter) => self.submitted(before),
            Some(_) => self == (App { command_input: self.command_input, ..before }),
            None => self == before,
        }
    }

    /// Carries out `command`.
    pub fn execute(&mut self, command: Command)
        ensures
            final(self).commanded(*old(self), command),
            old(self).settled() ==> final(self).settled(),
    {
        match command {
            Command::Quit => {
                self.running = false;
            },
            Command::Goto(target) => {
                self.dialog = None;
                self.goto(target);
            },
            Command::OutOfRange => {
                self.dialog = Some(Dialog::InvalidOffset(self.file_info.size.saturating_sub(1)));
            },
            Command::Invalid => {
                self.dialog = Some(Dialog::InvalidCommand);
            },
        }
    }

    /// The command line as it is shown: a colon, then the text.
    pub fn command_line(&self) -> (line: String)
        ensures
            line@ == seq![':'] + input_text(self.command_input),
    {
        proof {
            reveal_strlit(":");
        }
        let text = copy_text(&self.command_input);
        let line = String::from_str(":").concat(text.as_str());
        assert(line@ =~= seq![':'] + input_text(self.command_input));
        line
    }

    /// Gives the keyboard to the command line.
    pub fn begin_command(&mut self)
        ensures
            *final(self) == (App { state: UIState::Command, ..*old(self) }),
    {
        self.state = UIState::Command;
    }

    /// Esc on the command line: back to normal mode, without a dialog.
    pub fn close_command(&mut self)
        ensures
            final(self).closed(*old(self)),
    {
        self.dialog = None;
        self.state = UIState::Normal;
    }

    /// Enter on the command line: takes the text as a command, carries it
    /// out and returns to normal mode.
    pub fn submit_command(&mut self)
        ensures
            final(self).submitted(*old(self)),
            old(self).settled() ==> final(self).settled(),
    {
        let text = take_text(&mut self.command_input);
        parse_command(self, text.as_str());
        self.state = UIState::Normal;
    }
}

/// Carries out one line of the command line.
pub fn parse_command(app: &mut App, cmd: &str)
    ensures
        final(app).commanded(
            *old(app),
            command_value(cmd@, old(app).hex_view.offset, old(app).file_info.size),
        ),
        old(app).settled() ==> final(app).settled(),
{
    let line = chars_of(cmd);
    run_line(app, line.as_slice());
}

/// Carries out one line of the command line, given as its characters.
pub fn run_line(app: &mut App, line: &[char])
    ensures
        final(app).commanded(
            *old(app),
            command_value(line@, old(app).hex_view.offset, old(app).file_info.size),
        ),
        old(app).settled() ==> final(app).settled(),
{
    let command = read_command(line, app.hex_view.offset, app.file_info.size);
    app.execute(command);
}

/// Handles one event of the terminal while the command line has the
/// keyboard, given the key that the event reports: Esc closes the line,
/// Enter submits it, any other key edits the text as the text buffer sees
/// fit, and what is no key changes nothing. The answer is always `false`.
pub fn command_key(app: &mut App, key: Option<Key>, event: &Event) -> (stopped: bool)
    ensures
        !stopped,
        final(app).keyed(*old(app), key),
        old(app).settled() ==> final(app).settled(),
{
    match key {
        Some(Key::Esc) => {
            app.close_command();
        },
        Some(Key::Enter) => {
            app.submit_command();
        },
        Some(_) => {
            edit_text(&mut app.command_input, event);
        },
        None => {},
    }
    false
}

/// Handles one event of the terminal while the command line has the
/// keyboard: Esc closes the line, Enter submits it, any other key edits the
/// text, and what is no key changes nothing. The answer is always `false`.
pub fn command_events(app: &mut App, event: &Event) -> (stopped: bool)
    ensures
        !stopped,
        final(app).keyed(*old(app), event_key(*event)),
        old(app).settled() ==> final(app).settled(),
{
    let key = pressed_key(event);
    command_key(app, key, event)
}

} // verus!
