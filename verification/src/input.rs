//! The command line's text buffer and the terminal events that feed it.
//!
//! The buffer is `tui_input::Input` and the events are crossterm's, as
//! `ratatui` hands them on. Both are opaque here: what is known of them is
//! what the functions of this file state, and none of that is proved. The
//! text of a buffer and the key of an event have a name each, so that
//! contracts can speak of them.

use ratatui::crossterm::event::{Event, KeyCode};
use tui_input::backend::crossterm::EventHandler;
use tui_input::Input;
use vstd::prelude::*;

verus! {

/// `tui_input::Input`, a line of text with a cursor in it.
#[verifier::external_type_specification]
#[verifier::external_body]
pub struct ExInput(Input);

/// `crossterm::event::Event`, one event of the terminal.
#[verifier::external_type_specification]
#[verifier::external_body]
pub struct ExEvent(Event);

/// The text that a buffer holds.
pub uninterp spec fn input_text(input: Input) -> Seq<char>;

/// A key of the keyboard, as far as the editor tells keys apart.
#[derive(Debug, PartialEq, Eq, Structural, Clone, Copy)]
pub enum Key {
    Esc,
    Enter,
    Left,
    Right,
    Up,
    Down,
    Char(char),
    Other,
}

/// Calls `Input::default`, which makes a buffer with the empty string in it.
#[verifier::external_body]
pub(crate) fn empty_input() -> (input: Input)
    ensures
        input_text(input) == Seq::<char>::empty(),
{
    Input::default()
}

/// Calls `Input::value`, which shows the buffer's text, and copies it.
#[verifier::external_body]
pub(crate) fn copy_text(input: &Input) -> (text: String)
    ensures
        text@ == input_text(*input),
{
    input.value().to_owned()
}

/// Calls `Input::value_and_reset`, which hands out the buffer's text and
/// leaves the buffer with the empty string.
#[verifier::external_body]
pub(crate) fn take_text(input: &mut Input) -> (text: String)
    ensures
        text@ == input_text(*old(input)),
        input_text(*final(input)) == Seq::<char>::empty(),
{
    input.value_and_reset()
}

/// Calls `Input::handle_event` of tui_input's crossterm backend, which edits
/// the buffer as the event asks. Nothing is claimed of the text afterwards.
#[verifier::external_body]
pub(crate) fn edit_text(input: &mut Input, event: &Event) {
    input.handle_event(event);
}

/// The key that an event of the terminal reports, or none where the event
/// is no key event. It depends on the event alone.
pub uninterp spec fn event_key(event: Event) -> Option<Key>;

/// Tells which key an event of crossterm reports, by the variant of `Event`
/// and, for `Event::Key`, the variant of its `KeyCode`. The answer depends
/// on the event alone, which is all that is claimed of it.
#[verifier::external_body]
pub(crate) fn pressed_key(event: &Event) -> (key: Option<Key>)
    ensures
        key == event_key(*event),
{
    match event {
        Event::Key(key) => Some(
            match key.code {
                KeyCode::Esc => Key::Esc,
                KeyCode::Enter => Key::Enter,
                KeyCode::Left => Key::Left,
                KeyCode::Right => Key::Right,
                KeyCode::Up => Key::Up,
                KeyCode::Down => Key::Down,
                KeyCode::Char(c) => Key::Char(c),
                _ => Key::Other,
            },
        ),
        _ => None,
    }
}

} // verus!
