//! A directional selection of file offsets.
//!
//! A selection is an inclusive range `[start, end]` together with the side
//! towards which it was last extended. Moving further in that direction
//! grows the range; moving against it shrinks the range from the far edge.

use crate::app::{App, HexView, UIState};
use crate::hex::edit::{fill, filled};
use crate::input::Key;
use vstd::prelude::*;

verus! {

/// The side towards which a selection was last extended.
#[derive(Debug, PartialEq, Eq, Structural, Clone, Copy)]
pub enum Direction {
    Left,
    Right,
}

/// An inclusive range of offsets, anchored by the direction of the last move.
#[derive(Debug, Clone, Copy)]
pub struct Selection {
    pub start: u64,
    pub end: u64,
    pub direction: Option<Direction>,
}

/// One directional move of the cursor to a new offset.
pub enum Move {
    Left(u64),
    Right(u64),
}

impl Selection {
    /// The selection that covers offset 0 alone and has no anchor.
    pub open spec fn cleared() -> Selection {
        Selection { start: 0, end: 0, direction: None }
    }

    /// The range is not inverted.
    pub open spec fn ordered(self) -> bool {
        self.start <= self.end
    }

    /// The direction that the next move sees: a collapsed selection has none,
    /// whatever the field still holds.
    pub open spec fn anchor(self) -> Option<Direction> {
        if self.start == self.end {
            None
        } else {
            self.direction
        }
    }

    /// The selection after the cursor moved left to `offset`.
    pub open spec fn after_left(self, offset: u64) -> Selection {
        match self.anchor() {
            Some(Direction::Right) => Selection {
                end: if offset >= 1 && offset - 1 >= self.start {
                    (offset - 1) as u64
                } else {
                    self.start
                },
                ..self
            },
            _ => Selection { start: offset, direction: Some(Direction::Left), ..self },
        }
    }

    /// The selection after the cursor moved right to `offset`.
    pub open spec fn after_right(self, offset: u64) -> Selection {
        match self.anchor() {
            Some(Direction::Left) => Selection { start: (offset + 1) as u64, ..self },
            _ => Selection { end: offset, direction: Some(Direction::Right), ..self },
        }
    }

    /// The number of offsets that the selection yields.
    pub open spec fn count(self) -> nat {
        if self.start <= self.end {
            (self.end - self.start + 1) as nat
        } else {
            0
        }
    }

    /// The offsets of the selection in ascending order.
    pub open spec fn offsets(self) -> Seq<u64> {
        Seq::new(self.count(), |i: int| (self.start + i) as u64)
    }

    /// The selection after `step`.
    pub open spec fn after(self, step: Move) -> Selection {
        match step {
            Move::Left(offset) => self.after_left(offset),
            Move::Right(offset) => self.after_right(offset),
        }
    }

    /// Whether `step` moves the near edge no further than the far edge, or
    /// moves the far edge at all.
    pub open spec fn admits(self, step: Move) -> bool {
        match step {
            Move::Left(offset) => self.anchor() == Some(Direction::Right) || offset <= self.end,
            Move::Right(offset) => if self.anchor() == Some(Direction::Left) {
                offset + 1 <= self.end
            } else {
                self.start <= offset
            },
        }
    }

    /// The selection after all of `steps`, first to last.
    pub open spec fn after_all(self, steps: Seq<Move>) -> Selection
        decreases steps.len(),
    {
        if steps.len() == 0 {
            self
        } else {
            self.after_all(steps.drop_last()).after(steps.last())
        }
    }

    /// Whether each of `steps` is admitted by the selection it meets.
    pub open spec fn admits_all(self, steps: Seq<Move>) -> bool
        decreases steps.len(),
    {
        steps.len() == 0 || {
            &&& self.admits_all(steps.drop_last())
            &&& self.after_all(steps.drop_last()).admits(steps.last())
        }
    }

    /// Whether `offset` lies in the inclusive range.
    pub fn contains(&self, offset: u64) -> (inside: bool)
        ensures
            inside == (self.start <= offset <= self.end),
    {
        offset >= self.start && offset <= self.end
    }

    /// Collapses the selection onto offset 0 and drops the anchor.
    pub fn clear(&mut self)
        ensures
            *final(self) == Selection::cleared(),
    {
        self.start = 0;
        self.end = 0;
        self.direction = None;
    }

    /// Follows the cursor to `offset` on its left.
    ///
    /// Without an anchor, or anchored left, the range starts at `offset`.
    /// Anchored right, the range gives up what lies at `offset` and beyond,
    /// but never its first offset.
    pub fn select_left(&mut self, offset: u64)
        ensures
            *final(self) == old(self).after_left(offset),
            old(self).ordered() ==> (final(self).ordered() <==> old(self).admits(
                Move::Left(offset),
            )),
    {
        if self.start == self.end {
            self.direction = None;
        }
        match self.direction {
            Some(Direction::Right) => {
                let before: u64 = offset.saturating_sub(1);
                self.end = if before >= self.start {
                    before
                } else {
                    self.start
                };
            },
            _ => {
                self.direction = Some(Direction::Left);
                self.start = offset;
            },
        }
    }

    /// Follows the cursor to `offset` on its right.
    ///
    /// Without an anchor, or anchored right, the range ends at `offset`.
    /// Anchored left, the range gives up `offset` and what lies before it.
    pub fn select_right(&mut self, offset: u64)
        requires
            old(self).anchor() == Some(Direction::Left) ==> offset < u64::MAX,
        ensures
            *final(self) == old(self).after_right(offset),
            old(self).ordered() ==> (final(self).ordered() <==> old(self).admits(
                Move::Right(offset),
            )),
    {
        if self.start == self.end {
            self.direction = None;
        }
        match self.direction {
            Some(Direction::Left) => {
                self.start = offset + 1;
            },
            _ => {
                self.direction = Some(Direction::Right);
                self.end = offset;
            },
        }
    }

    /// The `index`-th offset of the selection, counted from its start.
    pub fn offset_at(&self, index: u64) -> (offset: Option<u64>)
        ensures
            offset == if index < self.count() {
                Some(self.offsets()[index as int])
            } else {
                None
            },
    {
        if self.start <= self.end && index <= self.end - self.start {
            Some(self.start + index)
        } else {
            None
        }
    }
}

impl Default for Selection {
    fn default() -> (selection: Selection)
        ensures
            selection == Selection::cleared(),
    {
        Selection { start: 0, end: 0, direction: None }
    }
}

/// A move keeps an ordered selection ordered exactly when the selection
/// admits it. A move to the right of the last offset there is, against a
/// left anchor, has no successor to start from and is left out.
pub proof fn lemma_move_keeps_order(selection: Selection, step: Move)
    requires
        selection.ordered(),
        step matches Move::Right(offset) ==> selection.anchor() == Some(Direction::Left)
            ==> offset < u64::MAX,
    ensures
        selection.after(step).ordered() <==> selection.admits(step),
{
}

/// Starting from a cleared selection, after every one of a run of admitted
/// moves the start is no greater than the end, and the offsets that the
/// selection yields are exactly those that lie between the two.
pub proof fn lemma_moves_keep_order(steps: Seq<Move>, upto: int, offset: u64)
    requires
        Selection::cleared().admits_all(steps),
        0 <= upto <= steps.len(),
    ensures
        Selection::cleared().after_all(steps.take(upto)).ordered(),
        Selection::cleared().after_all(steps.take(upto)).offsets().contains(offset) <==> {
            &&& Selection::cleared().after_all(steps.take(upto)).start <= offset
            &&& offset <= Selection::cleared().after_all(steps.take(upto)).end
        },
    decreases steps.len(),
{
    let first = Selection::cleared();
    if upto == steps.len() {
        assert(steps.take(upto) =~= steps);
        if steps.len() > 0 {
            let shorter = steps.drop_last();
            lemma_moves_keep_order(shorter, shorter.len() as int, offset);
            assert(shorter.take(shorter.len() as int) =~= shorter);
            lemma_move_keeps_order(first.after_all(shorter), steps.last());
        }
    } else {
        let shorter = steps.drop_last();
        lemma_moves_keep_order(shorter, upto, offset);
        assert(shorter.take(upto) =~= steps.take(upto));
    }
    lemma_offsets_are_the_range(first.after_all(steps.take(upto)), offset);
}

/// The offsets that a selection yields are those between its start and its
/// end, each once and in ascending order.
pub proof fn lemma_offsets_are_the_range(selection: Selection, offset: u64)
    ensures
        selection.offsets().contains(offset) <==> selection.start <= offset <= selection.end,
        forall|i: int, j: int|
            0 <= i < j < selection.offsets().len() ==> selection.offsets()[i]
                < selection.offsets()[j],
{
    let offsets = selection.offsets();
    if selection.start <= offset <= selection.end {
        assert(offsets[offset - selection.start] == offset);
    }
}

/// What a key asks for while a selection is made.
#[derive(Debug, PartialEq, Eq, Structural, Clone, Copy)]
pub enum SelectCommand {
    /// Leave the mode and drop the selection.
    Leave,
    /// One byte back.
    Left,
    /// One byte on.
    Right,
    /// One line back.
    Up,
    /// One line on.
    Down,
    /// Overwrite the selection with the given byte.
    Fill(u8),
    /// Copy the selection.
    Yank,
    /// Nothing.
    Ignore,
}

/// The byte that stands for "no operation" in machine code.
pub const NOP: u8 = 0x90;

/// What `key` asks for: Esc and Enter leave, the arrows and `h` `j` `k` `l`
/// move, `z` fills with zeros, `n` with no-ops, `y` copies.
pub open spec fn select_command(key: Key) -> SelectCommand {
    match key {
        Key::Esc | Key::Enter => SelectCommand::Leave,
        Key::Left => SelectCommand::Left,
        Key::Right => SelectCommand::Right,
        Key::Up => SelectCommand::Up,
        Key::Down => SelectCommand::Down,
        Key::Char(c) => if c == 'h' {
            SelectCommand::Left
        } else if c == 'l' {
            SelectCommand::Right
        } else if c == 'k' {
            SelectCommand::Up
        } else if c == 'j' {
            SelectCommand::Down
        } else if c == 'z' {
            SelectCommand::Fill(0)
        } else if c == 'n' {
            SelectCommand::Fill(NOP)
        } else if c == 'y' {
            SelectCommand::Yank
        } else {
            SelectCommand::Ignore
        },
        Key::Other => SelectCommand::Ignore,
    }
}

/// What `key` asks for while a selection is made.
pub fn command_of_key(key: Key) -> (command: SelectCommand)
    ensures
        command == select_command(key),
{
    match key {
        Key::Esc | Key::Enter => SelectCommand::Leave,
        Key::Left | Key::Char('h') => SelectCommand::Left,
        Key::Right | Key::Char('l') => SelectCommand::Right,
        Key::Up | Key::Char('k') => SelectCommand::Up,
        Key::Down | Key::Char('j') => SelectCommand::Down,
        Key::Char('z') => SelectCommand::Fill(0),
        Key::Char('n') => SelectCommand::Fill(NOP),
        Key::Char('y') => SelectCommand::Yank,
        _ => SelectCommand::Ignore,
    }
}

impl App {
    /// Starts a selection: it holds the current offset alone and has no
    /// anchor yet.
    pub fn begin_selection(&mut self)
        ensures
            *final(self) == (App {
                state: UIState::HexSelection,
                ..old(self).with_selection(
                    Selection {
                        start: old(self).hex_view.offset,
                        end: old(self).hex_view.offset,
                        direction: None,
                    },
                )
            }),
    {
        self.state = UIState::HexSelection;
        self.hex_view.selection = Selection {
            start: self.hex_view.offset,
            end: self.hex_view.offset,
            direction: None,
        };
    }

    /// `self` with `selection` in place of its selection.
    pub open spec fn with_selection(self, selection: Selection) -> App {
        App { hex_view: HexView { selection, ..self.hex_view }, ..self }
    }

    /// The offset that `command` moves to, if it moves: one byte or one line
    /// from the current offset, within the file. A step right stops at the
    /// last offset, a line up stops short of offset 0, and a line down ends
    /// on the last offset at the latest.
    pub open spec fn select_target(self, command: SelectCommand) -> Option<u64> {
        let offset = self.hex_view.offset as int;
        let size = self.file_info.size as int;
        let line = self.config.bytes_per_line();
        match command {
            SelectCommand::Left => Some(
                if offset >= 1 {
                    (offset - 1) as u64
                } else {
                    0
                },
            ),
            SelectCommand::Right => if offset + 1 < size {
                Some((offset + 1) as u64)
            } else {
                None
            },
            SelectCommand::Up => if offset > line {
                Some((offset - line) as u64)
            } else {
                None
            },
            SelectCommand::Down => if size == 0 {
                None
            } else if offset + line < size {
                Some((offset + line) as u64)
            } else {
                Some((size - 1) as u64)
            },
            _ => None,
        }
    }

    /// `self` is what `command` makes of `before`, and `stopped` says that
    /// the command met a limit and did nothing.
    ///
    /// A move extends or shrinks the selection towards its target and goes
    /// there. A fill writes its byte over the selection as pending edits,
    /// turns to editing and drops the selection; a file that is read-only
    /// stops it. A yank lays the selection's bytes out for the clipboard in
    /// hexadecimal, returns to normal mode and drops the selection.
    pub open spec fn selected(self, before: App, command: SelectCommand, stopped: bool) -> bool {
        let kept = before.hex_view.selection;
        match command {
            SelectCommand::Leave => !stopped && self == (App {
                state: UIState::Normal,
                dialog: None,
                hex_view: HexView {
                    editing_hex: true,
                    selection: Selection::cleared(),
                    ..before.hex_view
                },
                ..before
            }),
            SelectCommand::Left | SelectCommand::Up => match before.select_target(command) {
                Some(target) => !stopped && self.reached(
                    before.with_selection(kept.after_left(target)),
                    target,
                ),
                None => stopped && self == before,
            },
            SelectCommand::Right | SelectCommand::Down => match before.select_target(command) {
                Some(target) => !stopped && self.reached(
                    before.with_selection(kept.after_right(target)),
                    target,
                ),
                None => stopped && self == before,
            },
            SelectCommand::Fill(byte) => if before.file_info.is_read_only {
                stopped && self == before
            } else {
                &&& !stopped
                &&& self.hex_view.changed_bytes@ == filled(
                    before.hex_view.changed_bytes@,
                    kept.start,
                    kept.end,
                    byte,
                )
                &&& self == (App {
                    state: UIState::HexEditing,
                    hex_view: HexView {
                        selection: Selection::cleared(),
                        changed_bytes: self.hex_view.changed_bytes,
                        ..before.hex_view
                    },
                    ..before
                })
            },
            SelectCommand::Yank => {
                &&& !stopped
                &&& self.clipboard matches Some(text) && text@ == before.yanked(
                    kept.start as int,
                    kept.end as int,
                )
                &&& self == (App {
                    state: UIState::Normal,
                    clipboard: self.clipboard,
                    hex_view: HexView { selection: Selection::cleared(), ..before.hex_view },
                    ..before
                })
            },
            SelectCommand::Ignore => !stopped && self == before,
        }
    }
}

/// Handles one key while a selection is made. Says whether the key met a
/// limit and did nothing.
pub fn select_events(app: &mut App, key: Key) -> (stopped: bool)
    ensures
        final(app).selected(*old(app), select_command(key), stopped),
        old(app).settled() ==> final(app).settled(),
        old(app).file_info.is_read_only ==> final(app).hex_view.changed_bytes == old(
            app,
        ).hex_view.changed_bytes,
{
    let offset = app.hex_view.offset;
    let size = app.file_info.size;
    let line = app.config.hex_mode_bytes_per_line() as u64;
    match command_of_key(key) {
        SelectCommand::Leave => {
            app.state = UIState::Normal;
            app.dialog = None;
            app.hex_view.editing_hex = true;
            app.hex_view.selection.clear();
        },
        SelectCommand::Left => {
            let target = offset.saturating_sub(1);
            app.hex_view.selection.select_left(target);
            app.goto(target);
        },
        SelectCommand::Right => {
            if offset >= size || offset + 1 >= size {
                return true;
            }
            let target = offset + 1;
            app.hex_view.selection.select_right(target);
            app.goto(target);
        },
        SelectCommand::Up => {
            let target = offset.saturating_sub(line);
            if target == 0 {
                return true;
            }
            app.hex_view.selection.select_left(target);
            app.goto(target);
        },
        SelectCommand::Down => {
            if size == 0 {
                return true;
            }
            let below = offset.saturating_add(line);
            let target = if below < size {
                below
            } else {
                size - 1
            };
            app.hex_view.selection.select_right(target);
            app.goto(target);
        },
        SelectCommand::Fill(byte) => {
            if app.file_info.is_read_only {
                return true;
            }
            app.state = UIState::HexEditing;
            let selection = app.hex_view.selection;
            fill(&mut app.hex_view.changed_bytes, &selection, byte);
            app.hex_view.selection.clear();
        },
        SelectCommand::Yank => {
            let text = app.yank();
            app.clipboard = Some(text);
            app.state = UIState::Normal;
            app.hex_view.selection.clear();
        },
        SelectCommand::Ignore => {},
    }
    false
}

} // verus!
