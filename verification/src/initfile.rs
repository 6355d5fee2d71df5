//! The startup script: commands, one on a line, that run before the first
//! key is read.

use crate::app::App;
use crate::global::command::{command_value, run_line};
use crate::util::chars_of;
use vstd::prelude::*;

verus! {

/// `line` without the carriage return at its end, if it has one.
pub open spec fn without_return(line: Seq<char>) -> Seq<char> {
    if line.len() > 0 && line.last() == '\r' {
        line.drop_last()
    } else {
        line
    }
}

/// What follows the last line feed of `text`: the line that is still open.
pub open spec fn open_line(text: Seq<char>) -> Seq<char>
    decreases text.len(),
{
    if text.len() == 0 || text.last() == '\n' {
        Seq::empty()
    } else {
        open_line(text.drop_last()).push(text.last())
    }
}

/// The lines of `text` that a line feed ends, in order. A carriage return
/// before the line feed belongs to the line's end.
pub open spec fn closed_lines(text: Seq<char>) -> Seq<Seq<char>>
    decreases text.len(),
{
    if text.len() == 0 {
        Seq::empty()
    } else if text.last() == '\n' {
        closed_lines(text.drop_last()).push(without_return(open_line(text.drop_last())))
    } else {
        closed_lines(text.drop_last())
    }
}

/// The lines of `text`. The last line needs no line feed; where `text`
/// ends in one, no empty line follows.
pub open spec fn script_lines(text: Seq<char>) -> Seq<Seq<char>> {
    if open_line(text).len() > 0 {
        closed_lines(text).push(open_line(text))
    } else {
        closed_lines(text)
    }
}

impl App {
    /// `self` is what the commands `lines` make of `before`, carried out
    /// first to last.
    pub open spec fn ran(self, before: App, lines: Seq<Seq<char>>) -> bool
        decreases lines.len(),
    {
        if lines.len() == 0 {
            self == before
        } else {
            exists|middle: App|
                {
                    &&& middle.ran(before, lines.drop_last())
                    &&& #[trigger] self.commanded(
                        middle,
                        command_value(
                            lines.last(),
                            middle.hex_view.offset,
                            middle.file_info.size,
                        ),
                    )
                }
        }
    }

    /// Carries out the lines of `script` as commands, first to last.
    pub fn run_script(&mut self, script: &str)
        ensures
            final(self).ran(*old(self), script_lines(script@)),
            old(self).settled() ==> final(self).settled(),
    {
        let text = chars_of(script);
        let mut line: Vec<char> = Vec::new();
        let mut i: usize = 0;
        while i < text.len()
            invariant
                i <= text.len(),
                self.ran(*old(self), closed_lines(text@.take(i as int))),
                line@ == open_line(text@.take(i as int)),
                old(self).settled() ==> self.settled(),
            decreases text.len() - i,
        {
            let c = text[i];
            assert(text@.take(i + 1).drop_last() =~= text@.take(i as int));
            assert(text@.take(i + 1).last() == c);
            if c == '\n' {
                if line.len() > 0 && line[line.len() - 1] == '\r' {
                    line.pop();
                }
                let ghost middle = *self;
                let ghost lines = closed_lines(text@.take(i + 1));
                run_line(self, line.as_slice());
                assert(lines.last() == line@);
                assert(lines.drop_last() =~= closed_lines(text@.take(i as int)));
                assert(middle.ran(*old(self), lines.drop_last()));
                proof {
                    lemma_ran_one_more(*self, middle, *old(self), lines);
                }
                line = Vec::new();
            } else {
                line.push(c);
            }
            i += 1;
        }
        assert(text@.take(i as int) =~= text@);
        if line.len() > 0 {
            let ghost middle = *self;
            let ghost lines = script_lines(text@);
            run_line(self, line.as_slice());
            assert(lines.last() == line@);
            assert(lines.drop_last() =~= closed_lines(text@));
            assert(middle.ran(*old(self), lines.drop_last()));
            proof {
                lemma_ran_one_more(*self, middle, *old(self), lines);
            }
        }
    }
}

/// One more command carried out is one more line run.
proof fn lemma_ran_one_more(after: App, middle: App, before: App, lines: Seq<Seq<char>>)
    requires
        lines.len() > 0,
        middle.ran(before, lines.drop_last()),
        after.commanded(
            middle,
            command_value(lines.last(), middle.hex_view.offset, middle.file_info.size),
        ),
    ensures
        after.ran(before, lines),
{
}

} // verus!
