//! Pending edits and what is read through them.
//!
//! An edit is the new byte for one offset. Edits lie over the file until
//! they are written back: a read sees the edit where there is one.

use crate::app::App;
use crate::hex::selection::Selection;
use crate::util::{hex_pair, push_hex_pair};
use std::collections::HashMap;
use vstd::prelude::*;

verus! {

broadcast use vstd::std_specs::hash::group_hash_axioms;

/// The edits `edits` with `byte` written at every offset from `start` to
/// `end`, both included.
pub open spec fn filled(edits: Map<u64, u8>, start: u64, end: u64, byte: u8) -> Map<u64, u8> {
    Map::new(
        |offset: u64| edits.contains_key(offset) || start <= offset <= end,
        |offset: u64|
            if start <= offset <= end {
                byte
            } else {
                edits[offset]
            },
    )
}

/// Writes `byte` at every offset of `selection`, and nowhere else.
pub fn fill(edits: &mut HashMap<u64, u8>, selection: &Selection, byte: u8)
    ensures
        final(edits)@ == filled(old(edits)@, selection.start, selection.end, byte),
        forall|offset: u64|
            selection.start <= offset <= selection.end ==> final(edits)@.contains_key(offset)
                && final(edits)@[offset] == byte,
        forall|offset: u64|
            !(selection.start <= offset <= selection.end) ==> final(edits)@.contains_key(offset)
                == old(edits)@.contains_key(offset) && (old(edits)@.contains_key(offset)
                ==> final(edits)@[offset] == old(edits)@[offset]),
{
    let start = selection.start;
    let end = selection.end;
    if start > end {
        assert(edits@ =~= filled(old(edits)@, start, end, byte));
        return ;
    }
    let mut offset = start;
    loop
        invariant_except_break
            start <= offset <= end,
            forall|o: u64|
                edits@.contains_key(o) <==> old(edits)@.contains_key(o) || start <= o < offset,
            forall|o: u64|
                edits@.contains_key(o) ==> edits@[o] == if start <= o < offset {
                    byte
                } else {
                    old(edits)@[o]
                },
        ensures
            edits@ =~= filled(old(edits)@, start, end, byte),
        decreases end - offset,
    {
        edits.insert(offset, byte);
        if offset == end {
            break ;
        }
        offset += 1;
    }
}

impl App {
    /// The text that a yank of the offsets from `start` to `end` gives: for
    /// each offset in ascending order whose byte can be read, that byte as
    /// two hexadecimal digits.
    pub open spec fn yanked(self, start: int, end: int) -> Seq<char>
        decreases end - start + 1,
    {
        if start > end {
            Seq::empty()
        } else {
            self.yanked(start, end - 1) + match self.merged_byte(end as u64) {
                Some(byte) => hex_pair(byte),
                None => Seq::empty(),
            }
        }
    }

    /// The bytes of the selection as the user sees them, in hexadecimal.
    pub fn yank(&self) -> (text: String)
        ensures
            text@ == self.yanked(
                self.hex_view.selection.start as int,
                self.hex_view.selection.end as int,
            ),
    {
        let start = self.hex_view.selection.start;
        let end = self.hex_view.selection.end;
        let mut text = String::new();
        if start > end {
            return text;
        }
        let mut offset = start;
        loop
            invariant_except_break
                start <= offset <= end,
                text@ == self.yanked(start as int, offset - 1),
            ensures
                text@ == self.yanked(start as int, end as int),
            decreases end - offset,
        {
            match self.read_u8(offset) {
                Some(byte) => {
                    push_hex_pair(&mut text, byte);
                },
                None => {
                    assert(text@ + Seq::<char>::empty() =~= text@);
                },
            }
            if offset == end {
                break ;
            }
            offset += 1;
        }
        text
    }
}

} // verus!
