//! Going to an offset.

use crate::app::{window_end, window_start, App, Cursor};
use crate::config::{APP_CACHE_SIZE, APP_PAGE_SIZE};
use vstd::arithmetic::div_mod::lemma_fundamental_div_mod;
use vstd::prelude::*;

verus! {

impl App {
    /// Makes `offset` the current offset, if the file has it.
    ///
    /// The window becomes the block that holds `offset`, the page the one
    /// that holds it, and the cursor the place of `offset` on that page. The
    /// offset left behind is remembered. Where the window moves to another
    /// block, the bytes held so far are dropped: `pending_block` then names
    /// the block to read. An offset that the file does not have changes
    /// nothing.
    pub fn goto(&mut self, offset: u64)
        ensures
            final(self).reached(*old(self), offset),
            offset >= old(self).file_info.size ==> *final(self) == *old(self),
            offset < old(self).file_info.size ==> {
                &&& final(self).reader.shows(offset as int, old(self).file_info.size as int)
                &&& offset == final(self).reader.page_start + final(self).hex_view.cursor.y
                    * final(self).config.bytes_per_line() + final(self).hex_view.cursor.x
                &&& final(self).hex_view.cursor.x < final(self).config.bytes_per_line()
            },
            offset == 0 && old(self).file_info.size > 0 ==> {
                &&& final(self).reader.cache_start == 0
                &&& final(self).reader.page_start == 0
                &&& final(self).hex_view.cursor == (Cursor { x: 0, y: 0 })
            },
    {
        let size = self.file_info.size;
        if offset >= size {
            return ;
        }
        let line = self.config.hex_mode_bytes_per_line();

        let cache_start = (offset / APP_CACHE_SIZE) * APP_CACHE_SIZE;
        let cache_end = if size - cache_start >= APP_CACHE_SIZE {
            cache_start + (APP_CACHE_SIZE - 1)
        } else {
            size - 1
        };
        if self.reader.cache_start != cache_start || self.reader.cache_end != cache_end {
            self.reader.buffer = Vec::new();
        }
        self.reader.cache_start = cache_start;
        self.reader.cache_end = cache_end;

        let page_start = (offset / APP_PAGE_SIZE) * APP_PAGE_SIZE;
        self.reader.page_start = page_start;
        self.reader.page_end = if cache_end - page_start >= APP_PAGE_SIZE - 1 {
            page_start + (APP_PAGE_SIZE - 1)
        } else {
            cache_end
        };

        let on_page = (offset - page_start) as usize;
        self.hex_view.cursor.y = on_page / line;
        self.hex_view.cursor.x = on_page % line;
        proof {
            lemma_fundamental_div_mod(on_page as int, line as int);
            assert(line * (on_page / line) == (on_page / line) * line) by (nonlinear_arith);
        }

        self.hex_view.last_visited_offset = self.hex_view.offset;
        self.hex_view.offset = offset;

        self.reader.offset_location_in_cache = ((offset % APP_CACHE_SIZE) / APP_PAGE_SIZE)
            * APP_PAGE_SIZE;
        self.reader.page_current = offset / APP_PAGE_SIZE;
        self.reader.page_last = (size - 1) / APP_PAGE_SIZE;
        self.reader.page_current_size = if self.reader.page_current == self.reader.page_last && size
            % APP_PAGE_SIZE != 0 {
            size % APP_PAGE_SIZE
        } else {
            APP_PAGE_SIZE
        };
    }
}

/// Two offsets of a file share a window exactly when one lies between the
/// bounds of the other's window.
proof fn lemma_same_window(here: int, there: int, size: int)
    requires
        0 <= here < size,
        0 <= there < size,
    ensures
        window_start(here) <= there <= window_end(here, size) <==> window_start(there)
            == window_start(here),
        window_start(there) == window_start(here) ==> window_end(there, size) == window_end(
            here,
            size,
        ),
        window_start(there) <= window_end(there, size),
{
}

/// A move within the file, from a settled session whose window was read,
/// leaves the window's bytes lacking exactly when the offset lay outside
/// that window.
pub proof fn lemma_bytes_lack_outside_window(before: App, after: App, offset: u64)
    requires
        after.reached(before, offset),
        offset < before.file_info.size,
        before.settled(),
        before.reader.loaded(),
    ensures
        after.reader.loaded() <==> before.reader.cache_start <= offset
            <= before.reader.cache_end,
{
    lemma_same_window(
        before.hex_view.offset as int,
        offset as int,
        before.file_info.size as int,
    );
}

} // verus!
