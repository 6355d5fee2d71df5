//! The state of one editing session.
//!
//! A session shows one file. Of the file only a window is resident: the
//! block of `APP_CACHE_SIZE` bytes that holds the current offset. The view
//! shows one page of that window, and the cursor marks the current offset
//! on the page. Reading the file is left to the caller: the session says
//! which block it lacks, and takes the bytes once they were read.

use crate::config::{Config, APP_CACHE_SIZE, APP_PAGE_SIZE};
use crate::hex::selection::Selection;
use crate::input::{empty_input, input_text};
use std::collections::HashMap;
use tui_input::Input;
use vstd::arithmetic::div_mod::lemma_fundamental_div_mod;
use vstd::prelude::*;

verus! {

broadcast use vstd::std_specs::hash::group_hash_axioms;

/// What is known of the file.
#[derive(Debug, PartialEq, Eq, Structural, Clone, Copy)]
pub struct FileInfo {
    pub size: u64,
    pub is_read_only: bool,
}

/// A place on the page: column `x` of line `y`.
#[derive(Debug, PartialEq, Eq, Structural, Clone, Copy)]
pub struct Cursor {
    pub x: usize,
    pub y: usize,
}

/// The part of the program that has the keyboard.
#[derive(Debug, PartialEq, Eq, Structural, Clone, Copy)]
pub enum UIState {
    Normal,
    Command,
    HexEditing,
    HexSelection,
}

/// A message that lies over the command line.
#[derive(Debug, PartialEq, Eq, Structural, Clone, Copy)]
pub enum Dialog {
    /// The command was not understood.
    InvalidCommand,
    /// The command named an offset outside the file, whose last offset is
    /// the one held here.
    InvalidOffset(u64),
    /// The bytes of the window could not be read.
    ReadFailed,
}

/// The resident window and the page of it that is shown.
#[derive(Debug)]
pub struct Reader {
    /// First offset of the window.
    pub cache_start: u64,
    /// Last offset of the window.
    pub cache_end: u64,
    /// First offset of the page.
    pub page_start: u64,
    /// Last offset of the page.
    pub page_end: u64,
    /// Number of the page, counted from the start of the file.
    pub page_current: u64,
    /// Bytes on the page.
    pub page_current_size: u64,
    /// Number of the last page of the file.
    pub page_last: u64,
    /// Where the page starts in the window.
    pub offset_location_in_cache: u64,
    /// The bytes of the window, or nothing while they are yet to be read.
    pub buffer: Vec<u8>,
}

/// The hex view: where the user is, what is selected, what was changed.
#[derive(Debug)]
pub struct HexView {
    pub offset: u64,
    pub last_visited_offset: u64,
    pub cursor: Cursor,
    pub selection: Selection,
    /// Edits that were not written back: the new byte for each offset.
    pub changed_bytes: HashMap<u64, u8>,
    pub editing_hex: bool,
}

/// One editing session.
#[derive(Debug)]
pub struct App {
    pub running: bool,
    pub state: UIState,
    /// The message that is shown, if any.
    pub dialog: Option<Dialog>,
    pub file_info: FileInfo,
    pub config: Config,
    pub reader: Reader,
    pub hex_view: HexView,
    /// The text of the command line.
    pub command_input: Input,
    /// Text that waits to be handed to the system clipboard.
    pub clipboard: Option<String>,
}

/// First offset of the window that holds `offset`.
pub open spec fn window_start(offset: int) -> int {
    APP_CACHE_SIZE * (offset / APP_CACHE_SIZE as int)
}

/// Last offset of the window that holds `offset`, in a file of `size` bytes:
/// a window is cut short where the file ends.
pub open spec fn window_end(offset: int, size: int) -> int {
    if window_start(offset) + APP_CACHE_SIZE <= size {
        window_start(offset) + APP_CACHE_SIZE - 1
    } else {
        size - 1
    }
}

/// First offset of the page that holds `offset`.
pub open spec fn page_start(offset: int) -> int {
    APP_PAGE_SIZE * (offset / APP_PAGE_SIZE as int)
}

/// Last offset of the page that holds `offset`: a page is cut short where
/// its window ends.
pub open spec fn page_end(offset: int, size: int) -> int {
    if page_start(offset) + APP_PAGE_SIZE - 1 <= window_end(offset, size) {
        page_start(offset) + APP_PAGE_SIZE - 1
    } else {
        window_end(offset, size)
    }
}

/// Number of the last page of a file of `size` bytes.
pub open spec fn last_page(size: int) -> int {
    if size > 0 {
        (size - 1) / APP_PAGE_SIZE as int
    } else {
        0
    }
}

/// Bytes on the page that holds `offset`: a full page, but for the last
/// page of a file whose size is no multiple of the page size.
pub open spec fn page_size_at(offset: int, size: int) -> int {
    if offset / APP_PAGE_SIZE as int == last_page(size) && size % APP_PAGE_SIZE as int != 0 {
        size % APP_PAGE_SIZE as int
    } else {
        APP_PAGE_SIZE as int
    }
}

/// Where the page that holds `offset` starts in its window.
pub open spec fn location_in_cache(offset: int) -> int {
    ((offset % APP_CACHE_SIZE as int) / APP_PAGE_SIZE as int) * APP_PAGE_SIZE
}

impl Reader {
    /// The window and the page are those of `offset` in a file of `size`
    /// bytes.
    pub open spec fn shows(self, offset: int, size: int) -> bool {
        &&& self.cache_start == window_start(offset)
        &&& self.cache_end == window_end(offset, size)
        &&& self.page_start == page_start(offset)
        &&& self.page_end == page_end(offset, size)
        &&& self.page_current == offset / APP_PAGE_SIZE as int
        &&& self.page_current_size == page_size_at(offset, size)
        &&& self.page_last == last_page(size)
        &&& self.offset_location_in_cache == location_in_cache(offset)
    }

    /// Bytes that the window spans.
    pub open spec fn span(self) -> int {
        self.cache_end - self.cache_start + 1
    }

    /// The bytes of the window were read.
    pub open spec fn loaded(self) -> bool {
        self.cache_start <= self.cache_end && self.buffer@.len() == self.span()
    }

    /// The byte of the file at `offset`, where the window holds it.
    pub open spec fn byte_at(self, offset: int) -> Option<u8> {
        if self.cache_start <= offset && offset - self.cache_start < self.buffer@.len() {
            Some(self.buffer@[offset - self.cache_start])
        } else {
            None
        }
    }
}

impl App {
    /// The view is the one that belongs to the current offset: the window
    /// and the page hold it, and the cursor marks it. In an empty file
    /// there is nothing to show and every number is zero.
    pub open spec fn settled(self) -> bool {
        let size = self.file_info.size as int;
        let offset = self.hex_view.offset as int;
        let line = self.config.bytes_per_line();
        if size == 0 {
            &&& offset == 0
            &&& self.hex_view.cursor == (Cursor { x: 0, y: 0 })
            &&& self.reader.cache_start == 0
            &&& self.reader.cache_end == 0
            &&& self.reader.page_start == 0
            &&& self.reader.page_end == 0
            &&& self.reader.page_current == 0
            &&& self.reader.page_current_size == 0
            &&& self.reader.page_last == 0
            &&& self.reader.offset_location_in_cache == 0
        } else {
            &&& offset < size
            &&& self.reader.shows(offset, size)
            &&& self.hex_view.cursor.y == (offset - page_start(offset)) / line
            &&& self.hex_view.cursor.x == (offset - page_start(offset)) % line
        }
    }

    /// All but the view is as in `before`: the file, the settings, the mode,
    /// the dialog, the command line, the clipboard, the selection and the
    /// pending edits.
    pub open spec fn same_session(self, before: App) -> bool {
        &&& self.running == before.running
        &&& self.state == before.state
        &&& self.dialog == before.dialog
        &&& self.file_info == before.file_info
        &&& self.config == before.config
        &&& self.command_input == before.command_input
        &&& self.clipboard == before.clipboard
        &&& self.hex_view.selection == before.hex_view.selection
        &&& self.hex_view.changed_bytes == before.hex_view.changed_bytes
        &&& self.hex_view.editing_hex == before.hex_view.editing_hex
    }

    /// `self` is what a move to `offset` makes of `before`.
    ///
    /// An offset that the file does not have changes nothing. Else the view
    /// is the one of `offset`, the offset left behind is remembered, and the
    /// bytes of the window stay only where the window does.
    pub open spec fn reached(self, before: App, offset: u64) -> bool {
        if offset >= before.file_info.size {
            self == before
        } else {
            &&& self.same_session(before)
            &&& self.settled()
            &&& self.hex_view.offset == offset
            &&& self.hex_view.last_visited_offset == before.hex_view.offset
            &&& if before.reader.cache_start == self.reader.cache_start && before.reader.cache_end
                == self.reader.cache_end {
                self.reader.buffer == before.reader.buffer
            } else {
                self.reader.buffer@ == Seq::<u8>::empty()
            }
        }
    }

    /// The byte that the user sees at `offset`: the pending edit if there is
    /// one, else the byte of the file if the window holds it.
    pub open spec fn merged_byte(self, offset: u64) -> Option<u8> {
        if self.hex_view.changed_bytes@.contains_key(offset) {
            Some(self.hex_view.changed_bytes@[offset])
        } else {
            self.reader.byte_at(offset as int)
        }
    }

    /// A session on a file of `file_info.size` bytes, at offset 0, in normal
    /// mode, with nothing selected, changed or typed. The bytes of the first
    /// window are yet to be read.
    pub fn new(file_info: FileInfo, config: Config) -> (app: App)
        ensures
            app.settled(),
            app.running,
            app.state == UIState::Normal,
            app.dialog is None,
            app.file_info == file_info,
            app.config == config,
            app.hex_view.offset == 0,
            app.hex_view.last_visited_offset == 0,
            app.hex_view.selection == Selection::cleared(),
            app.hex_view.changed_bytes@ == Map::<u64, u8>::empty(),
            app.hex_view.editing_hex,
            app.reader.buffer@ == Seq::<u8>::empty(),
            input_text(app.command_input) == Seq::<char>::empty(),
            app.clipboard is None,
    {
        let size = file_info.size;
        let line = config.hex_mode_bytes_per_line();
        assert(0int / (line as int) == 0 && 0int % (line as int) == 0) by (nonlinear_arith)
            requires
                line > 0,
        ;
        let cache_end = if size == 0 {
            0
        } else if size <= APP_CACHE_SIZE {
            size - 1
        } else {
            APP_CACHE_SIZE - 1
        };
        let page_end = if cache_end < APP_PAGE_SIZE {
            cache_end
        } else {
            APP_PAGE_SIZE - 1
        };
        let page_last = if size == 0 {
            0
        } else {
            (size - 1) / APP_PAGE_SIZE
        };
        let page_current_size = if size == 0 {
            0
        } else if page_last == 0 && size % APP_PAGE_SIZE != 0 {
            size % APP_PAGE_SIZE
        } else {
            APP_PAGE_SIZE
        };
        App {
            running: true,
            state: UIState::Normal,
            dialog: None,
            file_info,
            config,
            reader: Reader {
                cache_start: 0,
                cache_end,
                page_start: 0,
                page_end,
                page_current: 0,
                page_current_size,
                page_last,
                offset_location_in_cache: 0,
                buffer: Vec::new(),
            },
            hex_view: HexView {
                offset: 0,
                last_visited_offset: 0,
                cursor: Cursor { x: 0, y: 0 },
                selection: Selection::default(),
                changed_bytes: HashMap::new(),
                editing_hex: true,
            },
            command_input: empty_input(),
            clipboard: None,
        }
    }

    /// The block of the file that has to be read for the window: the number
    /// to multiply `APP_CACHE_SIZE` by for its first offset. `None` once the
    /// bytes are there, and in an empty file.
    pub fn pending_block(&self) -> (block: Option<u64>)
        ensures
            block == if self.file_info.size > 0 && !self.reader.loaded() {
                Some((self.reader.cache_start / APP_CACHE_SIZE) as u64)
            } else {
                None
            },
    {
        if self.file_info.size > 0 && !self.window_is_loaded() {
            Some(self.reader.cache_start / APP_CACHE_SIZE)
        } else {
            None
        }
    }

    /// Whether the bytes of the window were read.
    pub fn window_is_loaded(&self) -> (loaded: bool)
        ensures
            loaded == self.reader.loaded(),
    {
        let held = self.reader.buffer.len();
        self.reader.cache_start <= self.reader.cache_end && held > 0 && (held - 1) as u64
            == self.reader.cache_end - self.reader.cache_start
    }

    /// Takes `bytes` as the bytes of the window, if they are as many as the
    /// window spans and the file is not empty. Says whether it did.
    pub fn install_window(&mut self, bytes: Vec<u8>) -> (taken: bool)
        ensures
            taken == (old(self).file_info.size > 0 && old(self).reader.cache_start <= old(
                self,
            ).reader.cache_end && bytes@.len() == old(self).reader.span()),
            taken ==> final(self).reader == (Reader { buffer: bytes, ..old(self).reader }),
            taken ==> final(self).reader.loaded(),
            !taken ==> final(self).reader == old(self).reader,
            final(self).same_session(*old(self)),
            final(self).hex_view == old(self).hex_view,
    {
        let given = bytes.len();
        if self.file_info.size > 0 && self.reader.cache_start <= self.reader.cache_end && given > 0
            && (given - 1) as u64 == self.reader.cache_end - self.reader.cache_start {
            self.reader.buffer = bytes;
            true
        } else {
            false
        }
    }

    /// Takes the outcome of reading the window's block: the bytes, or
    /// nothing where the read failed. Bytes that are as many as the window
    /// spans, in a file that is not empty, become the bytes of the window.
    /// Any other outcome leaves the window as it is and raises the dialog
    /// that says so. Says whether the bytes were taken.
    pub fn window_read(&mut self, read: Option<Vec<u8>>) -> (taken: bool)
        ensures
            taken == (read matches Some(bytes) && old(self).file_info.size > 0 && old(
                self,
            ).reader.cache_start <= old(self).reader.cache_end && bytes@.len() == old(
                self,
            ).reader.span()),
            taken ==> *final(self) == (App {
                reader: Reader { buffer: read->0, ..old(self).reader },
                ..*old(self)
            }),
            taken ==> final(self).reader.loaded(),
            !taken ==> *final(self) == (App {
                dialog: Some(Dialog::ReadFailed),
                ..*old(self)
            }),
            old(self).settled() ==> final(self).settled(),
    {
        let taken = match read {
            Some(bytes) => self.install_window(bytes),
            None => false,
        };
        if !taken {
            self.dialog = Some(Dialog::ReadFailed);
        }
        taken
    }

    /// The byte that the user sees at `offset`: the pending edit if there is
    /// one, else the byte of the file if the window holds it.
    pub fn read_u8(&self, offset: u64) -> (byte: Option<u8>)
        ensures
            byte == self.merged_byte(offset),
    {
        match self.hex_view.changed_bytes.get(&offset) {
            Some(byte) => Some(*byte),
            None => {
                if self.reader.cache_start <= offset && offset - self.reader.cache_start
                    < self.reader.buffer.len() as u64 {
                    Some(self.reader.buffer[(offset - self.reader.cache_start) as usize])
                } else {
                    None
                }
            },
        }
    }

    /// Takes the text that waits for the system clipboard, if any.
    pub fn take_clipboard(&mut self) -> (text: Option<String>)
        ensures
            text == old(self).clipboard,
            final(self).clipboard is None,
            *final(self) == (App { clipboard: None, ..*old(self) }),
    {
        self.clipboard.take()
    }
}

/// In a settled session on a file that is not empty, the cursor marks the
/// current offset: the offset is the start of the page, plus a line's bytes
/// for each line above the cursor, plus the cursor's column, and the column
/// is within the line.
pub proof fn lemma_cursor_marks_offset(app: App)
    requires
        app.settled(),
        app.file_info.size > 0,
        app.config.bytes_per_line() > 0,
    ensures
        app.hex_view.offset == app.reader.page_start + app.hex_view.cursor.y
            * app.config.bytes_per_line() + app.hex_view.cursor.x,
        app.hex_view.cursor.x < app.config.bytes_per_line(),
{
    let line = app.config.bytes_per_line();
    let on_page = app.hex_view.offset - page_start(app.hex_view.offset as int);
    lemma_fundamental_div_mod(on_page, line);
    assert(line * (on_page / line) == (on_page / line) * line) by (nonlinear_arith);
    assert(0 <= on_page % line < line) by (nonlinear_arith)
        requires
            line > 0,
    ;
}

/// In a settled session on a file that is not empty, the window is a whole
/// block or the file's last, shorter one; the page starts at a multiple of
/// the page size, lies in the window and holds the current offset; and the
/// page's place in the window is the distance of their starts.
pub proof fn lemma_settled_view(app: App)
    requires
        app.settled(),
        app.file_info.size > 0,
    ensures
        app.reader.cache_start % APP_CACHE_SIZE == 0,
        app.reader.cache_start <= app.hex_view.offset <= app.reader.cache_end
            < app.file_info.size,
        app.reader.span() == APP_CACHE_SIZE || app.reader.span() == app.file_info.size
            - app.reader.cache_start,
        app.reader.span() <= APP_CACHE_SIZE,
        app.reader.page_start % APP_PAGE_SIZE == 0,
        app.reader.cache_start <= app.reader.page_start <= app.hex_view.offset
            <= app.reader.page_end <= app.reader.cache_end,
        app.reader.page_end - app.reader.page_start < APP_PAGE_SIZE,
        app.reader.offset_location_in_cache == app.reader.page_start - app.reader.cache_start,
        0 < app.reader.page_current_size <= APP_PAGE_SIZE,
        app.reader.page_current_size == app.reader.page_end - app.reader.page_start + 1,
        app.reader.page_current <= app.reader.page_last,
{
}

} // verus!
