//! Sizes that shape the resident window and the view.

use vstd::prelude::*;

verus! {

/// Bytes of the file that are resident at a time. Windows start at
/// multiples of this size.
pub const APP_CACHE_SIZE: u64 = 0x10_0000;

/// Bytes that one page of the view shows. A window holds a whole number of
/// pages.
pub const APP_PAGE_SIZE: u64 = 0x1000;

/// The user's settings.
#[derive(Debug, Clone, Copy)]
pub struct Config {
    hex_mode_bytes_per_line: usize,
}

impl Config {
    #[verifier::type_invariant]
    spec fn line_is_not_empty(self) -> bool {
        self.hex_mode_bytes_per_line > 0
    }

    /// The number of bytes on one line of the hex view.
    pub closed spec fn bytes_per_line(self) -> int {
        self.hex_mode_bytes_per_line as int
    }

    /// Settings with `bytes_per_line` bytes on a line, if that is at least
    /// one.
    pub fn new(bytes_per_line: usize) -> (config: Option<Config>)
        ensures
            match config {
                Some(config) => bytes_per_line > 0 && config.bytes_per_line() == bytes_per_line,
                None => bytes_per_line == 0,
            },
    {
        if bytes_per_line > 0 {
            Some(Config { hex_mode_bytes_per_line: bytes_per_line })
        } else {
            None
        }
    }

    /// The number of bytes on one line of the hex view: never zero.
    pub fn hex_mode_bytes_per_line(&self) -> (bytes: usize)
        ensures
            bytes == self.bytes_per_line(),
            bytes > 0,
    {
        proof {
            use_type_invariant(self);
        }
        self.hex_mode_bytes_per_line
    }
}

impl Default for Config {
    /// Sixteen bytes on a line.
    fn default() -> (config: Config)
        ensures
            config.bytes_per_line() == 16,
    {
        Config { hex_mode_bytes_per_line: 16 }
    }
}

} // verus!
