use dz6::app::{App, Cursor, Dialog, FileInfo, UIState};
use dz6::config::{Config, APP_CACHE_SIZE, APP_PAGE_SIZE};

fn session(size: u64) -> App {
    App::new(FileInfo { size, is_read_only: false }, Config::default())
}

fn view(app: &App) -> (u64, u64, u64, u64, u64, u64, u64, u64, u64, u64, Cursor) {
    (
        app.hex_view.offset,
        app.hex_view.last_visited_offset,
        app.reader.cache_start,
        app.reader.cache_end,
        app.reader.page_start,
        app.reader.page_end,
        app.reader.page_current,
        app.reader.page_current_size,
        app.reader.page_last,
        app.reader.offset_location_in_cache,
        app.hex_view.cursor,
    )
}

#[test]
fn constants_nest() {
    assert_eq!(APP_CACHE_SIZE, 0x10_0000);
    assert_eq!(APP_PAGE_SIZE, 0x1000);
    assert_eq!(APP_CACHE_SIZE % APP_PAGE_SIZE, 0);
}

#[test]
fn config_needs_a_byte_on_the_line() {
    assert!(Config::new(0).is_none());
    assert_eq!(Config::new(1).unwrap().hex_mode_bytes_per_line(), 1);
    assert_eq!(Config::new(32).unwrap().hex_mode_bytes_per_line(), 32);
    assert_eq!(Config::default().hex_mode_bytes_per_line(), 16);
}

#[test]
fn new_session_is_at_zero() {
    let app = session(0x2345);
    assert!(app.running);
    assert_eq!(app.state, UIState::Normal);
    assert_eq!(app.dialog, None);
    assert_eq!(app.clipboard, None);
    assert!(app.hex_view.editing_hex);
    assert!(app.hex_view.changed_bytes.is_empty());
    assert_eq!(
        view(&app),
        (0, 0, 0, 0x2344, 0, 0xfff, 0, 0x1000, 2, 0, Cursor { x: 0, y: 0 })
    );
    assert!(app.reader.buffer.is_empty());
    assert_eq!(app.pending_block(), Some(0));
}

#[test]
fn new_session_on_an_empty_file() {
    let app = session(0);
    assert_eq!(view(&app), (0, 0, 0, 0, 0, 0, 0, 0, 0, 0, Cursor { x: 0, y: 0 }));
    assert_eq!(app.pending_block(), None);
}

#[test]
fn new_session_on_a_short_file() {
    let app = session(100);
    assert_eq!(view(&app), (0, 0, 0, 99, 0, 99, 0, 100, 0, 0, Cursor { x: 0, y: 0 }));
}

#[test]
fn goto_beyond_the_file_changes_nothing() {
    let mut app = session(0x30_0000);
    app.goto(0x12_3456);
    assert!(app.install_window(vec![7; 0x10_0000]));
    let before = view(&app);
    for offset in [0x30_0000, 0x30_0001, u64::MAX] {
        app.goto(offset);
        assert_eq!(view(&app), before);
        assert_eq!(app.reader.buffer.len(), 0x10_0000);
        assert_eq!(app.pending_block(), None);
    }

    let mut empty = session(0);
    empty.goto(0);
    assert_eq!(view(&empty), (0, 0, 0, 0, 0, 0, 0, 0, 0, 0, Cursor { x: 0, y: 0 }));
}

#[test]
fn goto_zero_returns_to_the_first_window() {
    let mut app = session(0x30_0000);
    app.goto(0x2f_ffff);
    assert_eq!(app.reader.cache_start, 0x20_0000);
    app.goto(0);
    assert_eq!(app.reader.cache_start, 0);
    assert_eq!(app.reader.cache_end, 0xf_ffff);
    assert_eq!(app.reader.page_start, 0);
    assert_eq!(app.reader.page_end, 0xfff);
    assert_eq!(app.hex_view.cursor, Cursor { x: 0, y: 0 });
    assert_eq!(app.hex_view.last_visited_offset, 0x2f_ffff);
    assert_eq!(app.pending_block(), Some(0));
}

#[test]
fn goto_sets_window_page_and_cursor() {
    let mut app = session(0x30_0000);
    app.goto(0x20_1234);
    assert_eq!(
        view(&app),
        (
            0x20_1234,
            0,
            0x20_0000,
            0x2f_ffff,
            0x20_1000,
            0x20_1fff,
            0x201,
            0x1000,
            0x2ff,
            0x1000,
            Cursor { x: 4, y: 0x23 }
        )
    );
    app.goto(0x20_1235);
    assert_eq!(app.hex_view.last_visited_offset, 0x20_1234);
    assert_eq!(app.hex_view.cursor, Cursor { x: 5, y: 0x23 });
}

#[test]
fn goto_jumps_over_several_blocks() {
    let mut app = session(0x80_0000);
    app.goto(0x70_0010);
    assert_eq!(app.reader.cache_start, 0x70_0000);
    assert_eq!(app.reader.cache_end, 0x7f_ffff);
    assert_eq!(app.pending_block(), Some(7));
    app.goto(0x10_0000);
    assert_eq!(app.reader.cache_start, 0x10_0000);
    assert_eq!(app.reader.cache_end, 0x1f_ffff);
    assert_eq!(app.pending_block(), Some(1));
}

#[test]
fn last_window_and_last_page_are_cut_short() {
    let mut app = session(0x10_0123);
    app.goto(0x10_0100);
    assert_eq!(
        view(&app),
        (
            0x10_0100,
            0,
            0x10_0000,
            0x10_0122,
            0x10_0000,
            0x10_0122,
            0x100,
            0x123,
            0x100,
            0,
            Cursor { x: 0, y: 0x10 }
        )
    );

    let mut aligned = session(0x2000);
    aligned.goto(0x1fff);
    assert_eq!(aligned.reader.page_current_size, 0x1000);
    assert_eq!(aligned.reader.page_end, 0x1fff);
    assert_eq!(aligned.reader.page_last, 1);
}

#[test]
fn cursor_marks_the_offset() {
    for line in [1usize, 7, 16, 24, 4096, 5000] {
        let config = Config::new(line).unwrap();
        let mut app = App::new(FileInfo { size: 0x25_0000, is_read_only: true }, config);
        for offset in [0u64, 1, 15, 16, 0xfff, 0x1000, 0x1001, 0xf_ffff, 0x10_0000, 0x24_ffff] {
            app.goto(offset);
            let cursor = app.hex_view.cursor;
            assert!(cursor.x < line);
            assert_eq!(
                offset,
                app.reader.page_start + (cursor.y * line + cursor.x) as u64
            );
            assert_eq!(app.reader.page_start % APP_PAGE_SIZE, 0);
            assert!(app.reader.cache_start <= app.reader.page_start);
            assert!(app.reader.page_end <= app.reader.cache_end);
            assert_eq!(
                app.reader.offset_location_in_cache,
                app.reader.page_start - app.reader.cache_start
            );
        }
    }
}

#[test]
fn window_bytes_stay_while_the_window_does() {
    let mut app = session(0x18_0000);
    assert!(!app.window_is_loaded());
    assert!(!app.install_window(vec![0; 5]));
    assert!(!app.install_window(Vec::new()));
    assert!(app.install_window(vec![1; 0x10_0000]));
    assert!(app.window_is_loaded());
    assert_eq!(app.pending_block(), None);

    app.goto(0xf_ffff);
    assert!(app.window_is_loaded());
    assert_eq!(app.read_u8(0xf_ffff), Some(1));

    app.goto(0x10_0000);
    assert!(!app.window_is_loaded());
    assert!(app.reader.buffer.is_empty());
    assert_eq!(app.pending_block(), Some(1));
    assert!(!app.install_window(vec![2; 0x10_0000]));
    assert!(app.install_window(vec![2; 0x8_0000]));
    assert_eq!(app.read_u8(0x10_0000), Some(2));
    assert_eq!(app.read_u8(0x17_ffff), Some(2));
    assert_eq!(app.read_u8(0x18_0000), None);
    assert_eq!(app.read_u8(0xf_ffff), None);

    let mut empty = session(0);
    assert!(!empty.install_window(vec![0]));
    assert!(!empty.install_window(Vec::new()));
}

#[test]
fn a_read_that_fails_raises_the_dialog() {
    let mut app = session(100);
    assert!(!app.window_read(None));
    assert_eq!(app.dialog, Some(Dialog::ReadFailed));
    assert!(app.reader.buffer.is_empty());
    assert_eq!(app.pending_block(), Some(0));

    app.dialog = None;
    assert!(!app.window_read(Some(vec![0; 99])));
    assert_eq!(app.dialog, Some(Dialog::ReadFailed));
    assert!(!app.window_is_loaded());

    app.dialog = None;
    assert!(app.window_read(Some(vec![9; 100])));
    assert_eq!(app.dialog, None);
    assert!(app.window_is_loaded());
    assert_eq!(app.read_u8(99), Some(9));
    assert_eq!(app.pending_block(), None);

    let before = view(&app);
    assert!(!app.window_read(Some(vec![1; 5])));
    assert_eq!(app.dialog, Some(Dialog::ReadFailed));
    assert_eq!(app.read_u8(99), Some(9));
    assert_eq!(view(&app), before);

    let mut empty = session(0);
    assert!(!empty.window_read(Some(Vec::new())));
    assert_eq!(empty.dialog, Some(Dialog::ReadFailed));
}

#[test]
fn bytes_are_lacking_exactly_after_leaving_the_window() {
    let mut app = session(0x28_0000);
    assert!(app.window_read(Some(vec![0; 0x10_0000])));
    for (offset, stays) in [(0u64, true), (0xf_ffff, true), (0x10_0000, false)] {
        app.goto(offset);
        assert_eq!(app.window_is_loaded(), stays);
    }
    assert!(app.window_read(Some(vec![0; 0x10_0000])));
    for (offset, stays) in [(0x1f_ffff, true), (0x10_0000, true), (0x27_ffff, false)] {
        app.goto(offset);
        assert_eq!(app.window_is_loaded(), stays);
    }
    assert!(app.window_read(Some(vec![0; 0x8_0000])));
    app.goto(0xf_ffff);
    assert!(!app.window_is_loaded());
    assert_eq!(app.pending_block(), Some(0));
}
