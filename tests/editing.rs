use hex_editor::buffer::{BufferError, ByteBuffer};
use hex_editor::editor::{ascii_char, Command, HexEditor, Msg};
use hex_editor::search::{decimal_chars, encode_pattern, find_all, PatternError, SearchEngine, SearchMode, SearchState};
use hex_editor::text::parse_hex_byte_text;
use hex_editor::window::{compute_window, row_count, row_range, scroll_offset_for_byte};

fn loaded(bytes: Vec<u8>) -> HexEditor {
    let mut e = HexEditor::create();
    e.update(Msg::FileLoaded("f.bin".to_string(), bytes));
    e
}

fn search(e: &mut HexEditor, mode: SearchMode, query: &str) -> Command {
    e.update(Msg::UpdateSearchMode(mode));
    e.update(Msg::UpdateSearchTerm(query.to_string()));
    e.update(Msg::ExecuteSearch)
}

#[test]
fn ascii_search_finds_both_occurrences() {
    let mut e = loaded(vec![0x41, 0x42, 0x41, 0x42]);
    search(&mut e, SearchMode::Ascii, "AB");
    assert_eq!(e.search().matches(), &vec![0, 2]);
    assert_eq!(e.search().cursor(), Some(0));
    assert_eq!(e.search().state(), SearchState::HasResults);
}

#[test]
fn hex_search_ignores_whitespace() {
    let mut e = loaded(vec![0x41, 0x42, 0x41, 0x42]);
    search(&mut e, SearchMode::Hex, "41 42");
    assert_eq!(e.search().matches(), &vec![0, 2]);
    assert_eq!(e.search().pattern(), &vec![0x41, 0x42]);
}

#[test]
fn hex_search_odd_length_is_invalid() {
    let mut e = loaded(vec![0x41, 0x42, 0x41, 0x42]);
    search(&mut e, SearchMode::Ascii, "AB");
    assert_eq!(e.search().matches().len(), 2);
    search(&mut e, SearchMode::Hex, "4");
    assert_eq!(e.search().state(), SearchState::InvalidPattern);
    assert!(e.search().matches().is_empty());
    assert_eq!(e.search().cursor(), None);
    assert_eq!(e.buffer().bytes(), &vec![0x41, 0x42, 0x41, 0x42]);
    assert_eq!(encode_pattern(SearchMode::Hex, "4"), Err(PatternError::InvalidHexLiteral));
}

#[test]
fn hex_search_non_hex_is_invalid() {
    assert_eq!(encode_pattern(SearchMode::Hex, "4G"), Err(PatternError::InvalidHexLiteral));
    assert_eq!(encode_pattern(SearchMode::Hex, "é1"), Err(PatternError::InvalidHexLiteral));
}

#[test]
fn hex_pattern_decodes_pairs() {
    assert_eq!(encode_pattern(SearchMode::Hex, "de AD\tbe\nEF"), Ok(vec![0xde, 0xad, 0xbe, 0xef]));
    assert_eq!(encode_pattern(SearchMode::Hex, "\u{a0}0a\u{3000}"), Ok(vec![0x0a]));
    assert_eq!(encode_pattern(SearchMode::Hex, "   "), Ok(vec![]));
}

#[test]
fn ascii_pattern_is_raw_bytes() {
    assert_eq!(encode_pattern(SearchMode::Ascii, "a b"), Ok(vec![0x61, 0x20, 0x62]));
    assert_eq!(encode_pattern(SearchMode::Ascii, "é"), Ok(vec![0xc3, 0xa9]));
}

#[test]
fn overlapping_matches_are_reported() {
    assert_eq!(find_all(&b"aaa".to_vec(), &b"aa".to_vec()), vec![0, 1]);
    assert_eq!(find_all(&b"ab".to_vec(), &b"abc".to_vec()), Vec::<usize>::new());
    assert_eq!(find_all(&Vec::new(), &b"a".to_vec()), Vec::<usize>::new());
}

#[test]
fn empty_query_clears_search() {
    let mut e = loaded(vec![1, 2, 3]);
    search(&mut e, SearchMode::Hex, "02");
    assert_eq!(e.search().matches(), &vec![1]);
    let cmd = search(&mut e, SearchMode::Ascii, "");
    assert_eq!(cmd, Command::Render);
    assert_eq!(e.search().state(), SearchState::Idle);
    assert!(e.search().matches().is_empty());
    assert_eq!(e.search().cursor(), None);
}

#[test]
fn search_without_match_reports_none() {
    let mut e = loaded(vec![1, 2, 3]);
    let cmd = search(&mut e, SearchMode::Hex, "0203 04");
    assert_eq!(cmd, Command::Render);
    assert_eq!(e.search().state(), SearchState::NoResults);
    assert_eq!(e.search().cursor(), None);
}

#[test]
fn execute_twice_gives_same_matches() {
    let mut e = loaded(b"xyxyxy".to_vec());
    search(&mut e, SearchMode::Ascii, "xy");
    e.update(Msg::FindNext);
    assert_eq!(e.search().cursor(), Some(1));
    let first = e.search().matches().clone();
    e.update(Msg::ExecuteSearch);
    assert_eq!(e.search().matches(), &first);
    assert_eq!(e.search().cursor(), Some(0));
    e.update(Msg::ExecuteSearch);
    assert_eq!(e.search().matches(), &vec![0, 2, 4]);
    assert_eq!(e.search().cursor(), Some(0));
}

#[test]
fn next_wraps_and_previous_starts_at_last() {
    let mut s = SearchEngine::new();
    s.set_query("A".to_string());
    s.execute(&vec![0x41, 0, 0x41, 0x41]);
    assert_eq!(s.matches(), &vec![0, 2, 3]);
    assert_eq!(s.next(), Some(2));
    assert_eq!(s.next(), Some(3));
    assert_eq!(s.cursor(), Some(2));
    assert_eq!(s.next(), Some(0));
    assert_eq!(s.cursor(), Some(0));
    assert_eq!(s.previous(), Some(3));
    assert_eq!(s.cursor(), Some(2));

    let mut e = loaded(vec![0x41, 0, 0x41, 0x41]);
    search(&mut e, SearchMode::Ascii, "A");
    e.update(Msg::FileLoaded("g".to_string(), vec![0x41, 0x41]));
    search(&mut e, SearchMode::Ascii, "A");
    e.update(Msg::FindPrevious);
    assert_eq!(e.search().cursor(), Some(1));
}

#[test]
fn previous_without_cursor_lands_on_last() {
    let mut s = SearchEngine::new();
    s.set_query("A".to_string());
    s.execute(&vec![0x41, 0x41, 0x41]);
    s.reset();
    assert_eq!(s.previous(), None);
    s.execute(&vec![0x41, 0x41, 0x41]);
    assert_eq!(s.previous(), Some(2));
    assert_eq!(s.cursor(), Some(2));
}

#[test]
fn next_and_previous_without_matches_do_nothing() {
    let mut e = loaded(vec![1, 2]);
    assert_eq!(e.update(Msg::FindNext), Command::Render);
    assert_eq!(e.update(Msg::FindPrevious), Command::Render);
    assert_eq!(e.search().cursor(), None);
}

#[test]
fn invalid_byte_edit_keeps_value() {
    let mut e = loaded(vec![0x10, 0x20]);
    assert_eq!(e.update(Msg::UpdateByte(1, "ZZ".to_string())), Command::Nothing);
    assert_eq!(e.buffer().bytes(), &vec![0x10, 0x20]);
    assert_eq!(e.update(Msg::UpdateByte(1, "ff".to_string())), Command::Render);
    assert_eq!(e.buffer().bytes(), &vec![0x10, 0xff]);
    let mut b = ByteBuffer::new();
    b.load(vec![7], "x".to_string());
    assert_eq!(b.set(0, "ZZ"), Err(BufferError::InvalidByteLiteral));
    assert_eq!(b.get(0), Ok(7));
    assert_eq!(b.set(0, "ff"), Ok(()));
    assert_eq!(b.get(0), Ok(255));
}

#[test]
fn byte_edit_out_of_range_is_refused() {
    let mut b = ByteBuffer::new();
    b.load(vec![1, 2], "x".to_string());
    assert_eq!(b.set(2, "00"), Err(BufferError::IndexOutOfRange));
    assert_eq!(b.get(2), Err(BufferError::IndexOutOfRange));
    let mut e = loaded(vec![1]);
    assert_eq!(e.update(Msg::UpdateByte(5, "00".to_string())), Command::Nothing);
    assert_eq!(e.buffer().bytes(), &vec![1]);
}

#[test]
fn hex_byte_text_parsing() {
    assert_eq!(parse_hex_byte_text("ff"), Some(255));
    assert_eq!(parse_hex_byte_text("A"), Some(10));
    assert_eq!(parse_hex_byte_text("0"), Some(0));
    assert_eq!(parse_hex_byte_text("+7f"), Some(127));
    assert_eq!(parse_hex_byte_text("000fF"), Some(255));
    assert_eq!(parse_hex_byte_text("100"), None);
    assert_eq!(parse_hex_byte_text(""), None);
    assert_eq!(parse_hex_byte_text("+"), None);
    assert_eq!(parse_hex_byte_text(" f"), None);
    assert_eq!(parse_hex_byte_text("-1"), None);
    assert_eq!(parse_hex_byte_text("fg"), None);
}

#[test]
fn loading_resets_search() {
    let mut e = loaded(vec![0x41, 0x42, 0x41, 0x42]);
    search(&mut e, SearchMode::Ascii, "AB");
    e.update(Msg::Scrolled(300));
    assert_eq!(e.update(Msg::FileLoaded("new.bin".to_string(), vec![0x41, 0x42])), Command::Render);
    assert!(e.search().matches().is_empty());
    assert_eq!(e.search().cursor(), None);
    assert_eq!(e.search().query(), "AB");
    assert_eq!(e.scroll_top(), 0);
    assert_eq!(e.buffer().name(), "new.bin");
}

#[test]
fn load_then_export_round_trips() {
    let data: Vec<u8> = (0..=255u8).collect();
    let e = loaded(data.clone());
    let (bytes, name) = e.buffer().export();
    assert_eq!(bytes, data);
    assert_eq!(name, "f.bin");
    let mut b = ByteBuffer::new();
    b.load(vec![], "empty".to_string());
    assert_eq!(b.export(), (vec![], "empty".to_string()));
}

#[test]
fn load_failure_clears_buffer() {
    let mut e = loaded(vec![1, 2, 3]);
    e.update(Msg::FileLoadError("denied".to_string()));
    assert!(e.buffer().is_empty());
    assert_eq!(e.buffer().name(), "no file loaded");
    assert_eq!(e.error(), &Some("denied".to_string()));
    e.update(Msg::FileLoaded("a".to_string(), vec![9]));
    assert_eq!(e.error(), &None);
}

#[test]
fn new_session_is_empty() {
    let e = HexEditor::create();
    assert!(e.buffer().is_empty());
    assert_eq!(e.buffer().name(), "no file loaded");
    assert_eq!(e.viewport_height(), 500);
    assert_eq!(e.search().mode(), SearchMode::Ascii);
}

#[test]
fn save_only_with_data() {
    let mut e = HexEditor::create();
    assert_eq!(e.update(Msg::SaveFile), Command::Nothing);
    let mut e = loaded(vec![0]);
    assert_eq!(e.update(Msg::SaveFile), Command::Save);
}

#[test]
fn edits_after_search_leave_matches_stale() {
    let mut e = loaded(vec![0x41, 0x42]);
    search(&mut e, SearchMode::Ascii, "A");
    e.update(Msg::UpdateByte(0, "00".to_string()));
    assert_eq!(e.search().matches(), &vec![0]);
    e.update(Msg::ExecuteSearch);
    assert!(e.search().matches().is_empty());
}

#[test]
fn rows_cover_all_bytes() {
    for n in [0usize, 1, 15, 16, 17, 32, 100] {
        let rows = row_count(n);
        assert!(rows as usize * 16 >= n);
        if n > 0 {
            let (start, end) = row_range(n, rows - 1);
            let expected = if n % 16 == 0 { 16 } else { n % 16 };
            assert_eq!(end - start, expected);
        } else {
            assert_eq!(rows, 0);
        }
    }
    assert_eq!(row_range(100, 2), (32, 48));
    assert_eq!(row_range(100, 6), (96, 100));
}

#[test]
fn window_at_top() {
    let w = compute_window(0, 5000, 296, 100);
    assert_eq!(w.first_visible_row, 0);
    assert_eq!(w.visible_row_count, 17);
    assert_eq!((w.start_row, w.end_row), (0, 7));
    assert_eq!((w.start_byte, w.end_byte), (0, 100));
    assert_eq!(w.translate_y, 0);
    assert_eq!(w.total_content_height, 7 * 296);
}

#[test]
fn window_in_the_middle() {
    let w = compute_window(29600, 5000, 296, 16000);
    assert_eq!(w.first_visible_row, 100);
    assert_eq!((w.start_row, w.end_row), (95, 122));
    assert_eq!((w.start_byte, w.end_byte), (1520, 1952));
    assert_eq!(w.translate_y, 95 * 296);
    assert_eq!(w.total_content_height, 1000 * 296);
    assert!(w.start_row <= w.first_visible_row && w.first_visible_row <= w.end_row);
    assert!(w.end_row - w.start_row <= w.visible_row_count + 10);
}

#[test]
fn window_empty_cases() {
    let w = compute_window(0, 5000, 296, 0);
    assert_eq!((w.start_byte, w.end_byte), (0, 0));
    assert_eq!(w.total_content_height, 0);
    let w = compute_window(1_000_000, 5000, 296, 32);
    assert_eq!(w.end_row, 2);
    assert_eq!((w.start_byte, w.end_byte), (0, 0));
}

#[test]
fn editor_window_follows_scroll() {
    let mut e = loaded(vec![0; 16000]);
    e.update(Msg::Scrolled(2960));
    let w = e.window();
    assert_eq!((w.start_byte, w.end_byte), (1520, 1952));
    e.update(Msg::Resized(0));
    let w = e.window();
    assert_eq!(w.end_row, 105);
}

#[test]
fn jump_scrolls_match_to_centre() {
    let mut data = vec![0u8; 4000];
    data[1600] = 0xAA;
    let mut e = loaded(data);
    let cmd = search(&mut e, SearchMode::Hex, "aa");
    assert_eq!(cmd, Command::RenderAndScroll(2710));
    assert_eq!(e.scroll_target(0), 0);
    assert_eq!(scroll_offset_for_byte(1600, 5000, 296), 27100);
    assert_eq!(scroll_offset_for_byte(16, 5000, 296), 0);
}

#[test]
fn highlight_covers_current_match() {
    let mut e = loaded(b"..abc..abc".to_vec());
    search(&mut e, SearchMode::Ascii, "abc");
    assert_eq!(e.search().current_match_range(), Some((2, 5)));
    assert!(!e.is_highlighted(1));
    assert!(e.is_highlighted(2));
    assert!(e.is_highlighted(4));
    assert!(!e.is_highlighted(5));
    e.update(Msg::FindNext);
    assert!(e.is_highlighted(7));
    assert!(!e.is_highlighted(2));
}

#[test]
fn ascii_column_characters() {
    assert_eq!(ascii_char(0x41), 'A');
    assert_eq!(ascii_char(0x20), ' ');
    assert_eq!(ascii_char(0x7e), '~');
    assert_eq!(ascii_char(0x7f), '.');
    assert_eq!(ascii_char(0x1f), '.');
    assert_eq!(ascii_char(0xff), '.');
}

#[test]
fn status_line_follows_search() {
    let mut e = loaded(b"abcabcab".to_vec());
    assert_eq!(e.search().status_message(), "");
    search(&mut e, SearchMode::Ascii, "ab");
    assert_eq!(e.search().status_message(), "Found 3 match(es).");
    search(&mut e, SearchMode::Ascii, "zz");
    assert_eq!(e.search().status_message(), "Not found.");
    search(&mut e, SearchMode::Hex, "zz");
    assert_eq!(e.search().status_message(), "Invalid Hex sequence.");
    search(&mut e, SearchMode::Hex, "");
    assert_eq!(e.search().status_message(), "");
    let mut big = loaded(vec![7; 120]);
    search(&mut big, SearchMode::Hex, "07");
    assert_eq!(big.search().status_message(), "Found 120 match(es).");
}

#[test]
fn fresh_session_has_idle_search() {
    let e = HexEditor::create();
    assert_eq!(e.search().state(), SearchState::Idle);
    assert!(e.search().pattern().is_empty());
    assert_eq!(e.search().status_message(), "");
    assert_eq!(e.error(), &None);
    assert_eq!(e.scroll_top(), 0);
}

#[test]
fn decimal_rendering() {
    let s: String = decimal_chars(0).into_iter().collect();
    assert_eq!(s, "0");
    let s: String = decimal_chars(10).into_iter().collect();
    assert_eq!(s, "10");
    let s: String = decimal_chars(9075).into_iter().collect();
    assert_eq!(s, "9075");
}

#[test]
fn last_row_in_window_ends_at_buffer_end() {
    let w = compute_window(0, 5000, 296, 100);
    assert_eq!(w.end_row, row_count(100));
    assert_eq!(w.end_byte, 100);
    assert_eq!(row_range(100, w.end_row - 1), (96, 100));
    let w = compute_window(0, 5000, 296, 96);
    assert_eq!(row_range(96, w.end_row - 1), (80, 96));
}
