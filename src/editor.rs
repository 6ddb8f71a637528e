use vstd::prelude::*;
use crate::buffer::{ByteBuffer, export_view, no_file_label};
use crate::search::{
    SearchEngine, SearchMode, SearchState, current_offset, current_range, executed, next_cursor,
    previous_cursor, unchanged_but_cursor,
};
use crate::text::parse_hex_byte;
use crate::window::{
    Window, compute_window, end_row, first_visible_row, visible_row_count, row_start_height, scroll_offset_for_byte, start_row,
    total_rows, window_end_byte, window_start_byte,
};

verus! {

/// Row height in tenths of a pixel: rows are 29.6 pixels tall.
pub const ROW_HEIGHT_TENTHS: u64 = 296;

/// Viewport height, in pixels, assumed until the real one is measured.
pub const DEFAULT_VIEWPORT_HEIGHT: u32 = 500;

/// A user action, or the outcome of a file read, for the editor to apply.
pub enum Msg {
    /// A file was read: its name and its bytes.
    FileLoaded(String, Vec<u8>),
    /// Reading a file failed, for the reason given.
    FileLoadError(String),
    /// An edit of the byte at an index, as hexadecimal text.
    UpdateByte(usize, String),
    /// The user asked to save the bytes.
    SaveFile,
    /// The viewport was scrolled to this offset, in pixels.
    Scrolled(u32),
    /// The viewport was measured at this height, in pixels.
    Resized(u32),
    UpdateSearchTerm(String),
    UpdateSearchMode(SearchMode),
    ExecuteSearch,
    FindNext,
    FindPrevious,
}

/// What the host is to do once a message is applied.
#[derive(Clone, Copy, Debug, PartialEq, Eq, Structural)]
pub enum Command {
    /// Nothing visible changed.
    Nothing,
    /// Draw again.
    Render,
    /// Draw again and scroll the viewport to this offset, in pixels.
    RenderAndScroll(u128),
    /// Hand the bytes and name of the buffer to the file sink.
    Save,
}

/// The editing session: the buffer, the scroll position and the search.
pub struct HexEditor {
    buffer: ByteBuffer,
    error: Option<String>,
    scroll_top: u32,
    viewport_height: u32,
    search: SearchEngine,
}

/// The scroll offset, in pixels, that centres the row of `byte_offset` in a
/// viewport `viewport_height` pixels tall.
pub open spec fn centring_scroll(byte_offset: nat, viewport_height: nat) -> nat {
    let top = row_start_height(byte_offset, ROW_HEIGHT_TENTHS as nat);
    let half = viewport_height * 10 / 2;
    if top >= half {
        ((top - half) as nat) / 10
    } else {
        0
    }
}

/// The command that brings the current match into view, if there is one.
pub open spec fn jump_command(offset: Option<usize>, viewport_height: nat) -> Command {
    match offset {
        None => Command::Render,
        Some(o) => Command::RenderAndScroll(centring_scroll(o as nat, viewport_height) as u128),
    }
}

impl HexEditor {
    pub closed spec fn buffer_view(&self) -> ByteBuffer {
        self.buffer
    }

    pub closed spec fn search_view(&self) -> SearchEngine {
        self.search
    }

    pub closed spec fn error_view(&self) -> Option<Seq<char>> {
        match self.error {
            None => None,
            Some(e) => Some(e@),
        }
    }

    pub closed spec fn scroll_top_view(&self) -> u32 {
        self.scroll_top
    }

    pub closed spec fn viewport_height_view(&self) -> u32 {
        self.viewport_height
    }

    pub open spec fn wf(&self) -> bool {
        self.search_view().wf()
    }

    /// A fresh session: no file, no error, at the top, nothing searched.
    pub fn create() -> (r: HexEditor)
        ensures
            r.wf(),
            r.buffer_view()@ == Seq::<u8>::empty(),
            r.buffer_view().label() == no_file_label(),
            r.error_view() is None,
            r.scroll_top_view() == 0,
            r.viewport_height_view() == DEFAULT_VIEWPORT_HEIGHT,
            r.search_view().mode_view() == SearchMode::Ascii,
            r.search_view().query_view() == Seq::<char>::empty(),
            r.search_view().pattern_view() == Seq::<u8>::empty(),
            r.search_view().matches_view() == Seq::<usize>::empty(),
            r.search_view().cursor_view() is None,
            r.search_view().state_view() == SearchState::Idle,
    {
        HexEditor {
            buffer: ByteBuffer::new(),
            error: None,
            scroll_top: 0,
            viewport_height: DEFAULT_VIEWPORT_HEIGHT,
            search: SearchEngine::new(),
        }
    }

    pub fn buffer(&self) -> (r: &ByteBuffer)
        ensures
            *r == self.buffer_view(),
    {
        &self.buffer
    }

    pub fn search(&self) -> (r: &SearchEngine)
        ensures
            *r == self.search_view(),
    {
        &self.search
    }

    /// Why the last file read failed, while no other file has loaded since.
    pub fn error(&self) -> (r: &Option<String>)
        ensures
            r is None <==> self.error_view() is None,
            r is Some ==> self.error_view() == Some(r->Some_0@),
    {
        &self.error
    }

    pub fn scroll_top(&self) -> (r: u32)
        ensures
            r == self.scroll_top_view(),
    {
        self.scroll_top
    }

    pub fn viewport_height(&self) -> (r: u32)
        ensures
            r == self.viewport_height_view(),
    {
        self.viewport_height
    }

    /// The scroll offset, in pixels, that centres the row of `byte_offset`.
    pub fn scroll_target(&self, byte_offset: usize) -> (r: u128)
        ensures
            r as nat == centring_scroll(byte_offset as nat, self.viewport_height_view() as nat),
    {
        let tenths = scroll_offset_for_byte(
            byte_offset,
            (self.viewport_height as u64) * 10,
            ROW_HEIGHT_TENTHS,
        );
        tenths / 10
    }

    fn jump(&self, offset: Option<usize>) -> (r: Command)
        ensures
            r == jump_command(offset, self.viewport_height_view() as nat),
    {
        match offset {
            None => Command::Render,
            Some(o) => Command::RenderAndScroll(self.scroll_target(o)),
        }
    }

    /// The rows and bytes to render at the current scroll position, in tenths
    /// of a pixel.
    pub fn window(&self) -> (w: Window)
        ensures
            w.first_visible_row as nat == first_visible_row(
                self.scroll_top_view() as nat * 10,
                ROW_HEIGHT_TENTHS as nat,
            ),
            w.visible_row_count as nat == visible_row_count(
                self.viewport_height_view() as nat * 10,
                ROW_HEIGHT_TENTHS as nat,
            ),
            w.start_row as nat == start_row(
                self.scroll_top_view() as nat * 10,
                ROW_HEIGHT_TENTHS as nat,
            ),
            w.end_row as nat == end_row(
                self.scroll_top_view() as nat * 10,
                self.viewport_height_view() as nat * 10,
                ROW_HEIGHT_TENTHS as nat,
                self.buffer_view()@.len(),
            ),
            w.start_byte as nat == window_start_byte(
                self.scroll_top_view() as nat * 10,
                self.viewport_height_view() as nat * 10,
                ROW_HEIGHT_TENTHS as nat,
                self.buffer_view()@.len(),
            ),
            w.end_byte as nat == window_end_byte(
                self.scroll_top_view() as nat * 10,
                self.viewport_height_view() as nat * 10,
                ROW_HEIGHT_TENTHS as nat,
                self.buffer_view()@.len(),
            ),
            w.translate_y as nat == w.start_row as nat * ROW_HEIGHT_TENTHS as nat,
            w.total_content_height as nat == total_rows(self.buffer_view()@.len())
                * ROW_HEIGHT_TENTHS as nat,
    {
        compute_window(
            (self.scroll_top as u64) * 10,
            (self.viewport_height as u64) * 10,
            ROW_HEIGHT_TENTHS,
            self.buffer.len(),
        )
    }

    /// Applies one message and says what the host is to do next. A failed
    /// edit changes nothing; a search reflects the buffer as it is when it
    /// runs, and later edits leave its matches as they are.
    pub fn update(&mut self, msg: Msg) -> (r: Command)
        requires
            old(self).wf(),
        ensures
            final(self).wf(),
            updated(*old(self), msg, *final(self), r),
    {
        match msg {
            Msg::FileLoaded(name, data) => {
                self.buffer.load(data, name);
                self.error = None;
                self.scroll_top = 0;
                self.search.reset();
                Command::Render
            },
            Msg::FileLoadError(reason) => {
                self.error = Some(reason);
                self.buffer.clear();
                Command::Render
            },
            Msg::UpdateByte(index, text) => {
                match self.buffer.set(index, text.as_str()) {
                    Ok(()) => Command::Render,
                    Err(_) => Command::Nothing,
                }
            },
            Msg::SaveFile => {
                if self.buffer.is_empty() {
                    Command::Nothing
                } else {
                    Command::Save
                }
            },
            Msg::Scrolled(top) => {
                self.scroll_top = top;
                Command::Render
            },
            Msg::Resized(height) => {
                self.viewport_height = height;
                Command::Render
            },
            Msg::UpdateSearchTerm(term) => {
                self.search.set_query(term);
                Command::Render
            },
            Msg::UpdateSearchMode(mode) => {
                self.search.set_mode(mode);
                Command::Render
            },
            Msg::ExecuteSearch => {
                let first = self.search.execute(self.buffer.bytes());
                self.jump(first)
            },
            Msg::FindNext => {
                let current = self.search.next();
                self.jump(current)
            },
            Msg::FindPrevious => {
                let current = self.search.previous();
                self.jump(current)
            },
        }
    }

    /// Whether the byte at `index` lies in the current match.
    pub fn is_highlighted(&self, index: usize) -> (r: bool)
        requires
            self.wf(),
        ensures
            r == (current_range(self.search_view()) matches Some(range) && range.0 <= index
                < range.1),
    {
        match self.search.current_match_range() {
            None => false,
            Some((start, end)) => start <= index && index < end,
        }
    }
}

/// How a byte shows in the ASCII column: printable ASCII as itself, any other
/// byte as a dot.
pub open spec fn ascii_shown(b: u8) -> char {
    if 0x20 <= b && b <= 0x7e {
        b as char
    } else {
        '.'
    }
}

pub fn ascii_char(b: u8) -> (r: char)
    ensures
        r == ascii_shown(b),
{
    if 0x20 <= b && b <= 0x7e {
        b as char
    } else {
        '.'
    }
}

/// All but the search is as it was.
pub open spec fn same_but_search(pre: HexEditor, post: HexEditor) -> bool {
    &&& post.buffer_view() == pre.buffer_view()
    &&& post.error_view() == pre.error_view()
    &&& post.scroll_top_view() == pre.scroll_top_view()
    &&& post.viewport_height_view() == pre.viewport_height_view()
}

/// All but the buffer is as it was.
pub open spec fn same_but_buffer(pre: HexEditor, post: HexEditor) -> bool {
    &&& post.search_view() == pre.search_view()
    &&& post.error_view() == pre.error_view()
    &&& post.scroll_top_view() == pre.scroll_top_view()
    &&& post.viewport_height_view() == pre.viewport_height_view()
}

/// What applying `msg` to `pre` gives: the session `post` and the command `cmd`.
pub open spec fn updated(pre: HexEditor, msg: Msg, post: HexEditor, cmd: Command) -> bool {
    match msg {
        Msg::FileLoaded(name, data) => {
            &&& post.buffer_view()@ == data@
            &&& post.buffer_view().label() == name@
            &&& post.error_view() is None
            &&& post.scroll_top_view() == 0
            &&& post.viewport_height_view() == pre.viewport_height_view()
            &&& post.search_view().mode_view() == pre.search_view().mode_view()
            &&& post.search_view().query_view() == pre.search_view().query_view()
            &&& post.search_view().pattern_view() == Seq::<u8>::empty()
            &&& post.search_view().matches_view() == Seq::<usize>::empty()
            &&& post.search_view().cursor_view() is None
            &&& post.search_view().state_view() == SearchState::Idle
            &&& cmd == Command::Render
        },
        Msg::FileLoadError(reason) => {
            &&& post.buffer_view()@ == Seq::<u8>::empty()
            &&& post.buffer_view().label() == no_file_label()
            &&& post.error_view() == Some(reason@)
            &&& post.scroll_top_view() == pre.scroll_top_view()
            &&& post.viewport_height_view() == pre.viewport_height_view()
            &&& post.search_view() == pre.search_view()
            &&& cmd == Command::Render
        },
        Msg::UpdateByte(index, text) => {
            &&& same_but_buffer(pre, post)
            &&& post.buffer_view().label() == pre.buffer_view().label()
            &&& if index < pre.buffer_view()@.len() && parse_hex_byte(text@) is Some {
                &&& post.buffer_view()@ == pre.buffer_view()@.update(
                    index as int,
                    parse_hex_byte(text@)->Some_0,
                )
                &&& cmd == Command::Render
            } else {
                &&& post.buffer_view()@ == pre.buffer_view()@
                &&& cmd == Command::Nothing
            }
        },
        Msg::SaveFile => {
            &&& post == pre
            &&& cmd == (if pre.buffer_view()@.len() == 0 {
                Command::Nothing
            } else {
                Command::Save
            })
        },
        Msg::Scrolled(top) => {
            &&& post.buffer_view() == pre.buffer_view()
            &&& post.search_view() == pre.search_view()
            &&& post.error_view() == pre.error_view()
            &&& post.scroll_top_view() == top
            &&& post.viewport_height_view() == pre.viewport_height_view()
            &&& cmd == Command::Render
        },
        Msg::Resized(height) => {
            &&& post.buffer_view() == pre.buffer_view()
            &&& post.search_view() == pre.search_view()
            &&& post.error_view() == pre.error_view()
            &&& post.scroll_top_view() == pre.scroll_top_view()
            &&& post.viewport_height_view() == height
            &&& cmd == Command::Render
        },
        Msg::UpdateSearchTerm(term) => {
            &&& same_but_search(pre, post)
            &&& post.search_view().query_view() == term@
            &&& post.search_view().mode_view() == pre.search_view().mode_view()
            &&& post.search_view().pattern_view() == pre.search_view().pattern_view()
            &&& post.search_view().matches_view() == pre.search_view().matches_view()
            &&& post.search_view().cursor_view() == pre.search_view().cursor_view()
            &&& post.search_view().state_view() == pre.search_view().state_view()
            &&& cmd == Command::Render
        },
        Msg::UpdateSearchMode(mode) => {
            &&& same_but_search(pre, post)
            &&& post.search_view().mode_view() == mode
            &&& post.search_view().query_view() == pre.search_view().query_view()
            &&& post.search_view().pattern_view() == pre.search_view().pattern_view()
            &&& post.search_view().matches_view() == pre.search_view().matches_view()
            &&& post.search_view().cursor_view() == pre.search_view().cursor_view()
            &&& post.search_view().state_view() == pre.search_view().state_view()
            &&& cmd == Command::Render
        },
        Msg::ExecuteSearch => {
            &&& same_but_search(pre, post)
            &&& executed(pre.search_view(), post.search_view(), pre.buffer_view()@)
            &&& cmd == jump_command(
                current_offset(post.search_view()),
                pre.viewport_height_view() as nat,
            )
        },
        Msg::FindNext => {
            &&& same_but_search(pre, post)
            &&& unchanged_but_cursor(pre.search_view(), post.search_view())
            &&& post.search_view().cursor_view() == next_cursor(
                pre.search_view().cursor_view(),
                pre.search_view().matches_view().len(),
            )
            &&& cmd == jump_command(
                current_offset(post.search_view()),
                pre.viewport_height_view() as nat,
            )
        },
        Msg::FindPrevious => {
            &&& same_but_search(pre, post)
            &&& unchanged_but_cursor(pre.search_view(), post.search_view())
            &&& post.search_view().cursor_view() == previous_cursor(
                pre.search_view().cursor_view(),
                pre.search_view().matches_view().len(),
            )
            &&& cmd == jump_command(
                current_offset(post.search_view()),
                pre.viewport_height_view() as nat,
            )
        },
    }
}

/// Loading a file while a search is active leaves no match and no cursor.
pub proof fn lemma_load_clears_search(
    pre: HexEditor,
    name: String,
    data: Vec<u8>,
    post: HexEditor,
    cmd: Command,
)
    requires
        updated(pre, Msg::FileLoaded(name, data), post, cmd),
    ensures
        post.search_view().matches_view() == Seq::<usize>::empty(),
        post.search_view().cursor_view() is None,
{
}

/// Loading a file and exporting it with no edit between gives back exactly the
/// loaded bytes, under the loaded name.
pub proof fn lemma_load_then_export(
    pre: HexEditor,
    name: String,
    data: Vec<u8>,
    post: HexEditor,
    cmd: Command,
)
    requires
        updated(pre, Msg::FileLoaded(name, data), post, cmd),
    ensures
        export_view(post.buffer_view()) == (data@, name@),
{
}

} // verus!
