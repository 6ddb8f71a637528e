use vstd::prelude::*;

verus! {

/// Bytes shown on one row.
pub const BYTES_PER_ROW: usize = 16;

/// Rows rendered beyond the viewport, half above and half below.
pub const OVERSCAN_ROWS: u64 = 10;

/// `a / b` rounded up.
pub open spec fn ceil_div(a: nat, b: nat) -> nat
    recommends
        b > 0,
{
    a / b + if a % b == 0 { 0nat } else { 1nat }
}

pub open spec fn total_rows(total_length: nat) -> nat {
    ceil_div(total_length, BYTES_PER_ROW as nat)
}

/// Offset of the first byte of `row`.
pub open spec fn row_start(row: nat) -> nat {
    row * BYTES_PER_ROW as nat
}

/// One past the last byte of `row`, clipped to the buffer.
pub open spec fn row_end(total_length: nat, row: nat) -> nat {
    let full: nat = (row + 1) * BYTES_PER_ROW as nat;
    if full <= total_length {
        full
    } else {
        total_length
    }
}

pub open spec fn first_visible_row(scroll_offset: nat, row_height: nat) -> nat {
    scroll_offset / row_height
}

pub open spec fn visible_row_count(viewport_height: nat, row_height: nat) -> nat {
    ceil_div(viewport_height, row_height)
}

pub open spec fn start_row(scroll_offset: nat, row_height: nat) -> nat {
    let first = first_visible_row(scroll_offset, row_height);
    if first >= (OVERSCAN_ROWS / 2) as nat {
        (first - (OVERSCAN_ROWS / 2) as nat) as nat
    } else {
        0
    }
}

pub open spec fn end_row(
    scroll_offset: nat,
    viewport_height: nat,
    row_height: nat,
    total_length: nat,
) -> nat {
    let wanted = first_visible_row(scroll_offset, row_height) + visible_row_count(
        viewport_height,
        row_height,
    ) + (OVERSCAN_ROWS / 2) as nat;
    if wanted <= total_rows(total_length) {
        wanted
    } else {
        total_rows(total_length)
    }
}

/// Whether no byte at all is to be rendered.
pub open spec fn window_is_empty(
    scroll_offset: nat,
    viewport_height: nat,
    row_height: nat,
    total_length: nat,
) -> bool {
    total_length == 0 || start_row(scroll_offset, row_height) >= end_row(
        scroll_offset,
        viewport_height,
        row_height,
        total_length,
    )
}

/// First byte to render; zero when nothing is.
pub open spec fn window_start_byte(
    scroll_offset: nat,
    viewport_height: nat,
    row_height: nat,
    total_length: nat,
) -> nat {
    if window_is_empty(scroll_offset, viewport_height, row_height, total_length) {
        0
    } else {
        row_start(start_row(scroll_offset, row_height))
    }
}

/// One past the last byte to render: the end of the last row, clipped to the
/// buffer; zero when nothing is rendered.
pub open spec fn window_end_byte(
    scroll_offset: nat,
    viewport_height: nat,
    row_height: nat,
    total_length: nat,
) -> nat {
    let end = row_start(end_row(scroll_offset, viewport_height, row_height, total_length));
    if window_is_empty(scroll_offset, viewport_height, row_height, total_length) {
        0
    } else if end <= total_length {
        end
    } else {
        total_length
    }
}

/// The rows and bytes to materialise for one scroll position.
#[derive(Clone, Copy, Debug, PartialEq, Eq)]
pub struct Window {
    pub first_visible_row: u64,
    pub visible_row_count: u64,
    pub start_row: u64,
    pub end_row: u64,
    /// First byte to render; zero when the range is empty.
    pub start_byte: usize,
    /// One past the last byte to render; zero when the range is empty.
    pub end_byte: usize,
    /// Offset at which the rendered block is placed, in the caller's unit.
    pub translate_y: u128,
    /// Height of all rows together, in the caller's unit.
    pub total_content_height: u128,
}

proof fn lemma_mul_bound(a: nat, b: nat, c: nat)
    requires
        a <= b,
    ensures
        a * c <= b * c,
{
    assert(a * c <= b * c) by (nonlinear_arith)
        requires
            a <= b,
    ;
}

proof fn lemma_rows_cover(total_length: nat)
    ensures
        total_rows(total_length) * 16 >= total_length,
        total_rows(total_length) * 16 < total_length + 16,
        total_length > 0 ==> total_rows(total_length) > 0,
        total_rows(total_length) <= total_length,
{
}

/// Number of rows that `total_length` bytes fill.
pub fn row_count(total_length: usize) -> (r: u64)
    ensures
        r as nat == total_rows(total_length as nat),
{
    proof {
        lemma_rows_cover(total_length as nat);
    }
    let full = (total_length / BYTES_PER_ROW) as u64;
    if total_length % BYTES_PER_ROW == 0 {
        full
    } else {
        full + 1
    }
}

/// Byte range `[start, end)` of one row of a buffer of `total_length` bytes.
pub fn row_range(total_length: usize, row: u64) -> (r: (usize, usize))
    requires
        (row as nat) < total_rows(total_length as nat),
    ensures
        r.0 as nat == row_start(row as nat),
        r.1 as nat == row_end(total_length as nat, row as nat),
        r.0 < r.1,
{
    proof {
        lemma_rows_cover(total_length as nat);
        lemma_mul_bound(row as nat + 1, total_rows(total_length as nat), 16);
    }
    let start = (row as usize) * BYTES_PER_ROW;
    let end = if total_length - start >= BYTES_PER_ROW {
        start + BYTES_PER_ROW
    } else {
        total_length
    };
    (start, end)
}

/// Which rows and bytes to render: the visible rows widened by the overscan,
/// cut to the rows that exist. Lengths are in any unit the caller picks, so
/// long as `row_height` is in the same unit.
pub fn compute_window(
    scroll_offset: u64,
    viewport_height: u64,
    row_height: u64,
    total_length: usize,
) -> (w: Window)
    requires
        row_height > 0,
    ensures
        w.first_visible_row as nat == first_visible_row(scroll_offset as nat, row_height as nat),
        w.visible_row_count as nat == visible_row_count(viewport_height as nat, row_height as nat),
        w.start_row as nat == start_row(scroll_offset as nat, row_height as nat),
        w.end_row as nat == end_row(
            scroll_offset as nat,
            viewport_height as nat,
            row_height as nat,
            total_length as nat,
        ),
        w.start_byte as nat == window_start_byte(
            scroll_offset as nat,
            viewport_height as nat,
            row_height as nat,
            total_length as nat,
        ),
        w.end_byte as nat == window_end_byte(
            scroll_offset as nat,
            viewport_height as nat,
            row_height as nat,
            total_length as nat,
        ),
        w.translate_y as nat == w.start_row as nat * row_height as nat,
        w.total_content_height as nat == total_rows(total_length as nat) * row_height as nat,
{
    let rows = row_count(total_length);
    let first = scroll_offset / row_height;
    let visible = div_round_up(viewport_height, row_height);
    let half = OVERSCAN_ROWS / 2;
    let start = if first >= half { first - half } else { 0 };
    let wanted: u128 = first as u128 + visible as u128 + half as u128;
    let end: u64 = if wanted <= rows as u128 { wanted as u64 } else { rows };
    let (start_byte, end_byte) = if total_length == 0 || start >= end {
        (0usize, 0usize)
    } else {
        proof {
            lemma_rows_cover(total_length as nat);
            lemma_mul_bound(start as nat + 1, rows as nat, 16);
            lemma_mul_bound(end as nat, rows as nat, 16);
        }
        let sb = (start as usize) * BYTES_PER_ROW;
        let full_end: u128 = (end as u128) * (BYTES_PER_ROW as u128);
        let eb = if full_end <= total_length as u128 { full_end as usize } else { total_length };
        (sb, eb)
    };
    proof {
        lemma_mul_bound(start as nat, u64::MAX as nat, row_height as nat);
        lemma_mul_bound(row_height as nat, u64::MAX as nat, u64::MAX as nat);
        lemma_mul_bound(rows as nat, u64::MAX as nat, row_height as nat);
    }
    let translate_y = (start as u128) * (row_height as u128);
    let total_content_height = (rows as u128) * (row_height as u128);
    Window {
        first_visible_row: first,
        visible_row_count: visible,
        start_row: start,
        end_row: end,
        start_byte,
        end_byte,
        translate_y,
        total_content_height,
    }
}

fn div_round_up(a: u64, b: u64) -> (r: u64)
    requires
        b > 0,
    ensures
        r as nat == ceil_div(a as nat, b as nat),
{
    if a % b == 0 {
        a / b
    } else {
        proof {
            assert(a / b < u64::MAX) by (nonlinear_arith)
                requires
                    b > 0,
                    a % b != 0,
                    a <= u64::MAX,
            ;
        }
        a / b + 1
    }
}

/// The scroll offset that brings the row of `byte_offset` to the middle of the
/// viewport: the row's top less half the viewport height, never below zero.
pub fn scroll_offset_for_byte(byte_offset: usize, viewport_height: u64, row_height: u64) -> (r: u128)
    ensures
        r as int == (if row_start_height(byte_offset as nat, row_height as nat) >= viewport_height as nat / 2 {
            row_start_height(byte_offset as nat, row_height as nat) - viewport_height as nat / 2
        } else {
            0
        }),
{
    let row = (byte_offset / BYTES_PER_ROW) as u128;
    proof {
        lemma_mul_bound(row as nat, u64::MAX as nat, row_height as nat);
        lemma_mul_bound(row_height as nat, u64::MAX as nat, u64::MAX as nat);
    }
    let top = row * (row_height as u128);
    let half = (viewport_height / 2) as u128;
    if top >= half {
        top - half
    } else {
        0
    }
}

/// Top of the row that holds `byte_offset`.
pub open spec fn row_start_height(byte_offset: nat, row_height: nat) -> nat {
    (byte_offset / BYTES_PER_ROW as nat) * row_height
}

/// Rows of sixteen cover every byte, with less than one row to spare, and the
/// last row holds the remainder of the length by sixteen, or a full sixteen
/// when the length divides evenly. An empty buffer has no rows.
pub proof fn lemma_rows_and_last_row(total_length: nat)
    ensures
        total_rows(total_length) * BYTES_PER_ROW as nat >= total_length,
        total_length == 0 ==> total_rows(total_length) == 0,
        total_length > 0 ==> row_end(total_length, (total_rows(total_length) - 1) as nat)
            - row_start((total_rows(total_length) - 1) as nat) == (if total_length % 16 == 0 {
            16
        } else {
            total_length % 16
        }),
{
    lemma_rows_cover(total_length);
}

/// While the first visible row lies within the content, the rendered rows
/// start at or above it and end at or below it.
pub proof fn lemma_window_bounds(
    scroll_offset: nat,
    viewport_height: nat,
    row_height: nat,
    total_length: nat,
)
    requires
        row_height > 0,
        total_rows(total_length) > 0,
        first_visible_row(scroll_offset, row_height) <= total_rows(total_length),
    ensures
        start_row(scroll_offset, row_height) <= first_visible_row(scroll_offset, row_height),
        first_visible_row(scroll_offset, row_height) <= end_row(
            scroll_offset,
            viewport_height,
            row_height,
            total_length,
        ),
{
}

/// At any scroll position, the rendered bytes are those of the rendered rows:
/// they start on a row boundary and end on one or at the end of the buffer;
/// and no more rows are rendered than the visible ones plus the overscan.
pub proof fn lemma_window_alignment(
    scroll_offset: nat,
    viewport_height: nat,
    row_height: nat,
    total_length: nat,
)
    requires
        row_height > 0,
    ensures
        !window_is_empty(scroll_offset, viewport_height, row_height, total_length) ==> {
            &&& window_start_byte(scroll_offset, viewport_height, row_height, total_length)
                == row_start(start_row(scroll_offset, row_height))
            &&& window_end_byte(scroll_offset, viewport_height, row_height, total_length) == if row_start(
                end_row(scroll_offset, viewport_height, row_height, total_length),
            ) <= total_length {
                row_start(end_row(scroll_offset, viewport_height, row_height, total_length))
            } else {
                total_length
            }
        },
        window_start_byte(scroll_offset, viewport_height, row_height, total_length)
            % BYTES_PER_ROW as nat == 0,
        window_end_byte(scroll_offset, viewport_height, row_height, total_length)
            % BYTES_PER_ROW as nat == 0 || window_end_byte(
            scroll_offset,
            viewport_height,
            row_height,
            total_length,
        ) == total_length,
        end_row(scroll_offset, viewport_height, row_height, total_length) <= start_row(
            scroll_offset,
            row_height,
        ) + visible_row_count(viewport_height, row_height) + OVERSCAN_ROWS,
{
    let s = start_row(scroll_offset, row_height);
    let e = end_row(scroll_offset, viewport_height, row_height, total_length);
    assert((s * 16) % 16 == 0) by (nonlinear_arith);
    assert((e * 16) % 16 == 0) by (nonlinear_arith);
}

/// The rows account for every byte and none is wholly empty; and when the last
/// row falls in the window, the window ends with it, at the end of the buffer,
/// and that row holds the remainder of the length by sixteen, or sixteen.
pub proof fn lemma_last_row_in_window(
    scroll_offset: nat,
    viewport_height: nat,
    row_height: nat,
    total_length: nat,
)
    requires
        row_height > 0,
    ensures
        total_rows(total_length) * BYTES_PER_ROW as nat >= total_length,
        total_rows(total_length) == 0 || (total_rows(total_length) - 1) * (BYTES_PER_ROW as int)
            < total_length,
        total_rows(total_length) == 0 <==> total_length == 0,
        ({
            let rows = total_rows(total_length);
            let wanted = first_visible_row(scroll_offset, row_height) + visible_row_count(
                viewport_height,
                row_height,
            ) + (OVERSCAN_ROWS / 2) as nat;
            (total_length > 0 && start_row(scroll_offset, row_height) < rows && rows <= wanted)
                ==> {
                &&& end_row(scroll_offset, viewport_height, row_height, total_length) == rows
                &&& !window_is_empty(scroll_offset, viewport_height, row_height, total_length)
                &&& window_start_byte(scroll_offset, viewport_height, row_height, total_length)
                    == row_start(start_row(scroll_offset, row_height))
                &&& window_end_byte(scroll_offset, viewport_height, row_height, total_length)
                    == total_length
                &&& row_end(total_length, (rows - 1) as nat) - row_start((rows - 1) as nat) == (if total_length
                    % 16 == 0 {
                    16
                } else {
                    total_length % 16
                })
            }
        }),
{
    lemma_rows_cover(total_length);
}

} // verus!
