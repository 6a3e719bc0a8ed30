//! The text layout model: stateless, restartable fitting of content into
//! display bounds.
//!
//! Content is flattened into a stream of items: characters, font changes and
//! explicit page breaks. Laying a stream out from a given item offset either
//! *fits* (everything remaining fits on one sub-page) or runs *out of bounds*
//! after a number of processed items. Restarting from the advanced offset
//! yields the next sub-page; no break points are ever stored.
//!
//! The model is a monospace grid per font: a character occupies its font's
//! width on the current line, lines are 16 pixels tall, `'\n'` starts a new
//! line and `'\r'` a half line, and a line that leaves no vertical room ends
//! the sub-page. Bounds narrower than the widest font or shorter than one
//! line are unusable and everything trivially fits on one blank sub-page.

use vstd::prelude::*;

use crate::ops::{op_seq, op_seq_slice, Font, Op, CONTENT_CAPACITY, OPS_CAPACITY};

verus! {

/// Height of one text line in pixels.
pub const LINE_HEIGHT: i16 = 16;

/// Height of a half newline in pixels.
pub const HALF_LINE_HEIGHT: i16 = 8;

/// One flattened content item.
#[derive(Clone, Copy, PartialEq, Eq, Structural, Debug)]
pub enum Item {
    Chr(char),
    SetFont(Font),
    PageBreak,
}

/// What one layout pass reports: everything remaining fits, or only
/// `processed` items fit before the bounds ran out.
#[derive(Clone, Copy, PartialEq, Eq, Structural, Debug)]
pub enum LayoutFit {
    Fitting,
    OutOfBounds { processed: usize },
}

/// The stream item of one character.
pub open spec fn chr_item(c: char) -> Item {
    Item::Chr(c)
}

/// The items one operation contributes to the stream.
pub open spec fn op_items(op: Op) -> Seq<Item> {
    match op {
        Op::Text(s) => s@.map_values(|c: char| chr_item(c)),
        Op::NextPage => seq![Item::PageBreak],
        Op::Font(f) => seq![Item::SetFont(f)],
        Op::CursorOffset(_) => Seq::empty(),
        Op::Alignment(_) => Seq::empty(),
    }
}

/// The full stream of an operation sequence.
pub open spec fn items_of(ops: Seq<Op>) -> Seq<Item>
    decreases ops.len(),
{
    if ops.len() == 0 {
        Seq::empty()
    } else {
        items_of(ops.drop_last()) + op_items(ops.last())
    }
}

pub proof fn lemma_items_of_push(ops: Seq<Op>, op: Op)
    ensures
        items_of(ops.push(op)) == items_of(ops) + op_items(op),
{
    assert(ops.push(op).drop_last() =~= ops);
    assert(ops.push(op).last() == op);
}

/// Width of one character in the given font, in pixels.
pub open spec fn font_width(f: Font) -> int {
    match f {
        Font::Normal => 8,
        Font::Bold => 10,
        Font::Mono => 9,
    }
}

/// Bounds can hold at least one character of the widest font on one line.
pub open spec fn usable(w: int, h: int) -> bool {
    10 <= w && 16 <= h
}

/// The row after moving down by `d`, clamped to the bottom of the bounds.
pub open spec fn advance_row(row: int, d: int, h: int) -> int {
    if row + d > h {
        h
    } else {
        row + d
    }
}

/// The font in force just before item `i`: the last font change in the
/// prefix, or the style's initial font.
pub open spec fn font_at(items: Seq<Item>, i: int, init: Font) -> Font
    decreases i,
{
    if i <= 0 || i > items.len() {
        init
    } else {
        match items[i - 1] {
            Item::SetFont(f) => f,
            _ => font_at(items, i - 1, init),
        }
    }
}

/// Walks the stream from item `i` with cursor (`col`, `row`) and the given
/// font. Returns the index where the walk stops and whether the end of the
/// stream was reached (true: fits) or the bounds ran out (false).
pub open spec fn scan(items: Seq<Item>, i: int, col: int, row: int, font: Font, w: int, h: int) -> (
    int,
    bool,
)
    decreases items.len() - i,
{
    if i < 0 || i >= items.len() {
        (items.len() as int, true)
    } else {
        match items[i] {
            Item::SetFont(f) => scan(items, i + 1, col, row, f, w, h),
            Item::PageBreak => (i + 1, false),
            Item::Chr(c) => {
                if c == '\n' {
                    scan(items, i + 1, 0, advance_row(row, 16, h), font, w, h)
                } else if c == '\r' {
                    scan(items, i + 1, 0, advance_row(row, 8, h), font, w, h)
                } else {
                    let cw = font_width(font);
                    let col2 = if col + cw > w {
                        0
                    } else {
                        col
                    };
                    let row2 = if col + cw > w {
                        advance_row(row, 16, h)
                    } else {
                        row
                    };
                    if row2 + 16 > h {
                        (i, false)
                    } else {
                        scan(items, i + 1, col2 + cw, row2, font, w, h)
                    }
                }
            },
        }
    }
}

/// Result of one layout pass from `offset`: stop index and whether it fits.
/// Unusable bounds fit trivially: nothing is laid out.
pub open spec fn layout_result(items: Seq<Item>, offset: int, init: Font, w: int, h: int) -> (
    int,
    bool,
) {
    if !usable(w, h) {
        (items.len() as int, true)
    } else {
        scan(items, offset, 0, 0, font_at(items, offset, init), w, h)
    }
}

pub open spec fn layout_fits(items: Seq<Item>, offset: int, init: Font, w: int, h: int) -> bool {
    layout_result(items, offset, init, w, h).1
}

pub open spec fn layout_stop(items: Seq<Item>, offset: int, init: Font, w: int, h: int) -> int {
    layout_result(items, offset, init, w, h).0
}

/// The offset the next sub-page starts at. Clamped into
/// `offset + 1 ..= items.len()` so that pagination always advances; under
/// usable bounds the clamps never bind (`lemma_layout_progress`).
pub open spec fn next_page_offset(items: Seq<Item>, offset: int, init: Font, w: int, h: int) -> int {
    let stop = layout_stop(items, offset, init, w, h);
    let n = if stop <= offset {
        offset + 1
    } else {
        stop
    };
    if n > items.len() {
        items.len() as int
    } else {
        n
    }
}

/// Number of sub-pages needed for the stream from `offset` on: one for the
/// fitting tail, plus one per out-of-bounds restart. Always at least 1.
pub open spec fn spec_page_count(items: Seq<Item>, offset: int, init: Font, w: int, h: int) -> int
    decreases items.len() - offset,
        when 0 <= offset <= items.len()
{
    if offset >= items.len() {
        1
    } else if layout_fits(items, offset, init, w, h) {
        1
    } else {
        1 + spec_page_count(items, next_page_offset(items, offset, init, w, h), init, w, h)
    }
}

/// The item offset sub-page `k` starts at.
pub open spec fn spec_offset_of_page(items: Seq<Item>, k: int, init: Font, w: int, h: int) -> int
    decreases k,
{
    if k <= 0 {
        0
    } else {
        next_page_offset(items, spec_offset_of_page(items, k - 1, init, w, h), init, w, h)
    }
}

/// The characters rendered between two stream positions, in order.
pub open spec fn chars_between(items: Seq<Item>, i: int, stop: int) -> Seq<char>
    decreases stop - i,
{
    if i < 0 || i >= stop || i >= items.len() {
        Seq::empty()
    } else {
        match items[i] {
            Item::Chr(c) => seq![c] + chars_between(items, i + 1, stop),
            _ => chars_between(items, i + 1, stop),
        }
    }
}

// ---------------------------------------------------------------------------
// Facts about the walk.
// ---------------------------------------------------------------------------

/// The walk never stops before where it started nor past the stream's end.
pub proof fn lemma_scan_stop_in_range(
    items: Seq<Item>,
    i: int,
    col: int,
    row: int,
    font: Font,
    w: int,
    h: int,
)
    requires
        0 <= i <= items.len(),
    ensures
        i <= scan(items, i, col, row, font, w, h).0 <= items.len(),
    decreases items.len() - i,
{
    if i < items.len() {
        match items[i] {
            Item::SetFont(f) => {
                lemma_scan_stop_in_range(items, i + 1, col, row, f, w, h);
            },
            Item::PageBreak => {},
            Item::Chr(c) => {
                if c == '\n' {
                    lemma_scan_stop_in_range(items, i + 1, 0, advance_row(row, 16, h), font, w, h);
                } else if c == '\r' {
                    lemma_scan_stop_in_range(items, i + 1, 0, advance_row(row, 8, h), font, w, h);
                } else {
                    let cw = font_width(font);
                    let col2 = if col + cw > w {
                        0int
                    } else {
                        col
                    };
                    let row2 = if col + cw > w {
                        advance_row(row, 16, h)
                    } else {
                        row
                    };
                    if row2 + 16 <= h {
                        lemma_scan_stop_in_range(items, i + 1, col2 + cw, row2, font, w, h);
                    }
                }
            },
        }
    }
}

/// A walk that fits has consumed the whole stream.
pub proof fn lemma_scan_fits_at_end(
    items: Seq<Item>,
    i: int,
    col: int,
    row: int,
    font: Font,
    w: int,
    h: int,
)
    requires
        0 <= i <= items.len(),
        scan(items, i, col, row, font, w, h).1,
    ensures
        scan(items, i, col, row, font, w, h).0 == items.len(),
    decreases items.len() - i,
{
    if i < items.len() {
        match items[i] {
            Item::SetFont(f) => {
                lemma_scan_fits_at_end(items, i + 1, col, row, f, w, h);
            },
            Item::PageBreak => {},
            Item::Chr(c) => {
                if c == '\n' {
                    lemma_scan_fits_at_end(items, i + 1, 0, advance_row(row, 16, h), font, w, h);
                } else if c == '\r' {
                    lemma_scan_fits_at_end(items, i + 1, 0, advance_row(row, 8, h), font, w, h);
                } else {
                    let cw = font_width(font);
                    let col2 = if col + cw > w {
                        0int
                    } else {
                        col
                    };
                    let row2 = if col + cw > w {
                        advance_row(row, 16, h)
                    } else {
                        row
                    };
                    if row2 + 16 <= h {
                        lemma_scan_fits_at_end(items, i + 1, col2 + cw, row2, font, w, h);
                    }
                }
            },
        }
    }
}

/// Under usable bounds a failed layout pass still consumes at least one item:
/// from a fresh cursor the first item always fits.
pub proof fn lemma_layout_progress(items: Seq<Item>, offset: int, init: Font, w: int, h: int)
    requires
        usable(w, h),
        0 <= offset < items.len(),
        !layout_fits(items, offset, init, w, h),
    ensures
        offset + 1 <= layout_stop(items, offset, init, w, h) <= items.len(),
{
    let font = font_at(items, offset, init);
    lemma_scan_stop_in_range(items, offset, 0, 0, font, w, h);
    match items[offset] {
        Item::SetFont(f) => {
            lemma_scan_stop_in_range(items, offset + 1, 0, 0, f, w, h);
        },
        Item::PageBreak => {},
        Item::Chr(c) => {
            if c == '\n' {
                lemma_scan_stop_in_range(items, offset + 1, 0, advance_row(0, 16, h), font, w, h);
            } else if c == '\r' {
                lemma_scan_stop_in_range(items, offset + 1, 0, advance_row(0, 8, h), font, w, h);
            } else {
                let cw = font_width(font);
                assert(cw <= 10);
                assert(0 + cw <= w);
                assert(0 + 16 <= h);
                lemma_scan_stop_in_range(items, offset + 1, 0 + cw, 0, font, w, h);
            }
        },
    }
}

/// Extending the walked range by one item appends that item's character, if
/// it has one, to the rendered text.
pub proof fn lemma_chars_between_snoc(items: Seq<Item>, i: int, j: int)
    requires
        0 <= i <= j < items.len(),
    ensures
        chars_between(items, i, j + 1) == chars_between(items, i, j) + (match items[j] {
            Item::Chr(c) => seq![c],
            _ => Seq::<char>::empty(),
        }),
    decreases j - i,
{
    let tail = (match items[j] {
        Item::Chr(c) => seq![c],
        _ => Seq::<char>::empty(),
    });
    if i == j {
        assert(chars_between(items, i, j) == Seq::<char>::empty());
        assert(chars_between(items, j + 1, j + 1) == Seq::<char>::empty());
        assert(chars_between(items, i, j + 1) =~= tail);
    } else {
        lemma_chars_between_snoc(items, i + 1, j);
        match items[i] {
            Item::Chr(c) => {
                assert(chars_between(items, i, j + 1) == seq![c] + chars_between(
                    items,
                    i + 1,
                    j + 1,
                ));
                assert(seq![c] + (chars_between(items, i + 1, j) + tail) =~= (seq![c]
                    + chars_between(items, i + 1, j)) + tail);
            },
            _ => {},
        }
    }
}

/// Every stream needs at least one sub-page.
pub proof fn lemma_page_count_pos(items: Seq<Item>, offset: int, init: Font, w: int, h: int)
    requires
        0 <= offset <= items.len(),
    ensures
        spec_page_count(items, offset, init, w, h) >= 1,
    decreases items.len() - offset,
{
    if offset < items.len() && !layout_fits(items, offset, init, w, h) {
        lemma_page_count_pos(items, next_page_offset(items, offset, init, w, h), init, w, h);
    }
}

/// From the start of sub-page `k`, exactly the remaining sub-pages are
/// still needed.
pub proof fn lemma_offset_page_remaining(items: Seq<Item>, k: int, init: Font, w: int, h: int)
    requires
        0 <= k < spec_page_count(items, 0, init, w, h),
    ensures
        0 <= spec_offset_of_page(items, k, init, w, h) <= items.len(),
        spec_page_count(items, spec_offset_of_page(items, k, init, w, h), init, w, h)
            == spec_page_count(items, 0, init, w, h) - k,
    decreases k,
{
    if k > 0 {
        lemma_offset_page_remaining(items, k - 1, init, w, h);
        let o = spec_offset_of_page(items, k - 1, init, w, h);
        assert(spec_page_count(items, o, init, w, h) >= 2);
        assert(o < items.len());
        assert(!layout_fits(items, o, init, w, h));
    }
}

/// Pagination completeness: walking the sub-pages in order, the layout
/// reports a fit exactly at the last sub-page and never earlier.
pub proof fn lemma_pagination_completeness(items: Seq<Item>, k: int, init: Font, w: int, h: int)
    requires
        0 <= k < spec_page_count(items, 0, init, w, h),
    ensures
        layout_fits(items, spec_offset_of_page(items, k, init, w, h), init, w, h) <==> k
            == spec_page_count(items, 0, init, w, h) - 1,
{
    lemma_offset_page_remaining(items, k, init, w, h);
    let o = spec_offset_of_page(items, k, init, w, h);
    if !layout_fits(items, o, init, w, h) {
        if o >= items.len() {
            lemma_scan_stop_in_range(items, o, 0, 0, font_at(items, o, init), w, h);
            assert(layout_fits(items, o, init, w, h));
        }
        lemma_page_count_pos(items, next_page_offset(items, o, init, w, h), init, w, h);
        assert(spec_page_count(items, o, init, w, h) >= 2);
    }
}

/// Offset monotonicity: the character offsets of consecutive sub-pages are
/// strictly increasing and never pass the end of the stream.
pub proof fn lemma_offsets_monotone(items: Seq<Item>, k: int, init: Font, w: int, h: int)
    requires
        0 <= k < spec_page_count(items, 0, init, w, h) - 1,
    ensures
        spec_offset_of_page(items, k, init, w, h) < spec_offset_of_page(items, k + 1, init, w, h)
            <= items.len(),
{
    lemma_offset_page_remaining(items, k, init, w, h);
    let o = spec_offset_of_page(items, k, init, w, h);
    assert(spec_page_count(items, o, init, w, h) >= 2);
    assert(o < items.len());
}

/// The offsets cover the whole content: the layout pass of the last
/// sub-page consumes the stream to its end, so the consumed counts of all
/// sub-pages add up to the total content length.
pub proof fn lemma_offsets_cover_content(items: Seq<Item>, init: Font, w: int, h: int)
    ensures
        layout_stop(
            items,
            spec_offset_of_page(items, spec_page_count(items, 0, init, w, h) - 1, init, w, h),
            init,
            w,
            h,
        ) == items.len(),
{
    lemma_page_count_pos(items, 0, init, w, h);
    let k = spec_page_count(items, 0, init, w, h) - 1;
    lemma_pagination_completeness(items, k, init, w, h);
    let o = spec_offset_of_page(items, k, init, w, h);
    lemma_offset_page_remaining(items, k, init, w, h);
    if usable(w, h) {
        lemma_scan_fits_at_end(items, o, 0, 0, font_at(items, o, init), w, h);
    }
}

/// Sub-page start offsets always lie within the stream.
pub proof fn lemma_offset_of_page_in_range(items: Seq<Item>, k: int, init: Font, w: int, h: int)
    ensures
        0 <= spec_offset_of_page(items, k, init, w, h) <= items.len(),
    decreases k,
{
    if k > 0 {
        lemma_offset_of_page_in_range(items, k - 1, init, w, h);
    }
}

// ---------------------------------------------------------------------------
// Executable layout.
// ---------------------------------------------------------------------------

/// Flattens an operation sequence into its item stream.
pub fn flatten_ops(ops: &heapless::Vec<Op, OPS_CAPACITY>) -> (items: Vec<Item>)
    ensures
        items@ == items_of(op_seq(*ops)),
{
    let s = op_seq_slice(ops);
    let mut items: Vec<Item> = Vec::new();
    let n = s.len();
    assert(s@.take(0) =~= Seq::<Op>::empty());
    let mut i: usize = 0;
    while i < n
        invariant
            n == s@.len(),
            i <= n,
            items@ == items_of(s@.take(i as int)),
        decreases n - i,
    {
        proof {
            assert(s@.take(i + 1) =~= s@.take(i as int).push(s@[i as int]));
            lemma_items_of_push(s@.take(i as int), s@[i as int]);
        }
        let op = &s[i];
        match op {
            Op::Text(t) => {
                let ghost base = items@;
                let ts = t.as_str();
                let m = ts.unicode_len();
                proof {
                    assert(t@.take(0).map_values(|c: char| chr_item(c)) =~= Seq::<Item>::empty());
                    assert(base + Seq::<Item>::empty() =~= base);
                }
                let mut j: usize = 0;
                while j < m
                    invariant
                        ts@ == t@,
                        m == t@.len(),
                        j <= m,
                        items@ == base + t@.take(j as int).map_values(|c: char| chr_item(c)),
                    decreases m - j,
                {
                    let c = ts.get_char(j);
                    items.push(Item::Chr(c));
                    proof {
                        let f = |c: char| chr_item(c);
                        assert(t@.take(j + 1) =~= t@.take(j as int).push(t@[j as int]));
                        assert(t@.take(j + 1).map_values(f) =~= t@.take(j as int).map_values(
                            f,
                        ).push(chr_item(t@[j as int])));
                        assert((base + t@.take(j as int).map_values(f)).push(
                            chr_item(t@[j as int]),
                        ) =~= base + t@.take(j as int).map_values(f).push(chr_item(t@[j as int])));
                    }
                    j += 1;
                }
                proof {
                    let f = |c: char| chr_item(c);
                    assert(t@.take(m as int) =~= t@);
                    assert(op_items(s@[i as int]) == t@.map_values(f));
                }
            },
            Op::NextPage => {
                items.push(Item::PageBreak);
                proof {
                    assert(items@ =~= items_of(s@.take(i as int)) + op_items(s@[i as int]));
                }
            },
            Op::Font(f) => {
                items.push(Item::SetFont(*f));
                proof {
                    assert(items@ =~= items_of(s@.take(i as int)) + op_items(s@[i as int]));
                }
            },
            Op::CursorOffset(_) => {
                proof {
                    assert(items@ =~= items_of(s@.take(i as int)) + op_items(s@[i as int]));
                }
            },
            Op::Alignment(_) => {
                proof {
                    assert(items@ =~= items_of(s@.take(i as int)) + op_items(s@[i as int]));
                }
            },
        }
        i += 1;
    }
    proof {
        assert(s@.take(n as int) =~= s@);
    }
    items
}

/// Width of one character in the given font, in pixels.
pub fn font_width_px(f: Font) -> (r: i32)
    ensures
        r as int == font_width(f),
{
    match f {
        Font::Normal => 8,
        Font::Bold => 10,
        Font::Mono => 9,
    }
}

/// One layout pass over a stream from `offset`, collecting the characters a
/// drawing sink would receive. A measuring pass ignores the collected text,
/// so which variant is reported cannot depend on the sink.
pub fn layout_pass(items: &Vec<Item>, offset: usize, init: Font, w: i16, h: i16) -> (r: (
    LayoutFit,
    Vec<char>,
))
    requires
        offset <= items@.len(),
    ensures
        layout_fits(items@, offset as int, init, w as int, h as int) <==> r.0 == LayoutFit::Fitting,
        r.0 matches LayoutFit::OutOfBounds { processed } ==> processed as int == layout_stop(
            items@,
            offset as int,
            init,
            w as int,
            h as int,
        ) - offset,
        usable(w as int, h as int) ==> r.1@ == chars_between(
            items@,
            offset as int,
            layout_stop(items@, offset as int, init, w as int, h as int),
        ),
        !usable(w as int, h as int) ==> r.1@ == Seq::<char>::empty(),
{
    if w < 10 || h < 16 {
        return (LayoutFit::Fitting, Vec::new());
    }
    let hh: i32 = h as i32;
    let ww: i32 = w as i32;
    // Recover the font in force at `offset` by scanning the prefix.
    let mut font = init;
    let mut j: usize = 0;
    while j < offset
        invariant
            j <= offset <= items@.len(),
            font == font_at(items@, j as int, init),
        decreases offset - j,
    {
        let it = items[j];
        if let Item::SetFont(f) = it {
            font = f;
        }
        j += 1;
    }
    let n = items.len();
    let ghost f0 = font;
    let mut chars: Vec<char> = Vec::new();
    let mut col: i32 = 0;
    let mut row: i32 = 0;
    let mut i: usize = offset;
    loop
        invariant
            usable(ww as int, hh as int),
            ww == w as int,
            hh == h as int,
            n == items@.len(),
            offset <= i <= n,
            0 <= col <= ww + 10,
            0 <= row <= hh,
            f0 == font_at(items@, offset as int, init),
            scan(items@, offset as int, 0, 0, f0, ww as int, hh as int) == scan(
                items@,
                i as int,
                col as int,
                row as int,
                font,
                ww as int,
                hh as int,
            ),
            chars@ == chars_between(items@, offset as int, i as int),
        decreases n - i,
    {
        if i >= n {
            return (LayoutFit::Fitting, chars);
        }
        let it = items[i];
        proof {
            if i > offset {
                lemma_chars_between_snoc(items@, offset as int, i as int);
            }
        }
        match it {
            Item::SetFont(f) => {
                proof {
                    lemma_chars_between_snoc(items@, offset as int, i as int);
                }
                font = f;
                i += 1;
            },
            Item::PageBreak => {
                proof {
                    lemma_chars_between_snoc(items@, offset as int, i as int);
                }
                return (LayoutFit::OutOfBounds { processed: i + 1 - offset }, chars);
            },
            Item::Chr(c) => {
                if c == '\n' {
                    proof {
                        lemma_chars_between_snoc(items@, offset as int, i as int);
                    }
                    col = 0;
                    row = if row + 16 > hh {
                        hh
                    } else {
                        row + 16
                    };
                    chars.push(c);
                    i += 1;
                } else if c == '\r' {
                    proof {
                        lemma_chars_between_snoc(items@, offset as int, i as int);
                    }
                    col = 0;
                    row = if row + 8 > hh {
                        hh
                    } else {
                        row + 8
                    };
                    chars.push(c);
                    i += 1;
                } else {
                    let cw = font_width_px(font);
                    let wrap = col + cw > ww;
                    let col2: i32 = if wrap {
                        0
                    } else {
                        col
                    };
                    let row2: i32 = if wrap {
                        if row + 16 > hh {
                            hh
                        } else {
                            row + 16
                        }
                    } else {
                        row
                    };
                    if row2 + 16 > hh {
                        return (LayoutFit::OutOfBounds { processed: i - offset }, chars);
                    }
                    proof {
                        lemma_chars_between_snoc(items@, offset as int, i as int);
                    }
                    col = col2 + cw;
                    row = row2;
                    chars.push(c);
                    i += 1;
                }
            },
        }
    }
}

/// Counts the sub-pages a stream needs by restarting the layout pass until
/// it fits, never storing a break point.
pub fn count_pages(items: &Vec<Item>, init: Font, w: i16, h: i16) -> (n: usize)
    requires
        items@.len() <= CONTENT_CAPACITY,
    ensures
        n as int == spec_page_count(items@, 0, init, w as int, h as int),
{
    let mut count: usize = 1;
    let mut offset: usize = 0;
    loop
        invariant
            offset <= items@.len() <= CONTENT_CAPACITY,
            1 <= count <= offset + 1,
            spec_page_count(items@, 0, init, w as int, h as int) == (count - 1) + spec_page_count(
                items@,
                offset as int,
                init,
                w as int,
                h as int,
            ),
        decreases items@.len() - offset,
    {
        let (fit, _measured) = layout_pass(items, offset, init, w, h);
        match fit {
            LayoutFit::Fitting => {
                return count;
            },
            LayoutFit::OutOfBounds { processed } => {
                proof {
                    assert(usable(w as int, h as int));
                    assert((offset as int) < items@.len());
                    lemma_layout_progress(items@, offset as int, init, w as int, h as int);
                }
                count += 1;
                offset += processed;
            },
        }
    }
}

/// `to_page` clamped to the last sub-page of the stream.
pub open spec fn clamped_page(items: Seq<Item>, to: int, init: Font, w: int, h: int) -> int {
    let last = spec_page_count(items, 0, init, w, h) - 1;
    if to > last {
        last
    } else {
        to
    }
}

/// The item offset where sub-page `to_page` starts, found by restarting the
/// layout pass; stops early at the last sub-page when `to_page` is past the
/// content's natural end.
pub fn offset_for_page(items: &Vec<Item>, to_page: usize, init: Font, w: i16, h: i16) -> (o: usize)
    requires
        items@.len() <= CONTENT_CAPACITY,
    ensures
        o as int == spec_offset_of_page(
            items@,
            clamped_page(items@, to_page as int, init, w as int, h as int),
            init,
            w as int,
            h as int,
        ),
{
    let mut active: usize = 0;
    let mut offset: usize = 0;
    while active < to_page
        invariant
            active <= to_page,
            offset <= items@.len() <= CONTENT_CAPACITY,
            offset as int == spec_offset_of_page(
                items@,
                active as int,
                init,
                w as int,
                h as int,
            ),
            spec_page_count(items@, 0, init, w as int, h as int) == active + spec_page_count(
                items@,
                offset as int,
                init,
                w as int,
                h as int,
            ),
        decreases to_page - active,
    {
        let (fit, _measured) = layout_pass(items, offset, init, w, h);
        match fit {
            LayoutFit::Fitting => {
                proof {
                    lemma_page_count_pos(items@, offset as int, init, w as int, h as int);
                }
                return offset;
            },
            LayoutFit::OutOfBounds { processed } => {
                proof {
                    lemma_layout_progress(items@, offset as int, init, w as int, h as int);
                }
                offset += processed;
                active += 1;
            },
        }
    }
    proof {
        lemma_page_count_pos(items@, offset as int, init, w as int, h as int);
    }
    offset
}

} // verus!
