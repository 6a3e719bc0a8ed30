//! Pages and the lazy page factory.
//!
//! A `Page` is one logical screen: a bounded operation sequence plus a read
//! cursor (current sub-page, character offset). Its sub-page count is
//! recomputed from bounds at `place` time and nothing is cached across
//! placements. `FlowPages` stands for a whole flow without storing any page:
//! it owns only a `PageSource` and a page count, re-deriving every page, and
//! every scrollbar position, on demand.
//!
//! Contracts speak of `PageV`, the page's view: the flattened item stream,
//! style, cursor and chrome, with text as character sequences.

use vstd::prelude::*;

use crate::buttons::{
    icon_details_v, ButtonActions, ButtonLayout, ButtonLayoutV, IconKind,
};
use crate::geometry::Rect;
use crate::layout::{
    chars_between, chr_item, clamped_page, count_pages, flatten_ops, items_of, layout_pass,
    layout_stop, lemma_items_of_push, lemma_page_count_pos, offset_for_page, op_items,
    layout_fits, spec_offset_of_page, spec_page_count, usable, Item, LayoutFit,
};
use crate::ops::{
    op_seq, op_seq_new, op_seq_push, Alignment, Font, LineBreaking, Op, CONTENT_CAPACITY,
    OPS_CAPACITY,
};

verus! {

/// How a page's text is drawn: the initial font and the line-breaking style.
#[derive(Clone, Copy, PartialEq, Eq, Structural, Debug)]
pub struct TextStyle {
    pub font: Font,
    pub line_breaking: LineBreaking,
}

/// View of a `Page`.
pub struct PageV {
    /// The flattened content stream.
    pub items: Seq<Item>,
    /// How many operations the bounded sequence holds.
    pub ops_len: int,
    /// Initial font of the content.
    pub font: Font,
    pub line_breaking: LineBreaking,
    /// The bounds the page was last placed against.
    pub bounds: Rect,
    pub btn_layout: ButtonLayoutV,
    pub btn_actions: ButtonActions,
    /// The sub-page currently shown.
    pub current_page: int,
    /// Total sub-pages, as computed at the last placement.
    pub page_count: int,
    /// Where the current sub-page's text begins in the stream.
    pub char_offset: int,
    pub title: Option<Seq<char>>,
}

/// View of an optional owned text.
pub open spec fn opt_text_view(o: Option<String>) -> Option<Seq<char>> {
    match o {
        Some(s) => Some(s@),
        None => None,
    }
}

/// One logical screen of a flow, possibly spanning several sub-pages.
pub struct Page {
    pub ops: heapless::Vec<Op, OPS_CAPACITY>,
    pub style: TextStyle,
    pub bounds: Rect,
    pub btn_layout: ButtonLayout,
    pub btn_actions: ButtonActions,
    pub current_page: usize,
    pub page_count: usize,
    pub char_offset: usize,
    pub title: Option<String>,
}

impl View for Page {
    type V = PageV;

    open spec fn view(&self) -> PageV {
        PageV {
            items: items_of(op_seq(self.ops)),
            ops_len: op_seq(self.ops).len() as int,
            font: self.style.font,
            line_breaking: self.style.line_breaking,
            bounds: self.bounds,
            btn_layout: self.btn_layout@,
            btn_actions: self.btn_actions,
            current_page: self.current_page as int,
            page_count: self.page_count as int,
            char_offset: self.char_offset as int,
            title: opt_text_view(self.title),
        }
    }
}

/// The capacity invariants of a page's content.
pub open spec fn caps_ok(v: PageV) -> bool {
    0 <= v.ops_len <= OPS_CAPACITY && v.items.len() <= CONTENT_CAPACITY
}

/// A page as a factory hands it out: capacities hold and the cursor sits at
/// the first sub-page with a zero character offset.
pub open spec fn fresh_page(v: PageV) -> bool {
    caps_ok(v) && v.current_page == 0 && v.char_offset == 0 && v.page_count == 1
        && v.bounds == Rect::spec_zero()
}

/// How many sub-pages a page's content needs inside the given bounds.
pub open spec fn page_sub_count(v: PageV, bounds: Rect) -> int {
    spec_page_count(v.items, 0, v.font, bounds.spec_width(), bounds.spec_height())
}

/// What placing a page against bounds does: stores the bounds and recomputes
/// the sub-page count; nothing else changes.
pub open spec fn spec_place(v: PageV, bounds: Rect) -> PageV {
    PageV { bounds: bounds, page_count: page_sub_count(v, bounds), ..v }
}

/// Re-placement is idempotent: placing a page twice against the same bounds
/// yields the same page, and in particular the same sub-page count.
pub proof fn lemma_place_idempotent(v: PageV, bounds: Rect)
    ensures
        spec_place(spec_place(v, bounds), bounds) == spec_place(v, bounds),
        page_sub_count(spec_place(v, bounds), bounds) == page_sub_count(v, bounds),
{
}

/// The up/down arrows a page shows while it has sub-pages in that direction:
/// a narrow up arrow on the last sub-page, a wide pair in between, and the
/// page's own buttons where pagination does not claim the position.
pub open spec fn spec_btn_layout(v: PageV) -> ButtonLayoutV {
    let has_prev = v.current_page > 0;
    let has_next = v.current_page + 1 < v.page_count;
    ButtonLayoutV {
        btn_left: if has_prev && !has_next {
            Some(icon_details_v(IconKind::ArrowUp, false))
        } else if has_prev {
            Some(icon_details_v(IconKind::ArrowUp, true))
        } else {
            v.btn_layout.btn_left
        },
        btn_middle: if has_next {
            None
        } else {
            v.btn_layout.btn_middle
        },
        btn_right: if has_next {
            Some(icon_details_v(IconKind::ArrowDown, true))
        } else {
            v.btn_layout.btn_right
        },
    }
}

impl Page {
    /// A fresh, empty page with the given chrome, showing sub-page 0 of 1.
    pub fn new(btn_layout: ButtonLayout, btn_actions: ButtonActions, initial_text_font: Font) -> (p:
        Page)
        ensures
            p@ == (PageV {
                items: Seq::<Item>::empty(),
                ops_len: 0,
                font: initial_text_font,
                line_breaking: LineBreaking::BreakAtWhitespace,
                bounds: Rect::spec_zero(),
                btn_layout: btn_layout@,
                btn_actions: btn_actions,
                current_page: 0,
                page_count: 1,
                char_offset: 0,
                title: None::<Seq<char>>,
            }),
            fresh_page(p@),
    {
        let p = Page {
            ops: op_seq_new(),
            style: TextStyle { font: initial_text_font, line_breaking: LineBreaking::BreakAtWhitespace },
            bounds: Rect::zero(),
            btn_layout,
            btn_actions,
            current_page: 0,
            page_count: 1,
            char_offset: 0,
            title: None,
        };
        proof {
            assert(items_of(op_seq(p.ops)) =~= Seq::<Item>::empty());
        }
        p
    }

    /// Changes the line-breaking style.
    pub fn with_line_breaking(self, line_breaking: LineBreaking) -> (p: Page)
        ensures
            p@ == (PageV { line_breaking: line_breaking, ..self@ }),
    {
        Page { style: TextStyle { font: self.style.font, line_breaking }, ..self }
    }

    /// Adds a title shown by the flow while this page is current.
    pub fn with_title(self, title: String) -> (p: Page)
        ensures
            p@ == (PageV { title: Some(title@), ..self@ }),
    {
        Page { title: Some(title), ..self }
    }

    /// Appends one operation. Room for it is a construction-time contract:
    /// content that would exceed the capacities must never be built.
    pub fn with_new_item(self, item: Op) -> (p: Page)
        requires
            self@.ops_len < OPS_CAPACITY,
            self@.items.len() + op_items(item).len() <= CONTENT_CAPACITY,
        ensures
            p@ == (PageV {
                items: self@.items + op_items(item),
                ops_len: self@.ops_len + 1,
                ..self@
            }),
    {
        let mut ops = self.ops;
        let ghost before = op_seq(ops);
        let _room = op_seq_push(&mut ops, item);
        proof {
            lemma_items_of_push(before, item);
        }
        Page { ops, ..self }
    }

    /// Appends literal text.
    pub fn text(self, text: String) -> (p: Page)
        requires
            self@.ops_len < OPS_CAPACITY,
            self@.items.len() + text@.len() <= CONTENT_CAPACITY,
        ensures
            p@ == (PageV {
                items: self@.items + text@.map_values(|c: char| chr_item(c)),
                ops_len: self@.ops_len + 1,
                ..self@
            }),
    {
        self.with_new_item(Op::Text(text))
    }

    /// Appends an explicit newline.
    pub fn newline(self) -> (p: Page)
        requires
            self@.ops_len < OPS_CAPACITY,
            self@.items.len() + 1 <= CONTENT_CAPACITY,
        ensures
            p@ == (PageV {
                items: self@.items + seq![Item::Chr('\n')],
                ops_len: self@.ops_len + 1,
                ..self@
            }),
    {
        proof {
            reveal_strlit("\n");
            assert("\n"@.map_values(|c: char| chr_item(c)) =~= seq![Item::Chr('\n')]);
        }
        self.with_new_item(Op::Text("\n".to_owned()))
    }

    /// Appends a half newline.
    pub fn newline_half(self) -> (p: Page)
        requires
            self@.ops_len < OPS_CAPACITY,
            self@.items.len() + 1 <= CONTENT_CAPACITY,
        ensures
            p@ == (PageV {
                items: self@.items + seq![Item::Chr('\r')],
                ops_len: self@.ops_len + 1,
                ..self@
            }),
    {
        proof {
            reveal_strlit("\r");
            assert("\r"@.map_values(|c: char| chr_item(c)) =~= seq![Item::Chr('\r')]);
        }
        self.with_new_item(Op::Text("\r".to_owned()))
    }

    /// Appends an explicit sub-page break.
    pub fn next_page(self) -> (p: Page)
        requires
            self@.ops_len < OPS_CAPACITY,
            self@.items.len() + 1 <= CONTENT_CAPACITY,
        ensures
            p@ == (PageV {
                items: self@.items + seq![Item::PageBreak],
                ops_len: self@.ops_len + 1,
                ..self@
            }),
    {
        self.with_new_item(Op::NextPage)
    }

    /// Appends a font change.
    pub fn font(self, font: Font) -> (p: Page)
        requires
            self@.ops_len < OPS_CAPACITY,
            self@.items.len() + 1 <= CONTENT_CAPACITY,
        ensures
            p@ == (PageV {
                items: self@.items + seq![Item::SetFont(font)],
                ops_len: self@.ops_len + 1,
                ..self@
            }),
    {
        self.with_new_item(Op::Font(font))
    }

    /// Appends a cursor offset; a rendering hint, invisible to pagination.
    pub fn offset(self, offset: crate::geometry::Offset) -> (p: Page)
        requires
            self@.ops_len < OPS_CAPACITY,
            self@.items.len() <= CONTENT_CAPACITY,
        ensures
            p@ == (PageV { ops_len: self@.ops_len + 1, ..self@ }),
    {
        proof {
            assert(self@.items + op_items(Op::CursorOffset(offset)) =~= self@.items);
        }
        self.with_new_item(Op::CursorOffset(offset))
    }

    /// Appends an alignment change; a rendering hint, invisible to
    /// pagination.
    pub fn alignment(self, alignment: Alignment) -> (p: Page)
        requires
            self@.ops_len < OPS_CAPACITY,
            self@.items.len() <= CONTENT_CAPACITY,
        ensures
            p@ == (PageV { ops_len: self@.ops_len + 1, ..self@ }),
    {
        proof {
            assert(self@.items + op_items(Op::Alignment(alignment)) =~= self@.items);
        }
        self.with_new_item(Op::Alignment(alignment))
    }

    /// Normal-font text.
    pub fn text_normal(self, text: String) -> (p: Page)
        requires
            self@.ops_len + 2 <= OPS_CAPACITY,
            self@.items.len() + 1 + text@.len() <= CONTENT_CAPACITY,
        ensures
            p@ == (PageV {
                items: self@.items + seq![Item::SetFont(Font::Normal)] + text@.map_values(
                    |c: char| chr_item(c),
                ),
                ops_len: self@.ops_len + 2,
                ..self@
            }),
    {
        self.font(Font::Normal).text(text)
    }

    /// Monospace text.
    pub fn text_mono(self, text: String) -> (p: Page)
        requires
            self@.ops_len + 2 <= OPS_CAPACITY,
            self@.items.len() + 1 + text@.len() <= CONTENT_CAPACITY,
        ensures
            p@ == (PageV {
                items: self@.items + seq![Item::SetFont(Font::Mono)] + text@.map_values(
                    |c: char| chr_item(c),
                ),
                ops_len: self@.ops_len + 2,
                ..self@
            }),
    {
        self.font(Font::Mono).text(text)
    }

    /// Bold text.
    pub fn text_bold(self, text: String) -> (p: Page)
        requires
            self@.ops_len + 2 <= OPS_CAPACITY,
            self@.items.len() + 1 + text@.len() <= CONTENT_CAPACITY,
        ensures
            p@ == (PageV {
                items: self@.items + seq![Item::SetFont(Font::Bold)] + text@.map_values(
                    |c: char| chr_item(c),
                ),
                ops_len: self@.ops_len + 2,
                ..self@
            }),
    {
        self.font(Font::Bold).text(text)
    }

    /// Stores the bounds and recomputes the sub-page count from them;
    /// returns the bounds unchanged. Nothing else is cached.
    pub fn place(&mut self, bounds: Rect) -> (r: Rect)
        requires
            old(self)@.items.len() <= CONTENT_CAPACITY,
            bounds.wf(),
        ensures
            r == bounds,
            final(self)@ == spec_place(old(self)@, bounds),
            *final(self) == (Page {
                bounds: bounds,
                page_count: final(self).page_count,
                ..*old(self)
            }),
    {
        let items = flatten_ops(&self.ops);
        let w = bounds.width();
        let h = bounds.height();
        let n = count_pages(&items, self.style.font, w, h);
        self.bounds = bounds;
        self.page_count = n;
        bounds
    }

    /// Whether there is a sub-page before the current one.
    pub fn has_prev_page(&self) -> (r: bool)
        ensures
            r == (self@.current_page > 0),
    {
        self.current_page > 0
    }

    /// Whether there is a sub-page after the current one.
    pub fn has_next_page(&self) -> (r: bool)
        requires
            1 <= self@.page_count,
        ensures
            r == (self@.current_page + 1 < self@.page_count),
    {
        self.current_page < self.page_count - 1
    }

    /// Moves to the previous sub-page; the caller keeps the index in range.
    pub fn go_to_prev_page(&mut self)
        requires
            old(self)@.current_page >= 1,
        ensures
            final(self)@ == (PageV { current_page: old(self)@.current_page - 1, ..old(self)@ }),
    {
        self.current_page -= 1;
    }

    /// Moves to the next sub-page; the caller keeps the index in range.
    pub fn go_to_next_page(&mut self)
        requires
            old(self)@.current_page + 1 < old(self)@.page_count,
        ensures
            final(self)@ == (PageV { current_page: old(self)@.current_page + 1, ..old(self)@ }),
    {
        self.current_page += 1;
    }

    /// The sub-page currently shown.
    pub fn get_current_page(&self) -> (r: usize)
        ensures
            r as int == self@.current_page,
    {
        self.current_page
    }

    /// Sets the character offset the next rendering starts from.
    pub fn set_char_offset(&mut self, char_offset: usize)
        ensures
            final(self)@ == (PageV { char_offset: char_offset as int, ..old(self)@ }),
    {
        self.char_offset = char_offset;
    }

    /// The action table of this page.
    pub fn btn_actions(&self) -> (r: ButtonActions)
        ensures
            r == self@.btn_actions,
    {
        self.btn_actions
    }

    /// The page's title, if it has one.
    pub fn title(&self) -> (r: Option<String>)
        ensures
            opt_text_view(r) == self@.title,
    {
        match &self.title {
            Some(t) => Some(t.clone()),
            None => None,
        }
    }

    /// What the three buttons show for the current sub-page: pagination
    /// arrows where more sub-pages exist, the page's own buttons otherwise.
    pub fn btn_layout(&self) -> (r: ButtonLayout)
        requires
            1 <= self@.page_count,
            0 <= self@.current_page < self@.page_count,
        ensures
            r@ == spec_btn_layout(self@),
    {
        let has_prev = self.current_page > 0;
        let has_next = self.current_page < self.page_count - 1;
        let btn_left = if has_prev && !has_next {
            Some(crate::buttons::ButtonDetails::up_arrow_icon())
        } else if has_prev {
            Some(crate::buttons::ButtonDetails::up_arrow_icon_wide())
        } else {
            crate::buttons::duplicate_opt_details(&self.btn_layout.btn_left)
        };
        let (btn_middle, btn_right) = if has_next {
            (None, Some(crate::buttons::ButtonDetails::down_arrow_icon_wide()))
        } else {
            (
                crate::buttons::duplicate_opt_details(&self.btn_layout.btn_middle),
                crate::buttons::duplicate_opt_details(&self.btn_layout.btn_right),
            )
        };
        ButtonLayout::new(btn_left, btn_middle, btn_right)
    }

    /// One layout pass from the current character offset: what fits and
    /// what a sink would receive. Measuring and drawing share this pass, so
    /// the reported fit cannot depend on the sink.
    pub fn layout_content(&self) -> (r: (LayoutFit, Vec<char>))
        requires
            self@.items.len() <= CONTENT_CAPACITY,
            self@.bounds.wf(),
            self@.char_offset <= self@.items.len(),
        ensures
            layout_fits(
                self@.items,
                self@.char_offset,
                self@.font,
                self@.bounds.spec_width(),
                self@.bounds.spec_height(),
            ) <==> r.0 == LayoutFit::Fitting,
            usable(self@.bounds.spec_width(), self@.bounds.spec_height()) ==> r.1@
                == chars_between(
                self@.items,
                self@.char_offset,
                layout_stop(
                    self@.items,
                    self@.char_offset,
                    self@.font,
                    self@.bounds.spec_width(),
                    self@.bounds.spec_height(),
                ),
            ),
    {
        let items = flatten_ops(&self.ops);
        let w = self.bounds.width();
        let h = self.bounds.height();
        layout_pass(&items, self.char_offset, self.style.font, w, h)
    }

    /// Walks the stream to the start of `to_page` (clamped to the last
    /// sub-page) and leaves the character offset there.
    pub fn change_page(&mut self, to_page: usize)
        requires
            old(self)@.items.len() <= CONTENT_CAPACITY,
            old(self)@.bounds.wf(),
        ensures
            final(self)@ == (PageV {
                char_offset: spec_offset_of_page(
                    old(self)@.items,
                    clamped_page(
                        old(self)@.items,
                        to_page as int,
                        old(self)@.font,
                        old(self)@.bounds.spec_width(),
                        old(self)@.bounds.spec_height(),
                    ),
                    old(self)@.font,
                    old(self)@.bounds.spec_width(),
                    old(self)@.bounds.spec_height(),
                ),
                ..old(self)@
            }),
    {
        let items = flatten_ops(&self.ops);
        let w = self.bounds.width();
        let h = self.bounds.height();
        let off = offset_for_page(&items, to_page, self.style.font, w, h);
        self.char_offset = off;
    }

    /// Re-derives the cursor for the current sub-page and renders it: the
    /// returned characters are what a drawing sink would receive. Under
    /// unusable bounds nothing is drawn.
    pub fn paint(&mut self) -> (text: Vec<char>)
        requires
            old(self)@.items.len() <= CONTENT_CAPACITY,
            old(self)@.bounds.wf(),
        ensures
            final(self)@ == (PageV { char_offset: final(self)@.char_offset, ..old(self)@ }),
            final(self)@.char_offset == spec_offset_of_page(
                old(self)@.items,
                clamped_page(
                    old(self)@.items,
                    old(self)@.current_page,
                    old(self)@.font,
                    old(self)@.bounds.spec_width(),
                    old(self)@.bounds.spec_height(),
                ),
                old(self)@.font,
                old(self)@.bounds.spec_width(),
                old(self)@.bounds.spec_height(),
            ),
            usable(old(self)@.bounds.spec_width(), old(self)@.bounds.spec_height()) ==> text@
                == chars_between(
                old(self)@.items,
                final(self)@.char_offset,
                layout_stop(
                    old(self)@.items,
                    final(self)@.char_offset,
                    old(self)@.font,
                    old(self)@.bounds.spec_width(),
                    old(self)@.bounds.spec_height(),
                ),
            ),
            !usable(old(self)@.bounds.spec_width(), old(self)@.bounds.spec_height()) ==> text@
                == Seq::<char>::empty(),
    {
        let to_page = self.current_page;
        self.change_page(to_page);
        let items = flatten_ops(&self.ops);
        let w = self.bounds.width();
        let h = self.bounds.height();
        proof {
            crate::layout::lemma_offset_of_page_in_range(
                self@.items,
                clamped_page(self@.items, to_page as int, self@.font, w as int, h as int),
                self@.font,
                w as int,
                h as int,
            );
        }
        let (_fit, text) = layout_pass(&items, self.char_offset, self.style.font, w, h);
        text
    }
}

/// A source of pages: a pure, repeatable page construction per index.
/// `spec_page` is the page it promises for each index; `build_page` must
/// deliver exactly that page, freshly constructed, each time it is asked.
pub trait PageSource: Sized {
    /// How many pages the source can construct.
    spec fn spec_count(&self) -> int;

    /// The page promised for index `i`.
    spec fn spec_page(&self, i: int) -> PageV;

    /// Every promised page is fresh: capacities hold and its cursor sits at
    /// sub-page 0, offset 0.
    proof fn lemma_pages_wf(&self, i: int)
        requires
            0 <= i < self.spec_count(),
        ensures
            fresh_page(self.spec_page(i)),
    ;

    fn count(&self) -> (n: usize)
        ensures
            n as int == self.spec_count(),
    ;

    /// Constructs the page for index `i`.
    fn build_page(&self, i: usize) -> (p: Page)
        requires
            (i as int) < self.spec_count(),
        ensures
            p@ == self.spec_page(i as int),
    ;
}

/// Cumulative sub-page count of pages `[0, i)` of a source, placed against
/// the given bounds.
pub open spec fn spec_cum<F: PageSource>(f: F, bounds: Rect, i: int) -> int
    decreases i,
{
    if i <= 0 {
        0
    } else {
        spec_cum(f, bounds, i - 1) + page_sub_count(f.spec_page(i - 1), bounds)
    }
}

/// The scrollbar position of page `i` is the position of page `i - 1` plus
/// that page's own sub-page count.
pub proof fn lemma_scrollbar_index_step<F: PageSource>(f: F, bounds: Rect, i: int)
    requires
        1 <= i,
    ensures
        spec_cum(f, bounds, i) == spec_cum(f, bounds, i - 1) + page_sub_count(
            f.spec_page(i - 1),
            bounds,
        ),
{
}

/// Cumulative sub-page counts never decrease along the flow.
pub proof fn lemma_cum_monotone<F: PageSource>(f: F, bounds: Rect, i: int, j: int)
    requires
        0 <= i <= j,
    ensures
        spec_cum(f, bounds, i) <= spec_cum(f, bounds, j),
    decreases j - i,
{
    if i < j {
        lemma_cum_monotone(f, bounds, i, j - 1);
        lemma_page_count_pos(
            f.spec_page(j - 1).items,
            0,
            f.spec_page(j - 1).font,
            bounds.spec_width(),
            bounds.spec_height(),
        );
    }
}

/// A lazy flow: a page source and a fixed page count, owning no page.
pub struct FlowPages<F: PageSource> {
    pub get_page: F,
    pub page_count: usize,
}

impl<F: PageSource> FlowPages<F> {
    /// The stored count never exceeds what the source can construct.
    pub open spec fn wf(&self) -> bool {
        self.page_count as int <= self.get_page.spec_count()
    }

    pub fn new(get_page: F, page_count: usize) -> (r: FlowPages<F>)
        requires
            page_count as int <= get_page.spec_count(),
        ensures
            r == (FlowPages { get_page, page_count }),
            r.wf(),
    {
        FlowPages { get_page, page_count }
    }

    /// Constructs the page at `page_index` on demand.
    pub fn get(&self, page_index: usize) -> (p: Page)
        requires
            self.wf(),
            page_index < self.page_count,
        ensures
            p@ == self.get_page.spec_page(page_index as int),
            fresh_page(p@),
    {
        let p = self.get_page.build_page(page_index);
        proof {
            self.get_page.lemma_pages_wf(page_index as int);
        }
        p
    }

    /// Total number of logical pages.
    pub fn count(&self) -> (n: usize)
        ensures
            n == self.page_count,
    {
        self.page_count
    }

    /// The scrollbar position where page `page_index` begins: the sum of the
    /// sub-page counts of all pages before it, re-derived by constructing
    /// and placing each one.
    pub fn scrollbar_page_index(&self, bounds: Rect, page_index: usize) -> (r: usize)
        requires
            self.wf(),
            page_index <= self.page_count,
            bounds.wf(),
            spec_cum(self.get_page, bounds, page_index as int) <= usize::MAX,
        ensures
            r as int == spec_cum(self.get_page, bounds, page_index as int),
    {
        let mut page_count: usize = 0;
        let mut i: usize = 0;
        while i < page_index
            invariant
                self.wf(),
                i <= page_index <= self.page_count,
                bounds.wf(),
                page_count as int == spec_cum(self.get_page, bounds, i as int),
                spec_cum(self.get_page, bounds, page_index as int) <= usize::MAX,
            decreases page_index - i,
        {
            let mut current_page = self.get(i);
            current_page.place(bounds);
            proof {
                lemma_cum_monotone(self.get_page, bounds, i + 1, page_index as int);
                lemma_page_count_pos(
                    self.get_page.spec_page(i as int).items,
                    0,
                    self.get_page.spec_page(i as int).font,
                    bounds.spec_width(),
                    bounds.spec_height(),
                );
            }
            page_count += current_page.page_count;
            i += 1;
        }
        page_count
    }

    /// Total number of sub-pages in the whole flow, used to size the
    /// scrollbar.
    pub fn scrollbar_page_count(&self, bounds: Rect) -> (r: usize)
        requires
            self.wf(),
            bounds.wf(),
            spec_cum(self.get_page, bounds, self.page_count as int) <= usize::MAX,
        ensures
            r as int == spec_cum(self.get_page, bounds, self.page_count as int),
    {
        self.scrollbar_page_index(bounds, self.page_count)
    }
}

impl crate::component::ScrollableContent for Page {
    open spec fn spec_page_count(&self) -> int {
        self@.page_count
    }

    open spec fn spec_active_page(&self) -> int {
        self@.current_page
    }

    fn page_count(&self) -> (n: usize) {
        self.page_count
    }

    fn active_page(&self) -> (n: usize) {
        self.current_page
    }
}

impl crate::component::Component for Page {
    type Msg = ();

    open spec fn inv(&self) -> bool {
        caps_ok(self@)
    }

    open spec fn spec_placed(&self, bounds: Rect) -> Page {
        Page {
            bounds: bounds,
            page_count: page_sub_count(self.view(), bounds) as usize,
            ..*self
        }
    }

    fn place(&mut self, bounds: Rect) -> (r: Rect) {
        Page::place(self, bounds)
    }

    fn event(
        &mut self,
        ctx: &mut crate::component::EventCtx,
        event: crate::component::Event,
    ) -> (m: Option<()>) {
        None
    }
}

/// The recipe for one logical page: its chrome, font, text and optional
/// title.
pub struct PageTemplate {
    pub title: Option<String>,
    pub text: String,
    pub font: Font,
    pub btn_layout: ButtonLayout,
    pub btn_actions: ButtonActions,
}

impl PageTemplate {
    /// The page this template builds.
    pub open spec fn spec_built(&self) -> PageV {
        PageV {
            items: self.text@.map_values(|c: char| chr_item(c)),
            ops_len: 1,
            font: self.font,
            line_breaking: LineBreaking::BreakAtWhitespace,
            bounds: Rect::spec_zero(),
            btn_layout: self.btn_layout@,
            btn_actions: self.btn_actions,
            current_page: 0,
            page_count: 1,
            char_offset: 0,
            title: opt_text_view(self.title),
        }
    }

    /// The template's text fits a page's content capacity.
    pub open spec fn fits(&self) -> bool {
        self.text@.len() <= CONTENT_CAPACITY
    }
}

/// A page source over a list of templates: page `i` is built afresh from
/// template `i` on every request. A source holding an oversized template
/// offers no pages at all.
pub struct TemplatePages {
    pub templates: Vec<PageTemplate>,
}

impl TemplatePages {
    pub open spec fn templates_fit(&self) -> bool {
        forall|i: int| 0 <= i < self.templates@.len() ==> #[trigger] self.templates@[i].fits()
    }

    pub fn new(templates: Vec<PageTemplate>) -> (r: TemplatePages)
        ensures
            r.templates@ == templates@,
    {
        TemplatePages { templates }
    }
}

impl PageSource for TemplatePages {
    open spec fn spec_count(&self) -> int {
        if self.templates_fit() {
            self.templates@.len() as int
        } else {
            0
        }
    }

    open spec fn spec_page(&self, i: int) -> PageV {
        self.templates@[i].spec_built()
    }

    proof fn lemma_pages_wf(&self, i: int) {
        assert(self.templates_fit());
        assert(self.templates@[i].fits());
    }

    fn count(&self) -> (n: usize) {
        let mut i: usize = 0;
        let n = self.templates.len();
        while i < n
            invariant
                i <= n,
                n == self.templates@.len(),
                forall|j: int| 0 <= j < i ==> #[trigger] self.templates@[j].fits(),
            decreases n - i,
        {
            let t = &self.templates[i];
            if t.text.as_str().unicode_len() > CONTENT_CAPACITY {
                proof {
                    assert(!self.templates@[i as int].fits());
                    assert(!self.templates_fit());
                }
                return 0;
            }
            i += 1;
        }
        proof {
            assert(self.templates_fit());
        }
        n
    }

    fn build_page(&self, i: usize) -> (p: Page) {
        proof {
            assert(self.templates_fit());
            assert(self.templates@[i as int].fits());
        }
        let t = &self.templates[i];
        let mut page = Page::new(t.btn_layout.duplicate(), t.btn_actions, t.font);
        page = page.text(t.text.clone());
        match &t.title {
            Some(title) => page.with_title(title.clone()),
            None => page,
        }
    }
}

} // verus!
