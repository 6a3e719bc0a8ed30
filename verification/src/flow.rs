//! The flow: a navigable sequence of lazily built pages.
//!
//! A `Flow` owns the current `Page`, its index into a `FlowPages`, an
//! optional common title, the scrollbar and the button visuals. A button
//! press is first offered to the current page (sub-page navigation); only
//! when the page cannot consume it is the press resolved through the page's
//! action table, into either a page change or a terminal message. Exactly
//! one terminal message is produced per Confirm/Cancel/Info trigger, and
//! such a trigger never moves the page counter.
//!
//! Moving to another logical page always lands on its first sub-page: pages
//! are re-derived freshly from the factory, which hands them out at
//! sub-page 0.

use vstd::prelude::*;

use crate::buttons::{ButtonAction, ButtonActions, ButtonLayout, ButtonPos};
use crate::component::{Event, EventCtx, Pad};
use crate::flow_pages::{
    caps_ok, lemma_cum_monotone, lemma_scrollbar_index_step, page_sub_count, spec_btn_layout,
    spec_cum, spec_place, FlowPages, Page, PageSource, PageV,
};
use crate::geometry::Rect;
use crate::layout::{
    chars_between, clamped_page, layout_stop, lemma_page_count_pos, spec_offset_of_page, usable,
};
use crate::scrollbar::{ScrollBar, SCROLLBAR_SPACE};
use crate::title::{Title, TitleV, HEADER_HEIGHT};

verus! {

/// Height of the button row at the bottom of the display.
pub const BUTTON_HEIGHT: i16 = 12;

/// What a flow reports outward. Everything else is handled internally.
#[derive(Clone, Copy, PartialEq, Eq, Structural, Debug)]
pub enum FlowMsg {
    Confirmed,
    ConfirmedIndex(usize),
    Cancelled,
    Info,
}

/// View of an optional title.
pub open spec fn opt_title_view(o: Option<Title>) -> Option<TitleV> {
    match o {
        Some(t) => Some(t@),
        None => None,
    }
}

/// The common title after a page change: if the flow shows a title and the
/// new page brings one, the page's title is adopted and placed in the title
/// area; otherwise the title stays as it was.
pub open spec fn spec_title_after(
    old_title: Option<TitleV>,
    page_title: Option<Seq<char>>,
    area: Rect,
) -> Option<TitleV> {
    match (old_title, page_title) {
        (Some(_), Some(t)) => Some(TitleV { text: t, centered: false, area }),
        _ => old_title,
    }
}

/// The pages' content views agree: same content, style, chrome and title.
/// Cursor fields and bounds are free.
pub open spec fn content_matches(a: PageV, b: PageV) -> bool {
    &&& a.items == b.items
    &&& a.ops_len == b.ops_len
    &&& a.font == b.font
    &&& a.line_breaking == b.line_breaking
    &&& a.btn_layout == b.btn_layout
    &&& a.btn_actions == b.btn_actions
    &&& a.title == b.title
}

/// Whether some button is mapped to the given action on this page.
pub open spec fn action_present(a: ButtonActions, act: ButtonAction) -> bool {
    a.left == Some(act) || a.middle == Some(act) || a.right == Some(act)
}

/// The structural guarantee the page author gives: backward navigation is
/// only offered when a page exists before, forward only when one exists
/// after. First/Last need no guard, the flow always has a page.
pub open spec fn actions_valid(a: ButtonActions, pc: int, count: int) -> bool {
    &&& (action_present(a, ButtonAction::PrevPage) ==> pc >= 1)
    &&& (action_present(a, ButtonAction::NextPage) ==> pc + 1 < count)
}

/// Whether the current page consumes the press itself, by moving between
/// its own sub-pages.
pub open spec fn consumed_by_page(cp: PageV, pos: ButtonPos) -> bool {
    ||| (pos == ButtonPos::Left && cp.current_page > 0)
    ||| (pos == ButtonPos::Right && cp.current_page + 1 < cp.page_count)
}

/// The live navigation state of one screen sequence.
pub struct Flow<F: PageSource> {
    pub pages: FlowPages<F>,
    pub current_page: Page,
    pub title: Option<Title>,
    pub scrollbar: ScrollBar,
    pub content_area: Rect,
    pub title_area: Rect,
    pub pad: Pad,
    pub buttons: ButtonLayout,
    pub page_counter: usize,
    pub return_confirmed_index: bool,
}

impl<F: PageSource> Flow<F> {
    /// The flow's invariant: the counter is in range and the current page is
    /// the factory's page for that index, placed against the content area.
    pub open spec fn wf(self) -> bool {
        &&& self.pages.wf()
        &&& 1 <= self.pages.page_count
        &&& (self.page_counter as int) < self.pages.page_count as int
        &&& caps_ok(self.current_page@)
        &&& content_matches(
            self.current_page@,
            self.pages.get_page.spec_page(self.page_counter as int),
        )
        &&& self.current_page@.bounds == self.content_area
        &&& self.current_page@.page_count == page_sub_count(self.current_page@, self.content_area)
        &&& 0 <= self.current_page@.current_page < self.current_page@.page_count
        &&& self.content_area.wf()
    }

    /// Total sub-pages of the whole flow against the current content area.
    pub open spec fn total_sub_pages(self) -> int {
        spec_cum(self.pages.get_page, self.content_area, self.pages.page_count as int)
    }

    /// Sub-pages accumulated before the current logical page: the scrollbar
    /// position where this page begins.
    pub open spec fn scroll_base(self) -> int {
        spec_cum(self.pages.get_page, self.content_area, self.page_counter as int)
    }

    /// What moving to logical page `j` leaves behind: the counter at `j`,
    /// the freshly rebuilt page placed against the content area (hence at
    /// its first sub-page), the adopted title if any, the scrollbar at the
    /// page's absolute position, buttons re-derived, and a full repaint
    /// pending.
    pub open spec fn nav_post(pre: Flow<F>, post: Flow<F>, j: int) -> bool {
        let fresh = pre.pages.get_page.spec_page(j);
        &&& post.page_counter as int == j
        &&& post.current_page@ == spec_place(fresh, pre.content_area)
        &&& opt_title_view(post.title) == spec_title_after(
            opt_title_view(pre.title),
            fresh.title,
            pre.title_area,
        )
        &&& post.scrollbar.active_page as int == spec_cum(
            pre.pages.get_page,
            pre.content_area,
            j,
        )
        &&& post.scrollbar.page_count == pre.scrollbar.page_count
        &&& post.scrollbar.area == pre.scrollbar.area
        &&& post.buttons@ == spec_btn_layout(post.current_page@)
        &&& post.pad == (Pad { clear_pending: true, ..pre.pad })
        &&& post.pages == pre.pages
        &&& post.content_area == pre.content_area
        &&& post.title_area == pre.title_area
        &&& post.return_confirmed_index == pre.return_confirmed_index
    }

    /// What moving to sub-page `new_sub` of the current page leaves behind:
    /// the counter unchanged, only the page's cursor moved, the scrollbar at
    /// the page's base plus the new sub-page, buttons re-derived, repaint
    /// pending.
    pub open spec fn sub_nav_post(pre: Flow<F>, post: Flow<F>, new_sub: int) -> bool {
        &&& post.page_counter == pre.page_counter
        &&& post.current_page@ == (PageV { current_page: new_sub, ..pre.current_page@ })
        &&& post.title == pre.title
        &&& post.scrollbar.active_page as int == pre.scroll_base() + new_sub
        &&& post.scrollbar.page_count == pre.scrollbar.page_count
        &&& post.scrollbar.area == pre.scrollbar.area
        &&& post.buttons@ == spec_btn_layout(post.current_page@)
        &&& post.pad == (Pad { clear_pending: true, ..pre.pad })
        &&& post.pages == pre.pages
        &&& post.content_area == pre.content_area
        &&& post.title_area == pre.title_area
        &&& post.return_confirmed_index == pre.return_confirmed_index
    }

    /// A new flow over the given pages, standing at page 0, sub-page 0,
    /// nothing placed yet.
    pub fn new(pages: FlowPages<F>) -> (r: Flow<F>)
        requires
            pages.wf(),
            1 <= pages.page_count,
        ensures
            r.wf(),
            r.pages == pages,
            r.current_page@ == pages.get_page.spec_page(0),
            opt_title_view(r.title) == None::<TitleV>,
            r.scrollbar == (ScrollBar { page_count: 0, active_page: 0, area: Rect::spec_zero() }),
            r.content_area == Rect::spec_zero(),
            r.title_area == Rect::spec_zero(),
            r.page_counter == 0,
            !r.return_confirmed_index,
    {
        let current_page = pages.get(0);
        let r = Flow {
            pages,
            current_page,
            title: None,
            scrollbar: ScrollBar::to_be_filled_later(),
            content_area: Rect::zero(),
            title_area: Rect::zero(),
            pad: Pad::new(),
            buttons: ButtonLayout::empty(),
            page_counter: 0,
            return_confirmed_index: false,
        };
        proof {
            assert(page_sub_count(r.current_page@, Rect::spec_zero()) == 1);
        }
        r
    }

    /// Adds a common title shown above every page; content is offset below
    /// it at placement.
    pub fn with_common_title(self, title: String) -> (r: Flow<F>)
        ensures
            r == (Flow {
                title: r.title,
                ..self
            }),
            opt_title_view(r.title) == Some(
                TitleV { text: title@, centered: false, area: Rect::spec_zero() },
            ),
            self.wf() ==> r.wf(),
    {
        Flow { title: Some(Title::new(title)), ..self }
    }

    /// Makes Confirm report the confirmed page's index instead of a plain
    /// Confirmed.
    pub fn with_return_confirmed_index(self) -> (r: Flow<F>)
        ensures
            r == (Flow { return_confirmed_index: true, ..self }),
            self.wf() ==> r.wf(),
    {
        Flow { return_confirmed_index: true, ..self }
    }

    /// Lays the flow out: the button row is split off the bottom, a title
    /// band off the top when a title is shown, the scrollbar is rebuilt from
    /// the total sub-page count, and the current page is placed into the
    /// content area, which finally determines its button layout.
    pub fn place(&mut self, bounds: Rect) -> (r: Rect)
        requires
            old(self).wf(),
            old(self).current_page@.current_page == 0,
            bounds.wf(),
            spec_cum(
                old(self).pages.get_page,
                Flow::<F>::spec_content_area(old(self).title is Some, bounds),
                old(self).pages.page_count as int,
            ) <= usize::MAX,
        ensures
            r == bounds,
            final(self).wf(),
            final(self).pages == old(self).pages,
            final(self).content_area == Flow::<F>::spec_content_area(
                old(self).title is Some,
                bounds,
            ),
            final(self).current_page@ == spec_place(
                old(self).current_page@,
                final(self).content_area,
            ),
            final(self).scrollbar.page_count as int == final(self).total_sub_pages(),
            final(self).scrollbar.active_page == 0,
            final(self).buttons@ == spec_btn_layout(final(self).current_page@),
            final(self).page_counter == old(self).page_counter,
            final(self).return_confirmed_index == old(self).return_confirmed_index,
    {
        // The button row itself is drawn by the hardware button controller.
        let (title_content_area, _button_area) = bounds.split_bottom(BUTTON_HEIGHT);
        let has_title = self.title.is_some();
        let (title_area, content_area) = if has_title {
            title_content_area.split_top(HEADER_HEIGHT)
        } else {
            (Rect::zero(), title_content_area)
        };
        self.content_area = content_area;

        let complete_page_count = self.pages.scrollbar_page_count(content_area);
        self.scrollbar = ScrollBar::new(complete_page_count);

        if has_title {
            let sb_width = self.scrollbar.overall_width();
            let (title_only_area, scrollbar_area) = title_area.split_right(
                sb_width + SCROLLBAR_SPACE,
            );
            match &mut self.title {
                Some(t) => {
                    t.place(title_only_area);
                },
                None => {},
            }
            self.title_area = title_only_area;
            self.scrollbar.place(scrollbar_area);
        }

        self.current_page.place(content_area);
        proof {
            lemma_page_count_pos(
                self.current_page@.items,
                0,
                self.current_page@.font,
                content_area.spec_width(),
                content_area.spec_height(),
            );
        }
        self.buttons = self.current_page.btn_layout();
        self.pad.place(title_content_area);
        bounds
    }

    /// The content area that placement against `bounds` will use.
    pub open spec fn spec_content_area(has_title: bool, bounds: Rect) -> Rect {
        let title_content = bounds.spec_split_bottom(BUTTON_HEIGHT as int).0;
        if has_title {
            title_content.spec_split_top(HEADER_HEIGHT as int).1
        } else {
            title_content
        }
    }

    /// The current page consumed a press by moving its own sub-page cursor:
    /// re-sync the scrollbar to the absolute position, re-place the page,
    /// refresh the buttons, and ask for a full repaint.
    fn update_after_inner_change(&mut self, ctx: &mut EventCtx)
        requires
            old(self).wf(),
            spec_cum(
                old(self).pages.get_page,
                old(self).content_area,
                old(self).pages.page_count as int,
            ) <= usize::MAX,
        ensures
            final(self).wf(),
            Flow::sub_nav_post(*old(self), *final(self), old(self).current_page@.current_page),
            *final(ctx) == (EventCtx { paint_requested: true, ..*old(ctx) }),
    {
        let ghost pre = *old(self);
        let inner_page = self.current_page.get_current_page();
        proof {
            lemma_cum_monotone(
                self.pages.get_page,
                self.content_area,
                self.page_counter as int,
                self.pages.page_count as int,
            );
            lemma_cum_monotone(
                self.pages.get_page,
                self.content_area,
                self.page_counter + 1,
                self.pages.page_count as int,
            );
            lemma_scrollbar_index_step(
                self.pages.get_page,
                self.content_area,
                self.page_counter + 1,
            );
            assert(page_sub_count(
                self.pages.get_page.spec_page(self.page_counter as int),
                self.content_area,
            ) == page_sub_count(self.current_page@, self.content_area));
        }
        let base = self.pages.scrollbar_page_index(self.content_area, self.page_counter);
        self.scrollbar.change_page(base + inner_page);
        self.current_page.place(self.content_area);
        proof {
            assert(self.current_page@ == pre.current_page@);
        }
        self.buttons = self.current_page.btn_layout();
        self.pad.clear();
        ctx.request_paint();
    }

    /// Moves the flow to logical page `j`: re-derives the page from the
    /// factory, adopts its title if the flow shows titles, moves the
    /// scrollbar to the page's absolute position, places the page and
    /// refreshes buttons, then asks for a full repaint.
    fn navigate_to(&mut self, ctx: &mut EventCtx, j: usize)
        requires
            old(self).wf(),
            (j as int) < old(self).pages.page_count as int,
            spec_cum(
                old(self).pages.get_page,
                old(self).content_area,
                old(self).pages.page_count as int,
            ) <= usize::MAX,
        ensures
            final(self).wf(),
            Flow::nav_post(*old(self), *final(self), j as int),
            *final(ctx) == (EventCtx { paint_requested: true, ..*old(ctx) }),
    {
        self.page_counter = j;
        self.current_page = self.pages.get(j);
        if self.title.is_some() {
            let page_title = self.current_page.title();
            if let Some(t) = page_title {
                let mut new_title = Title::new(t);
                new_title.place(self.title_area);
                self.title = Some(new_title);
            }
        }
        proof {
            lemma_cum_monotone(
                self.pages.get_page,
                self.content_area,
                j as int,
                self.pages.page_count as int,
            );
        }
        let scrollbar_active_index = self.pages.scrollbar_page_index(self.content_area, j);
        self.scrollbar.change_page(scrollbar_active_index);
        self.current_page.place(self.content_area);
        proof {
            lemma_page_count_pos(
                self.current_page@.items,
                0,
                self.current_page@.font,
                self.content_area.spec_width(),
                self.content_area.spec_height(),
            );
        }
        self.buttons = self.current_page.btn_layout();
        self.pad.clear();
        ctx.request_paint();
    }

    /// Resolves one button press. The current page consumes Left/Right while
    /// it has sub-pages in that direction; otherwise the page's action table
    /// decides: navigation actions move the page counter, Cancel, Confirm
    /// and Info produce exactly the corresponding terminal message without
    /// touching any navigation state, and everything else is ignored.
    pub fn event(&mut self, ctx: &mut EventCtx, event: Event) -> (r: Option<FlowMsg>)
        requires
            old(self).wf(),
            spec_cum(
                old(self).pages.get_page,
                old(self).content_area,
                old(self).pages.page_count as int,
            ) <= usize::MAX,
            actions_valid(
                old(self).current_page@.btn_actions,
                old(self).page_counter as int,
                old(self).pages.page_count as int,
            ),
        ensures
            final(self).wf(),
            final(ctx).page_count matches Some(n) && n as int == old(self).total_sub_pages(),
            ({
                let pre = *old(self);
                let post = *final(self);
                let pos = crate::component::event_pos(event);
                let cp = pre.current_page@;
                let act = cp.btn_actions.spec_get(pos);
                &&& (pos == ButtonPos::Left && cp.current_page > 0) ==> (r == None::<FlowMsg>
                    && Flow::sub_nav_post(pre, post, cp.current_page - 1)
                    && final(ctx).paint_requested)
                &&& (pos == ButtonPos::Right && cp.current_page + 1 < cp.page_count) ==> (r
                    == None::<FlowMsg> && Flow::sub_nav_post(pre, post, cp.current_page + 1)
                    && final(ctx).paint_requested)
                &&& !consumed_by_page(cp, pos) ==> {
                    &&& act == Some(ButtonAction::PrevPage) ==> (r == None::<FlowMsg>
                        && Flow::nav_post(pre, post, pre.page_counter - 1)
                        && final(ctx).paint_requested)
                    &&& act == Some(ButtonAction::NextPage) ==> (r == None::<FlowMsg>
                        && Flow::nav_post(pre, post, pre.page_counter + 1)
                        && final(ctx).paint_requested)
                    &&& act == Some(ButtonAction::FirstPage) ==> (r == None::<FlowMsg>
                        && Flow::nav_post(pre, post, 0) && final(ctx).paint_requested)
                    &&& act == Some(ButtonAction::LastPage) ==> (r == None::<FlowMsg>
                        && Flow::nav_post(pre, post, pre.pages.page_count - 1)
                        && final(ctx).paint_requested)
                    &&& act == Some(ButtonAction::Cancel) ==> (r == Some(FlowMsg::Cancelled)
                        && post == pre && final(ctx).paint_requested == old(ctx).paint_requested)
                    &&& act == Some(ButtonAction::Confirm) ==> (r == Some(
                        if pre.return_confirmed_index {
                            FlowMsg::ConfirmedIndex(pre.page_counter)
                        } else {
                            FlowMsg::Confirmed
                        },
                    ) && post == pre && final(ctx).paint_requested == old(ctx).paint_requested)
                    &&& act == Some(ButtonAction::Info) ==> (r == Some(FlowMsg::Info) && post
                        == pre && final(ctx).paint_requested == old(ctx).paint_requested)
                    &&& (act == None::<ButtonAction> || act == Some(ButtonAction::Select) || act
                        == Some(ButtonAction::Action)) ==> (r == None::<FlowMsg> && post == pre
                        && final(ctx).paint_requested == old(ctx).paint_requested)
                }
            }),
    {
        let total = self.pages.scrollbar_page_count(self.content_area);
        ctx.set_page_count(total);

        let pos = match event {
            Event::Button(p) => p,
        };

        if matches!(pos, ButtonPos::Left) && self.current_page.has_prev_page() {
            self.current_page.go_to_prev_page();
            self.update_after_inner_change(ctx);
            return None;
        }
        if matches!(pos, ButtonPos::Right) && self.current_page.has_next_page() {
            self.current_page.go_to_next_page();
            self.update_after_inner_change(ctx);
            return None;
        }

        let actions = self.current_page.btn_actions();
        let action = actions.get_action(pos);
        match action {
            Some(ButtonAction::PrevPage) => {
                let j = self.page_counter - 1;
                self.navigate_to(ctx, j);
                None
            },
            Some(ButtonAction::NextPage) => {
                let j = self.page_counter + 1;
                self.navigate_to(ctx, j);
                None
            },
            Some(ButtonAction::FirstPage) => {
                self.navigate_to(ctx, 0);
                None
            },
            Some(ButtonAction::LastPage) => {
                let j = self.pages.count() - 1;
                self.navigate_to(ctx, j);
                None
            },
            Some(ButtonAction::Cancel) => Some(FlowMsg::Cancelled),
            Some(ButtonAction::Confirm) => {
                if self.return_confirmed_index {
                    Some(FlowMsg::ConfirmedIndex(self.page_counter))
                } else {
                    Some(FlowMsg::Confirmed)
                }
            },
            Some(ButtonAction::Info) => Some(FlowMsg::Info),
            Some(ButtonAction::Select) => None,
            Some(ButtonAction::Action) => None,
            None => None,
        }
    }

    /// Renders the current sub-page: re-derives its cursor from the stored
    /// sub-page index and returns the characters a drawing sink would
    /// receive, clearing the pending repaint. Nothing but the page's
    /// character offset and the pad changes.
    pub fn paint(&mut self) -> (text: Vec<char>)
        requires
            old(self).wf(),
        ensures
            final(self).wf(),
            ({
                let cp = old(self).current_page@;
                let w = cp.bounds.spec_width();
                let h = cp.bounds.spec_height();
                let off = spec_offset_of_page(
                    cp.items,
                    clamped_page(cp.items, cp.current_page, cp.font, w, h),
                    cp.font,
                    w,
                    h,
                );
                &&& final(self).current_page@ == (PageV { char_offset: off, ..cp })
                &&& (usable(w, h) ==> text@ == chars_between(
                    cp.items,
                    off,
                    layout_stop(cp.items, off, cp.font, w, h),
                ))
                &&& (!usable(w, h) ==> text@ == Seq::<char>::empty())
            }),
            final(self).pad == (Pad { clear_pending: false, ..old(self).pad }),
            final(self).pages == old(self).pages,
            final(self).title == old(self).title,
            final(self).scrollbar == old(self).scrollbar,
            final(self).content_area == old(self).content_area,
            final(self).title_area == old(self).title_area,
            final(self).buttons == old(self).buttons,
            final(self).page_counter == old(self).page_counter,
            final(self).return_confirmed_index == old(self).return_confirmed_index,
    {
        self.pad.mark_painted();
        self.current_page.paint()
    }
}

} // verus!
