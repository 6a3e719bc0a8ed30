//! Frames: a title, and optionally a scrollbar, around arbitrary content.

use vstd::prelude::*;

use crate::component::{Component, Event, EventCtx, ScrollableContent};
use crate::geometry::Rect;
use crate::scrollbar::{ScrollBar, SCROLLBAR_SPACE};
use crate::title::{Title, TitleV, HEADER_HEIGHT};

verus! {

/// Vertical gap between the title line and the content below it.
pub const TITLE_SPACE: i16 = 2;

/// A component with a title line above it.
pub struct Frame<T: Component> {
    pub title: Title,
    pub content: T,
}

impl<T: Component> Frame<T> {
    pub fn new(title: String, content: T) -> (r: Frame<T>)
        ensures
            r.title@ == (TitleV { text: title@, centered: false, area: Rect::spec_zero() }),
            r.content == content,
    {
        Frame { title: Title::new(title), content }
    }

    /// Centers the title instead of left-aligning it.
    pub fn with_title_centered(self) -> (r: Frame<T>)
        ensures
            r.title@ == (TitleV { centered: true, ..self.title@ }),
            r.content == self.content,
    {
        Frame { title: self.title.with_centered(), content: self.content }
    }

    pub fn inner(&self) -> (r: &T)
        ensures
            *r == self.content,
    {
        &self.content
    }

    pub fn inner_mut(&mut self) -> (r: &mut T)
        ensures
            *r == old(self).content,
            final(self).content == *final(r),
            final(self).title == old(self).title,
    {
        &mut self.content
    }

    /// Replaces the title text and asks for a repaint.
    pub fn update_title(&mut self, ctx: &mut EventCtx, new_title: String)
        ensures
            final(self).title@ == (TitleV { text: new_title@, ..old(self).title@ }),
            final(self).content == old(self).content,
            *final(ctx) == (EventCtx { paint_requested: true, ..*old(ctx) }),
    {
        self.title.set_text(new_title);
        ctx.request_paint();
    }

    /// Mutable access to the content for an in-place update; asks for a
    /// repaint so the change becomes visible.
    pub fn update_content(&mut self, ctx: &mut EventCtx) -> (r: &mut T)
        ensures
            *r == old(self).content,
            final(self).content == *final(r),
            final(self).title == old(self).title,
            *final(ctx) == (EventCtx { paint_requested: true, ..*old(ctx) }),
    {
        ctx.request_paint();
        &mut self.content
    }

    /// Splits a title band off the top, with a small gap below it, and
    /// places the content underneath.
    pub fn place(&mut self, bounds: Rect) -> (r: Rect)
        requires
            old(self).content.inv(),
            bounds.wf(),
        ensures
            r == bounds,
            final(self).content.inv(),
            final(self).content == old(self).content.spec_placed(
                bounds.spec_split_top(HEADER_HEIGHT as int).1.spec_split_top(
                    TITLE_SPACE as int,
                ).1,
            ),
            final(self).title@ == (TitleV {
                area: bounds.spec_split_top(HEADER_HEIGHT as int).0,
                ..old(self).title@
            }),
    {
        let (title_area, content_area) = bounds.split_top(HEADER_HEIGHT);
        let (_gap, content_area) = content_area.split_top(TITLE_SPACE);
        self.title.place(title_area);
        self.content.place(content_area);
        bounds
    }

    /// Hands the event to the content; the title ignores events.
    pub fn event(&mut self, ctx: &mut EventCtx, event: Event) -> (m: Option<T::Msg>)
        requires
            old(self).content.inv(),
        ensures
            final(self).content.inv(),
            final(self).title == old(self).title,
    {
        self.content.event(ctx, event)
    }
}

/// A component with an optional title and a scrollbar kept in step with the
/// content's own sub-page position.
pub struct ScrollableFrame<T: Component + ScrollableContent> {
    pub title: Option<Title>,
    pub scrollbar: ScrollBar,
    pub content: T,
}

impl<T: Component + ScrollableContent> ScrollableFrame<T> {
    pub fn new(content: T) -> (r: ScrollableFrame<T>)
        ensures
            r.title is None,
            r.scrollbar == (ScrollBar { page_count: 0, active_page: 0, area: Rect::spec_zero() }),
            r.content == content,
    {
        ScrollableFrame { title: None, scrollbar: ScrollBar::to_be_filled_later(), content }
    }

    pub fn inner(&self) -> (r: &T)
        ensures
            *r == self.content,
    {
        &self.content
    }

    pub fn with_title(self, title: String) -> (r: ScrollableFrame<T>)
        ensures
            r.title matches Some(t) && t@ == (TitleV {
                text: title@,
                centered: false,
                area: Rect::spec_zero(),
            }),
            r.scrollbar == self.scrollbar,
            r.content == self.content,
    {
        ScrollableFrame { title: Some(Title::new(title)), ..self }
    }

    /// Lays out title, scrollbar and content. Space for the scrollbar is
    /// only reserved when the content spans more than one sub-page: with a
    /// single page the content keeps the full bounds (and a title the full
    /// header band); otherwise the scrollbar gets a strip on top, or right
    /// of the title. The scrollbar's page count always follows the
    /// content's.
    pub fn place(&mut self, bounds: Rect) -> (r: Rect)
        requires
            old(self).content.inv(),
            bounds.wf(),
        ensures
            r == bounds,
            final(self).content.inv(),
            final(self).scrollbar.page_count as int == final(self).content.spec_page_count(),
            final(self).scrollbar.active_page == old(self).scrollbar.active_page,
            old(self).title is None ==> ({
                let measured = old(self).content.spec_placed(bounds);
                let strip = bounds.spec_split_top((crate::scrollbar::DOT_WIDTH + TITLE_SPACE) as int);
                &&& final(self).title is None
                &&& (measured.spec_page_count() == 1 ==> final(self).content
                    == measured.spec_placed(bounds) && final(self).scrollbar.area
                    == Rect::spec_zero())
                &&& (measured.spec_page_count() != 1 ==> final(self).content
                    == measured.spec_placed(strip.1) && final(self).scrollbar.area == strip.0)
            }),
            old(self).title matches Some(t0) ==> ({
                let band = bounds.spec_split_top(HEADER_HEIGHT as int).0;
                let content_area = bounds.spec_split_top(HEADER_HEIGHT as int).1.spec_split_top(
                    TITLE_SPACE as int,
                ).1;
                let placed = old(self).content.spec_placed(content_area);
                let sb_split = band.spec_split_right(
                    final(self).scrollbar.spec_dots() * crate::scrollbar::DOT_WIDTH
                        + SCROLLBAR_SPACE as int,
                );
                &&& final(self).content == placed
                &&& (placed.spec_page_count() == 1 ==> final(self).scrollbar.area
                    == Rect::spec_zero() && final(self).title == Some(
                    (Title { area: band, ..t0 }),
                ))
                &&& (placed.spec_page_count() != 1 ==> final(self).scrollbar.area == sb_split.1
                    && final(self).title == Some((Title { area: sb_split.0, ..t0 })))
            }),
    {
        let has_title = self.title.is_some();
        if !has_title {
            // Measure against the full bounds first: when the content fits
            // on one page there is no need to give the scrollbar any room.
            self.content.place(bounds);
            let (content_area, scrollbar_area) = if self.content.page_count() == 1 {
                (bounds, Rect::zero())
            } else {
                let (scrollbar_area, content_area) = bounds.split_top(
                    crate::scrollbar::DOT_WIDTH + TITLE_SPACE,
                );
                (content_area, scrollbar_area)
            };
            self.content.place(content_area);
            let n = self.content.page_count();
            self.scrollbar.set_page_count(n);
            self.scrollbar.place(scrollbar_area);
        } else {
            let (title_and_scrollbar_area, rest) = bounds.split_top(HEADER_HEIGHT);
            let (_gap, content_area) = rest.split_top(TITLE_SPACE);
            self.content.place(content_area);
            let n = self.content.page_count();
            self.scrollbar.set_page_count(n);
            // With a single page the title keeps the whole band.
            let (title_area, scrollbar_area) = if n == 1 {
                (title_and_scrollbar_area, Rect::zero())
            } else {
                let sb_width = self.scrollbar.overall_width();
                title_and_scrollbar_area.split_right(sb_width + SCROLLBAR_SPACE)
            };
            self.scrollbar.place(scrollbar_area);
            match &mut self.title {
                Some(t) => {
                    t.place(title_area);
                },
                None => {},
            }
        }
        bounds
    }

    /// Hands the event to the content, then pulls the scrollbar to the
    /// content's active sub-page and asks for a full repaint.
    pub fn event(&mut self, ctx: &mut EventCtx, event: Event) -> (m: Option<T::Msg>)
        requires
            old(self).content.inv(),
        ensures
            final(self).content.inv(),
            final(self).scrollbar.active_page as int == final(self).content.spec_active_page(),
            final(self).scrollbar.page_count == old(self).scrollbar.page_count,
            final(ctx).paint_requested,
    {
        let msg = self.content.event(ctx, event);
        let active = self.content.active_page();
        self.scrollbar.set_active_page(active);
        ctx.request_paint();
        msg
    }
}

} // verus!
