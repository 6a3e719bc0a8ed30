//! The scrollbar: a row of dots showing the absolute sub-page position
//! across a whole flow.

use vstd::prelude::*;

use crate::geometry::Rect;

verus! {

/// Horizontal gap kept between a title and the scrollbar.
pub const SCROLLBAR_SPACE: i16 = 2;

/// Width of one scrollbar dot including its spacing.
pub const DOT_WIDTH: i16 = 4;

/// At most this many dots are drawn; longer flows reuse the outer dots.
pub const MAX_DOTS: i16 = 6;

/// The scrollbar state: total positions, the active one, and its area.
#[derive(Clone, Copy, PartialEq, Eq, Structural, Debug)]
pub struct ScrollBar {
    pub page_count: usize,
    pub active_page: usize,
    pub area: Rect,
}

impl ScrollBar {
    /// A scrollbar whose page count is not known yet.
    pub fn to_be_filled_later() -> (r: ScrollBar)
        ensures
            r == (ScrollBar { page_count: 0, active_page: 0, area: Rect::spec_zero() }),
    {
        ScrollBar { page_count: 0, active_page: 0, area: Rect::zero() }
    }

    pub fn new(page_count: usize) -> (r: ScrollBar)
        ensures
            r == (ScrollBar { page_count, active_page: 0, area: Rect::spec_zero() }),
    {
        ScrollBar { page_count, active_page: 0, area: Rect::zero() }
    }

    pub fn set_page_count(&mut self, page_count: usize)
        ensures
            *final(self) == (ScrollBar { page_count, ..*old(self) }),
    {
        self.page_count = page_count;
    }

    pub fn set_active_page(&mut self, active_page: usize)
        ensures
            *final(self) == (ScrollBar { active_page, ..*old(self) }),
    {
        self.active_page = active_page;
    }

    /// Moves the active dot to the given absolute position.
    pub fn change_page(&mut self, active_page: usize)
        ensures
            *final(self) == (ScrollBar { active_page, ..*old(self) }),
    {
        self.active_page = active_page;
    }

    /// How many dots are drawn: one per position, capped.
    pub open spec fn spec_dots(self) -> int {
        if self.page_count as int > MAX_DOTS {
            MAX_DOTS as int
        } else {
            self.page_count as int
        }
    }

    /// Overall width of the drawn dots in pixels.
    pub fn overall_width(&self) -> (w: i16)
        ensures
            w as int == self.spec_dots() * DOT_WIDTH,
            0 <= w <= MAX_DOTS * DOT_WIDTH,
    {
        let dots: i16 = if self.page_count > MAX_DOTS as usize {
            MAX_DOTS
        } else {
            self.page_count as i16
        };
        dots * DOT_WIDTH
    }

    /// Remembers the area the dots are drawn in.
    pub fn place(&mut self, area: Rect) -> (r: Rect)
        ensures
            *final(self) == (ScrollBar { area, ..*old(self) }),
            r == area,
    {
        self.area = area;
        area
    }

    /// Whether there is more than one position to show.
    pub fn has_pages(&self) -> (r: bool)
        ensures
            r == (self.page_count > 1),
    {
        self.page_count > 1
    }
}

} // verus!
