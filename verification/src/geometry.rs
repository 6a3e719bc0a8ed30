//! Rectangles and offsets for laying screen areas out.
//!
//! A `Rect` is given by its top-left (`x0`, `y0`) and bottom-right (`x1`, `y1`)
//! corners. Splits clamp the requested size to what is available, so every
//! split of a well-formed rectangle yields well-formed parts and the geometry
//! functions are total.

use vstd::prelude::*;

verus! {

/// A displacement in pixels.
#[derive(Clone, Copy, PartialEq, Eq, Structural, Debug)]
pub struct Offset {
    pub x: i16,
    pub y: i16,
}

impl Offset {
    pub fn new(x: i16, y: i16) -> (r: Offset)
        ensures
            r == (Offset { x, y }),
    {
        Offset { x, y }
    }

    pub fn zero() -> (r: Offset)
        ensures
            r == (Offset { x: 0, y: 0 }),
    {
        Offset { x: 0, y: 0 }
    }
}

/// An axis-aligned rectangle in screen coordinates.
#[derive(Clone, Copy, PartialEq, Eq, Structural, Debug)]
pub struct Rect {
    pub x0: i16,
    pub y0: i16,
    pub x1: i16,
    pub y1: i16,
}

impl Rect {
    /// Corners are ordered and on-screen: coordinates are non-negative and
    /// the rectangle is empty or extends right and down.
    pub open spec fn wf(self) -> bool {
        0 <= self.x0 && self.x0 <= self.x1 && 0 <= self.y0 && self.y0 <= self.y1
    }

    pub open spec fn spec_width(self) -> int {
        self.x1 - self.x0
    }

    pub open spec fn spec_height(self) -> int {
        self.y1 - self.y0
    }

    pub fn new(x0: i16, y0: i16, x1: i16, y1: i16) -> (r: Rect)
        requires
            0 <= x0 <= x1,
            0 <= y0 <= y1,
        ensures
            r == (Rect { x0, y0, x1, y1 }),
    {
        Rect { x0, y0, x1, y1 }
    }

    pub fn zero() -> (r: Rect)
        ensures
            r == Rect::spec_zero(),
    {
        Rect { x0: 0, y0: 0, x1: 0, y1: 0 }
    }

    pub open spec fn spec_zero() -> Rect {
        Rect { x0: 0, y0: 0, x1: 0, y1: 0 }
    }

    pub fn width(&self) -> (w: i16)
        requires
            self.wf(),
        ensures
            w == self.spec_width(),
    {
        self.x1 - self.x0
    }

    pub fn height(&self) -> (h: i16)
        requires
            self.wf(),
        ensures
            h == self.spec_height(),
    {
        self.y1 - self.y0
    }

    /// The height actually taken when `h` is asked from the top: clamped to
    /// what the rectangle has, and to zero from below.
    pub open spec fn clamp_height(self, h: int) -> int {
        if h < 0 {
            0
        } else if h > self.spec_height() {
            self.spec_height()
        } else {
            h
        }
    }

    /// The width actually taken when `w` is asked from one side.
    pub open spec fn clamp_width(self, w: int) -> int {
        if w < 0 {
            0
        } else if w > self.spec_width() {
            self.spec_width()
        } else {
            w
        }
    }

    pub open spec fn spec_split_top(self, h: int) -> (Rect, Rect) {
        let t = self.clamp_height(h);
        (
            Rect { x0: self.x0, y0: self.y0, x1: self.x1, y1: (self.y0 + t) as i16 },
            Rect { x0: self.x0, y0: (self.y0 + t) as i16, x1: self.x1, y1: self.y1 },
        )
    }

    pub open spec fn spec_split_bottom(self, h: int) -> (Rect, Rect) {
        let t = self.clamp_height(h);
        (
            Rect { x0: self.x0, y0: self.y0, x1: self.x1, y1: (self.y1 - t) as i16 },
            Rect { x0: self.x0, y0: (self.y1 - t) as i16, x1: self.x1, y1: self.y1 },
        )
    }

    pub open spec fn spec_split_right(self, w: int) -> (Rect, Rect) {
        let t = self.clamp_width(w);
        (
            Rect { x0: self.x0, y0: self.y0, x1: (self.x1 - t) as i16, y1: self.y1 },
            Rect { x0: (self.x1 - t) as i16, y0: self.y0, x1: self.x1, y1: self.y1 },
        )
    }

    /// Splits a band of height `h` (clamped) off the top; returns (top, rest).
    pub fn split_top(&self, h: i16) -> (r: (Rect, Rect))
        requires
            self.wf(),
        ensures
            r == self.spec_split_top(h as int),
            r.0.wf(),
            r.1.wf(),
    {
        let t: i16 = if h < 0 {
            0
        } else if h > self.height() {
            self.height()
        } else {
            h
        };
        (
            Rect { x0: self.x0, y0: self.y0, x1: self.x1, y1: self.y0 + t },
            Rect { x0: self.x0, y0: self.y0 + t, x1: self.x1, y1: self.y1 },
        )
    }

    /// Splits a band of height `h` (clamped) off the bottom; returns (rest, bottom).
    pub fn split_bottom(&self, h: i16) -> (r: (Rect, Rect))
        requires
            self.wf(),
        ensures
            r == self.spec_split_bottom(h as int),
            r.0.wf(),
            r.1.wf(),
    {
        let t: i16 = if h < 0 {
            0
        } else if h > self.height() {
            self.height()
        } else {
            h
        };
        (
            Rect { x0: self.x0, y0: self.y0, x1: self.x1, y1: self.y1 - t },
            Rect { x0: self.x0, y0: self.y1 - t, x1: self.x1, y1: self.y1 },
        )
    }

    /// Splits a band of width `w` (clamped) off the right; returns (rest, right).
    pub fn split_right(&self, w: i16) -> (r: (Rect, Rect))
        requires
            self.wf(),
        ensures
            r == self.spec_split_right(w as int),
            r.0.wf(),
            r.1.wf(),
    {
        let t: i16 = if w < 0 {
            0
        } else if w > self.width() {
            self.width()
        } else {
            w
        };
        (
            Rect { x0: self.x0, y0: self.y0, x1: self.x1 - t, y1: self.y1 },
            Rect { x0: self.x1 - t, y0: self.y0, x1: self.x1, y1: self.y1 },
        )
    }
}

} // verus!
