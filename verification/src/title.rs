//! The bold title line shown at the top of a screen.

use vstd::prelude::*;

use crate::geometry::Rect;

verus! {

/// Height of the title line in pixels.
pub const HEADER_HEIGHT: i16 = 16;

/// A one-line title: its text, alignment and area.
#[derive(Clone, PartialEq, Eq, Debug)]
pub struct Title {
    pub text: String,
    pub centered: bool,
    pub area: Rect,
}

/// View of a `Title`.
pub struct TitleV {
    pub text: Seq<char>,
    pub centered: bool,
    pub area: Rect,
}

impl View for Title {
    type V = TitleV;

    open spec fn view(&self) -> TitleV {
        TitleV { text: self.text@, centered: self.centered, area: self.area }
    }
}

impl Title {
    pub fn new(text: String) -> (r: Title)
        ensures
            r@ == (TitleV { text: text@, centered: false, area: Rect::spec_zero() }),
    {
        Title { text, centered: false, area: Rect::zero() }
    }

    /// Centers the title instead of left-aligning it.
    pub fn with_centered(self) -> (r: Title)
        ensures
            r@ == (TitleV { centered: true, ..self@ }),
    {
        Title { centered: true, ..self }
    }

    pub fn set_text(&mut self, text: String)
        ensures
            final(self)@ == (TitleV { text: text@, ..old(self)@ }),
    {
        self.text = text;
    }

    pub fn get_text(&self) -> (r: &String)
        ensures
            r@ == self@.text,
    {
        &self.text
    }

    pub fn place(&mut self, area: Rect) -> (r: Rect)
        ensures
            *final(self) == (Title { area: area, ..*old(self) }),
            final(self)@ == (TitleV { area, ..old(self)@ }),
            r == area,
    {
        self.area = area;
        area
    }
}

} // verus!
