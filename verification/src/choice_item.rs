//! One selectable item of a choice carousel: text, an optional icon, the
//! button layout it brings, and its font.

use vstd::prelude::*;

use crate::buttons::{opt_details_view, ButtonDetails, ButtonLayout, ButtonLayoutV, IconKind};
use crate::geometry::Rect;
use crate::layout::font_width;
use crate::ops::Font;

verus! {

/// Horizontal padding between an icon and the text beside it.
pub const ICON_RIGHT_PADDING: i16 = 2;

/// Width of every icon in pixels.
pub const ICON_WIDTH: i16 = 8;

/// Upper bound on a choice item's text length, so width arithmetic stays
/// within `i16`.
pub const CHOICE_TEXT_CAPACITY: usize = 50;

/// View of a `ChoiceItem`.
pub struct ChoiceItemV {
    pub text: Seq<char>,
    pub icon: Option<IconKind>,
    pub btn_layout: ButtonLayoutV,
    pub font: Font,
}

/// One selectable item.
pub struct ChoiceItem {
    pub text: Vec<char>,
    pub icon: Option<IconKind>,
    pub btn_layout: ButtonLayout,
    pub font: Font,
}

impl View for ChoiceItem {
    type V = ChoiceItemV;

    open spec fn view(&self) -> ChoiceItemV {
        ChoiceItemV {
            text: self.text@,
            icon: self.icon,
            btn_layout: self.btn_layout@,
            font: self.font,
        }
    }
}

/// The item's well-formedness: text within the width budget.
pub open spec fn item_wf(v: ChoiceItemV) -> bool {
    v.text.len() <= CHOICE_TEXT_CAPACITY
}

impl ChoiceItem {
    pub fn new(text: Vec<char>, btn_layout: ButtonLayout) -> (r: ChoiceItem)
        requires
            text@.len() <= CHOICE_TEXT_CAPACITY,
        ensures
            r@ == (ChoiceItemV {
                text: text@,
                icon: None::<IconKind>,
                btn_layout: btn_layout@,
                font: Font::Mono,
            }),
            item_wf(r@),
    {
        ChoiceItem { text, icon: None, btn_layout, font: Font::Mono }
    }

    /// Adds an icon.
    pub fn with_icon(self, icon: IconKind) -> (r: ChoiceItem)
        ensures
            r@ == (ChoiceItemV { icon: Some(icon), ..self@ }),
    {
        ChoiceItem { icon: Some(icon), ..self }
    }

    /// Changes the font.
    pub fn with_font(self, font: Font) -> (r: ChoiceItem)
        ensures
            r@ == (ChoiceItemV { font: font, ..self@ }),
    {
        ChoiceItem { font, ..self }
    }

    pub fn set_left_btn(&mut self, btn_left: Option<ButtonDetails>)
        ensures
            final(self)@ == (ChoiceItemV {
                btn_layout: ButtonLayoutV { btn_left: opt_details_view(btn_left), ..old(self)@.btn_layout },
                ..old(self)@
            }),
    {
        self.btn_layout.btn_left = btn_left;
    }

    pub fn set_middle_btn(&mut self, btn_middle: Option<ButtonDetails>)
        ensures
            final(self)@ == (ChoiceItemV {
                btn_layout: ButtonLayoutV {
                    btn_middle: opt_details_view(btn_middle),
                    ..old(self)@.btn_layout
                },
                ..old(self)@
            }),
    {
        self.btn_layout.btn_middle = btn_middle;
    }

    pub fn set_right_btn(&mut self, btn_right: Option<ButtonDetails>)
        ensures
            final(self)@ == (ChoiceItemV {
                btn_layout: ButtonLayoutV {
                    btn_right: opt_details_view(btn_right),
                    ..old(self)@.btn_layout
                },
                ..old(self)@
            }),
    {
        self.btn_layout.btn_right = btn_right;
    }

    pub fn set_text(&mut self, text: Vec<char>)
        requires
            text@.len() <= CHOICE_TEXT_CAPACITY,
        ensures
            final(self)@ == (ChoiceItemV { text: text@, ..old(self)@ }),
    {
        self.text = text;
    }

    /// The button layout this item brings when it is the active choice.
    pub fn btn_layout(&self) -> (r: ButtonLayout)
        ensures
            r@ == self@.btn_layout,
    {
        self.btn_layout.duplicate()
    }

    /// Width of the text in pixels under the item's monospace font.
    pub fn visible_text_width(&self) -> (w: i16)
        requires
            item_wf(self@),
        ensures
            w as int == self@.text.len() * font_width(self@.font),
            0 <= w <= 500,
    {
        let cw: i16 = match self.font {
            Font::Normal => 8,
            Font::Bold => 10,
            Font::Mono => 9,
        };
        (self.text.len() as i16) * cw
    }

    /// Width shown on a side position: the icon if there is one, else the
    /// text.
    pub fn width_side(&self) -> (w: i16)
        requires
            item_wf(self@),
        ensures
            self@.icon is Some ==> w == ICON_WIDTH,
            self@.icon is None ==> w as int == self@.text.len() * font_width(self@.font),
            0 <= w <= 500,
    {
        if self.icon.is_some() {
            ICON_WIDTH
        } else {
            self.visible_text_width()
        }
    }

    /// Width shown in the center: icon and text together.
    pub fn width_center(&self) -> (w: i16)
        requires
            item_wf(self@),
        ensures
            self@.icon is Some ==> w as int == ICON_WIDTH + ICON_RIGHT_PADDING + self@.text.len()
                * font_width(self@.font),
            self@.icon is None ==> w as int == self@.text.len() * font_width(self@.font),
    {
        let icon_width: i16 = if self.icon.is_some() {
            ICON_WIDTH + ICON_RIGHT_PADDING
        } else {
            0
        };
        icon_width + self.visible_text_width()
    }

    /// Whether the item fits a side slot of the given area.
    pub fn fits(&self, rect: Rect) -> (r: bool)
        requires
            item_wf(self@),
            rect.wf(),
        ensures
            r == (self.spec_width_side() <= rect.spec_width()),
    {
        self.width_side() <= rect.width()
    }

    /// Spec-level side width.
    pub open spec fn spec_width_side(&self) -> int {
        match self@.icon {
            Some(_) => ICON_WIDTH as int,
            None => self@.text.len() * font_width(self@.font),
        }
    }
}

} // verus!
