//! A screen that shows partial content with confirm, cancel and
//! more-info buttons.

use vstd::prelude::*;

use crate::buttons::{ButtonLayout, ButtonLayoutV, ButtonPos};
use crate::buttons::{armed_text_details_v, icon_details_v, text_details_v, IconKind};
use crate::component::{Component, Event, EventCtx};
use crate::flow::BUTTON_HEIGHT;
use crate::geometry::Rect;

verus! {

/// What a show-more screen reports outward.
#[derive(Clone, Copy, PartialEq, Eq, Structural, Debug)]
pub enum CancelInfoConfirmMsg {
    Cancelled,
    Info,
    Confirmed,
}

/// Content wrapped with a cancel / confirm / info button row.
pub struct ShowMore<T: Component> {
    pub content: T,
    pub buttons: ButtonLayout,
}

impl<T: Component> ShowMore<T> {
    pub fn new(content: T) -> (r: ShowMore<T>)
        ensures
            r.content == content,
            r.buttons@ == (ButtonLayoutV {
                btn_left: Some(icon_details_v(IconKind::Cancel, false)),
                btn_middle: Some(armed_text_details_v("CONFIRM"@)),
                btn_right: Some(text_details_v("i"@)),
            }),
    {
        let btn_layout = ButtonLayout::cancel_armed_text("CONFIRM".to_owned(), "i".to_owned());
        ShowMore { content, buttons: btn_layout }
    }

    /// Button row at the bottom, content above it.
    pub fn place(&mut self, bounds: Rect) -> (r: Rect)
        requires
            old(self).content.inv(),
            bounds.wf(),
        ensures
            r == bounds,
            final(self).content.inv(),
            final(self).buttons == old(self).buttons,
    {
        let (content_area, _button_area) = bounds.split_bottom(BUTTON_HEIGHT);
        let (_gap, content_area) = content_area.split_top(1);
        self.content.place(content_area);
        bounds
    }

    /// Each button produces exactly its message: cancel on the left,
    /// confirm in the middle, info on the right. Nothing else changes.
    pub fn event(&mut self, ctx: &mut EventCtx, event: Event) -> (m: Option<CancelInfoConfirmMsg>)
        ensures
            *final(self) == *old(self),
            *final(ctx) == *old(ctx),
            m == Some(
                match event {
                    Event::Button(ButtonPos::Left) => CancelInfoConfirmMsg::Cancelled,
                    Event::Button(ButtonPos::Middle) => CancelInfoConfirmMsg::Confirmed,
                    Event::Button(ButtonPos::Right) => CancelInfoConfirmMsg::Info,
                },
            ),
    {
        match event {
            Event::Button(ButtonPos::Left) => Some(CancelInfoConfirmMsg::Cancelled),
            Event::Button(ButtonPos::Middle) => Some(CancelInfoConfirmMsg::Confirmed),
            Event::Button(ButtonPos::Right) => Some(CancelInfoConfirmMsg::Info),
        }
    }
}

} // verus!
