//! Events, the event context and the component interface.
//!
//! A raw button press arrives, already classified by the hardware button
//! controller, as `Event::Button(pos)`. The `EventCtx` threads the repaint
//! request flag, and the page count a component reports, through one event
//! dispatch; the flag is cleared after a paint and set by any mutator.

use vstd::prelude::*;

use crate::buttons::ButtonPos;
use crate::geometry::Rect;

verus! {

/// One input event, as the button controller delivers it.
#[derive(Clone, Copy, PartialEq, Eq, Structural, Debug)]
pub enum Event {
    Button(ButtonPos),
}

/// The button position an event carries.
pub open spec fn event_pos(event: Event) -> ButtonPos {
    match event {
        Event::Button(p) => p,
    }
}

/// The per-dispatch context: repaint request and reported page count.
#[derive(Clone, Copy, PartialEq, Eq, Structural, Debug)]
pub struct EventCtx {
    pub paint_requested: bool,
    pub page_count: Option<usize>,
}

impl EventCtx {
    pub fn new() -> (r: EventCtx)
        ensures
            r == (EventCtx { paint_requested: false, page_count: None::<usize> }),
    {
        EventCtx { paint_requested: false, page_count: None }
    }

    /// Asks for a repaint after the current dispatch.
    pub fn request_paint(&mut self)
        ensures
            *final(self) == (EventCtx { paint_requested: true, ..*old(self) }),
    {
        self.paint_requested = true;
    }

    /// Clears the request; called once the paint has happened.
    pub fn clear_paint_request(&mut self)
        ensures
            *final(self) == (EventCtx { paint_requested: false, ..*old(self) }),
    {
        self.paint_requested = false;
    }

    /// Records how many sub-pages the active component spans.
    pub fn set_page_count(&mut self, count: usize)
        ensures
            *final(self) == (EventCtx { page_count: Some(count), ..*old(self) }),
    {
        self.page_count = Some(count);
    }
}

/// The area behind a component, cleared before repainting when asked.
#[derive(Clone, Copy, PartialEq, Eq, Structural, Debug)]
pub struct Pad {
    pub area: Rect,
    pub clear_pending: bool,
}

impl Pad {
    pub fn new() -> (r: Pad)
        ensures
            r == (Pad { area: Rect::spec_zero(), clear_pending: false }),
    {
        Pad { area: Rect::zero(), clear_pending: false }
    }

    pub fn place(&mut self, area: Rect)
        ensures
            *final(self) == (Pad { area, ..*old(self) }),
    {
        self.area = area;
    }

    /// Marks the whole area to be cleared at the next paint.
    pub fn clear(&mut self)
        ensures
            *final(self) == (Pad { clear_pending: true, ..*old(self) }),
    {
        self.clear_pending = true;
    }

    /// The paint pass has cleared the area.
    pub fn mark_painted(&mut self)
        ensures
            *final(self) == (Pad { clear_pending: false, ..*old(self) }),
    {
        self.clear_pending = false;
    }
}

/// A screen component: placeable and event-driven. `inv` is the
/// component's own well-formedness, preserved by placement and events;
/// `spec_placed` pins placement down as a deterministic function of the
/// component and the bounds, so containers can reason about what placing
/// their content does.
pub trait Component: Sized {
    type Msg;

    spec fn inv(&self) -> bool;

    /// The component as it stands after being placed against `bounds`.
    spec fn spec_placed(&self, bounds: Rect) -> Self;

    fn place(&mut self, bounds: Rect) -> (r: Rect)
        requires
            old(self).inv(),
            bounds.wf(),
        ensures
            final(self).inv(),
            *final(self) == old(self).spec_placed(bounds),
    ;

    fn event(&mut self, ctx: &mut EventCtx, event: Event) -> (m: Option<Self::Msg>)
        requires
            old(self).inv(),
        ensures
            final(self).inv(),
    ;
}

/// Paginated content that reports its sub-page count and active sub-page,
/// so a frame can keep a scrollbar in step with it.
pub trait ScrollableContent: Sized {
    spec fn spec_page_count(&self) -> int;

    spec fn spec_active_page(&self) -> int;

    fn page_count(&self) -> (n: usize)
        ensures
            n as int == self.spec_page_count(),
    ;

    fn active_page(&self) -> (n: usize)
        ensures
            n as int == self.spec_active_page(),
    ;
}

} // verus!
