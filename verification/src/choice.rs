//! Lazy option generation: choices produced by index, never stored.
//!
//! A `ChoiceFactory` mirrors the flow's page factory at a smaller scale: it
//! promises `spec_count` choices and constructs choice `i`, with its
//! associated action, freshly on every request. `ChoicePage` is the carousel
//! over such a factory: left and right move the selection (wrapping when in
//! carousel mode), the middle button emits the current choice's action.

use vstd::prelude::*;

use crate::buttons::ButtonPos;
use crate::choice_item::{item_wf, ChoiceItem, ChoiceItemV};
use crate::component::{Event, EventCtx};

verus! {

/// A source of choices: a pure, repeatable construction per index.
pub trait ChoiceFactory: Sized {
    type Action;

    spec fn spec_count(&self) -> int;

    /// The choice item promised for index `i`.
    spec fn spec_item(&self, i: int) -> ChoiceItemV;

    /// The action associated with index `i`.
    spec fn spec_action(&self, i: int) -> Self::Action;

    /// Every promised item fits the item capacity.
    proof fn lemma_items_wf(&self, i: int)
        requires
            0 <= i < self.spec_count(),
        ensures
            item_wf(self.spec_item(i)),
    ;

    fn count(&self) -> (n: usize)
        ensures
            n as int == self.spec_count(),
    ;

    fn get(&self, choice_index: usize) -> (r: (ChoiceItem, Self::Action))
        requires
            (choice_index as int) < self.spec_count(),
        ensures
            r.0@ == self.spec_item(choice_index as int),
            r.1 == self.spec_action(choice_index as int),
    ;
}

/// Where the carousel selection stands after a press at `pos`: left and
/// right move by one, wrapping around the ends only in carousel mode and
/// staying put at them otherwise; the middle button does not move.
pub open spec fn spec_move(pc: int, count: int, carousel: bool, pos: ButtonPos) -> int {
    match pos {
        ButtonPos::Left => if pc > 0 {
            pc - 1
        } else if carousel {
            count - 1
        } else {
            pc
        },
        ButtonPos::Right => if pc + 1 < count {
            pc + 1
        } else if carousel {
            0
        } else {
            pc
        },
        ButtonPos::Middle => pc,
    }
}

/// The carousel over a choice factory: the selected index, whether the ends
/// wrap around, and two display options.
pub struct ChoicePage<F: ChoiceFactory> {
    pub choices: F,
    pub page_counter: usize,
    pub carousel: bool,
    pub show_incomplete: bool,
    pub show_only_one_item: bool,
}

impl<F: ChoiceFactory> ChoicePage<F> {
    /// The selection is always one of the factory's choices.
    pub open spec fn wf(&self) -> bool {
        1 <= self.choices.spec_count() && (self.page_counter as int) < self.choices.spec_count()
    }

    pub fn new(choices: F) -> (r: ChoicePage<F>)
        requires
            1 <= choices.spec_count(),
        ensures
            r == (ChoicePage {
                choices,
                page_counter: 0usize,
                carousel: false,
                show_incomplete: false,
                show_only_one_item: false,
            }),
            r.wf(),
    {
        ChoicePage {
            choices,
            page_counter: 0,
            carousel: false,
            show_incomplete: false,
            show_only_one_item: false,
        }
    }

    /// Starts the carousel at the given choice.
    pub fn with_initial_page_counter(self, page_counter: usize) -> (r: ChoicePage<F>)
        requires
            (page_counter as int) < self.choices.spec_count(),
        ensures
            r == (ChoicePage { page_counter, ..self }),
            self.wf() ==> r.wf(),
    {
        ChoicePage { page_counter, ..self }
    }

    /// Makes the ends wrap around.
    pub fn with_carousel(self, carousel: bool) -> (r: ChoicePage<F>)
        ensures
            r == (ChoicePage { carousel, ..self }),
    {
        ChoicePage { carousel, ..self }
    }

    /// Shows side choices even when they do not fit entirely.
    pub fn with_incomplete(self, show_incomplete: bool) -> (r: ChoicePage<F>)
        ensures
            r == (ChoicePage { show_incomplete, ..self }),
    {
        ChoicePage { show_incomplete, ..self }
    }

    /// Shows only the selected choice, nothing to the sides.
    pub fn with_only_one_item(self, show_only_one_item: bool) -> (r: ChoicePage<F>)
        ensures
            r == (ChoicePage { show_only_one_item, ..self }),
    {
        ChoicePage { show_only_one_item, ..self }
    }

    /// The selected index.
    pub fn page_index(&self) -> (n: usize)
        ensures
            n == self.page_counter,
    {
        self.page_counter
    }

    /// Whether a left press moves the selection.
    pub fn has_previous_choice(&self) -> (r: bool)
        ensures
            r == (self.page_counter > 0 || self.carousel),
    {
        self.page_counter > 0 || self.carousel
    }

    /// Whether a right press moves the selection.
    pub fn has_next_choice(&self) -> (r: bool)
        requires
            self.wf(),
        ensures
            r == ((self.page_counter as int) + 1 < self.choices.spec_count() || self.carousel),
    {
        let n = self.choices.count();
        self.page_counter + 1 < n || self.carousel
    }

    /// Moves the selection to the given choice and asks for a repaint.
    pub fn set_page_counter(&mut self, ctx: &mut EventCtx, page_counter: usize)
        requires
            (page_counter as int) < old(self).choices.spec_count(),
        ensures
            *final(self) == (ChoicePage { page_counter, ..*old(self) }),
            *final(ctx) == (EventCtx { paint_requested: true, ..*old(ctx) }),
    {
        self.page_counter = page_counter;
        ctx.request_paint();
    }

    /// Replaces the factory wholesale, resets the cursor (to the given
    /// index, or to the first choice) and sets carousel mode.
    pub fn reset(
        &mut self,
        ctx: &mut EventCtx,
        new_choices: F,
        new_page_counter: Option<usize>,
        carousel: bool,
    )
        requires
            1 <= new_choices.spec_count(),
            new_page_counter matches Some(n) ==> (n as int) < new_choices.spec_count(),
        ensures
            final(self).choices == new_choices,
            final(self).page_counter as int == (match new_page_counter {
                Some(n) => n as int,
                None => 0,
            }),
            final(self).carousel == carousel,
            final(self).show_incomplete == old(self).show_incomplete,
            final(self).show_only_one_item == old(self).show_only_one_item,
            final(self).wf(),
            *final(ctx) == (EventCtx { paint_requested: true, ..*old(ctx) }),
    {
        self.choices = new_choices;
        self.page_counter = match new_page_counter {
            Some(n) => n,
            None => 0,
        };
        self.carousel = carousel;
        ctx.request_paint();
    }

    /// The selected choice and its action, constructed on demand.
    pub fn get_current_choice(&self) -> (r: (ChoiceItem, F::Action))
        requires
            self.wf(),
        ensures
            r.0@ == self.choices.spec_item(self.page_counter as int),
            r.1 == self.choices.spec_action(self.page_counter as int),
    {
        self.choices.get(self.page_counter)
    }

    /// Resolves one button press: left and right move the selection (around
    /// the ends only in carousel mode, ignored otherwise), the middle
    /// button emits the selected action without moving anything.
    pub fn event(&mut self, ctx: &mut EventCtx, event: Event) -> (r: Option<F::Action>)
        requires
            old(self).wf(),
        ensures
            final(self).wf(),
            final(self).choices == old(self).choices,
            final(self).carousel == old(self).carousel,
            final(self).show_incomplete == old(self).show_incomplete,
            final(self).show_only_one_item == old(self).show_only_one_item,
            ({
                let pre = *old(self);
                let count = pre.choices.spec_count();
                let pc = pre.page_counter as int;
                let pos = (match event {
                    Event::Button(p) => p,
                });
                &&& final(self).page_counter as int == spec_move(pc, count, pre.carousel, pos)
                &&& (pos == ButtonPos::Middle ==> r == Some(pre.choices.spec_action(pc)))
                &&& (pos != ButtonPos::Middle ==> r is None)
            }),
    {
        let pos = match event {
            Event::Button(p) => p,
        };
        match pos {
            ButtonPos::Left => {
                if self.page_counter > 0 {
                    self.page_counter -= 1;
                    ctx.request_paint();
                } else if self.carousel {
                    let n = self.choices.count();
                    self.page_counter = n - 1;
                    ctx.request_paint();
                }
                None
            },
            ButtonPos::Right => {
                let n = self.choices.count();
                if self.page_counter + 1 < n {
                    self.page_counter += 1;
                    ctx.request_paint();
                } else if self.carousel {
                    self.page_counter = 0;
                    ctx.request_paint();
                }
                None
            },
            ButtonPos::Middle => {
                let (_item, action) = self.choices.get(self.page_counter);
                Some(action)
            },
        }
    }
}

} // verus!
