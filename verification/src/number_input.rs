//! Choosing one number out of a range.

use vstd::prelude::*;

use crate::buttons::{default_three_icons_v, ButtonLayout, ButtonLayoutV};
use crate::choice::{ChoiceFactory, ChoicePage};
use crate::choice_item::{ChoiceItem, ChoiceItemV};
use crate::component::{Event, EventCtx};
use crate::digits::{lemma_digits_len_u32, spec_digits, u32_digits};
use crate::ops::Font;

verus! {

/// Offers the numbers `min ..= max`, one choice per number.
pub struct ChoiceFactoryNumberInput {
    pub min: u32,
    pub max: u32,
}

impl ChoiceFactoryNumberInput {
    pub fn new(min: u32, max: u32) -> (r: ChoiceFactoryNumberInput)
        requires
            min <= max,
        ensures
            r == (ChoiceFactoryNumberInput { min, max }),
    {
        ChoiceFactoryNumberInput { min, max }
    }
}

/// The carousel layout for number `i` of the range: the default three
/// buttons, with the left arrow dropped on the first number and the right
/// arrow dropped on the last.
pub open spec fn number_layout_v(i: int, count: int) -> ButtonLayoutV {
    let base = default_three_icons_v();
    ButtonLayoutV {
        btn_left: if i == 0 {
            None
        } else {
            base.btn_left
        },
        btn_middle: base.btn_middle,
        btn_right: if i == count - 1 {
            None
        } else {
            base.btn_right
        },
    }
}

impl ChoiceFactory for ChoiceFactoryNumberInput {
    type Action = u32;

    open spec fn spec_count(&self) -> int {
        if self.min <= self.max && self.max - self.min < usize::MAX {
            self.max - self.min + 1
        } else {
            0
        }
    }

    open spec fn spec_item(&self, i: int) -> ChoiceItemV {
        ChoiceItemV {
            text: spec_digits((self.min + i) as nat),
            icon: None,
            btn_layout: number_layout_v(i, self.spec_count()),
            font: Font::Mono,
        }
    }

    open spec fn spec_action(&self, i: int) -> u32 {
        (self.min + i) as u32
    }

    proof fn lemma_items_wf(&self, i: int) {
        lemma_digits_len_u32((self.min + i) as u32);
        assert((self.min + i) as u32 as nat == (self.min + i) as nat);
    }

    fn count(&self) -> (n: usize) {
        if self.min <= self.max {
            let span = (self.max - self.min) as usize;
            if span < usize::MAX {
                span + 1
            } else {
                0
            }
        } else {
            0
        }
    }

    fn get(&self, choice_index: usize) -> (r: (ChoiceItem, u32)) {
        let num = self.min + choice_index as u32;
        let text = u32_digits(num);
        proof {
            lemma_digits_len_u32(num);
        }
        let mut choice_item = ChoiceItem::new(text, ButtonLayout::default_three_icons());
        // No going below the first or past the last choice.
        if choice_index == 0 {
            choice_item.set_left_btn(None);
        }
        let n = self.count();
        if choice_index == n - 1 {
            choice_item.set_right_btn(None);
        }
        (choice_item, num)
    }
}

/// A number-picking screen: a choice carousel over a range, reporting the
/// chosen number.
pub struct NumberInput {
    pub choice_page: ChoicePage<ChoiceFactoryNumberInput>,
    pub min: u32,
}

impl NumberInput {
    pub open spec fn wf(&self) -> bool {
        self.choice_page.wf() && self.min == self.choice_page.choices.min
    }

    /// Starts at `init_value` within `min ..= max`.
    pub fn new(min: u32, max: u32, init_value: u32) -> (r: NumberInput)
        requires
            min <= max,
            min <= init_value <= max,
            max - min < usize::MAX,
        ensures
            r.wf(),
            r.min == min,
            r.choice_page.choices == (ChoiceFactoryNumberInput { min, max }),
            r.choice_page.page_counter as int == init_value - min,
            !r.choice_page.carousel,
    {
        let choices = ChoiceFactoryNumberInput::new(min, max);
        let initial_page = (init_value - min) as usize;
        NumberInput {
            min,
            choice_page: ChoicePage::new(choices).with_initial_page_counter(initial_page),
        }
    }

    /// Left and right move through the range; the middle button reports the
    /// selected number.
    pub fn event(&mut self, ctx: &mut EventCtx, event: Event) -> (r: Option<u32>)
        requires
            old(self).wf(),
        ensures
            final(self).wf(),
            final(self).min == old(self).min,
            final(self).choice_page.choices == old(self).choice_page.choices,
            final(self).choice_page.page_counter as int == crate::choice::spec_move(
                old(self).choice_page.page_counter as int,
                old(self).choice_page.choices.spec_count(),
                old(self).choice_page.carousel,
                crate::component::event_pos(event),
            ),
            event matches Event::Button(crate::buttons::ButtonPos::Middle) ==> r == Some(
                (old(self).min + old(self).choice_page.page_counter) as u32,
            ),
            !(event matches Event::Button(crate::buttons::ButtonPos::Middle)) ==> r is None,
    {
        self.choice_page.event(ctx, event)
    }
}

} // verus!
