//! Choosing one string out of a short list.

use vstd::prelude::*;

use crate::buttons::{default_three_icons_v, ButtonLayout, ButtonLayoutV};
use crate::choice::{ChoiceFactory, ChoicePage};
use crate::choice_item::{ChoiceItem, ChoiceItemV, CHOICE_TEXT_CAPACITY};
use crate::component::{Event, EventCtx};
use crate::ops::Font;
use crate::textbox::str_chars;

verus! {

/// At most this many choices, so there is a single implementation instead
/// of one per capacity.
pub const MAX_LENGTH: usize = 5;

/// The views of a list of owned strings.
pub open spec fn strings_view(v: Seq<String>) -> Seq<Seq<char>> {
    v.map_values(|s: String| s@)
}

/// A view-preserving copy of a list of strings.
pub fn clone_strings(v: &Vec<String>) -> (r: Vec<String>)
    ensures
        strings_view(r@) == strings_view(v@),
        r@.len() == v@.len(),
        forall|j: int| 0 <= j < v@.len() ==> #[trigger] r@[j]@ == v@[j]@,
{
    let mut r: Vec<String> = Vec::new();
    let n = v.len();
    let mut i: usize = 0;
    while i < n
        invariant
            n == v@.len(),
            i <= n,
            r@.len() == i,
            forall|j: int| 0 <= j < i ==> #[trigger] r@[j]@ == v@[j]@,
        decreases n - i,
    {
        r.push(v[i].clone());
        i += 1;
    }
    proof {
        assert(strings_view(r@) =~= strings_view(v@));
    }
    r
}

/// The carousel layout for choice `i` of `count`: ends trimmed when not in
/// carousel mode.
pub open spec fn simple_layout_v(i: int, count: int, carousel: bool) -> ButtonLayoutV {
    let base = default_three_icons_v();
    if carousel {
        base
    } else {
        ButtonLayoutV {
            btn_left: if i == 0 {
                None
            } else {
                base.btn_left
            },
            btn_middle: base.btn_middle,
            btn_right: if i == count - 1 {
                None
            } else {
                base.btn_right
            },
        }
    }
}

/// Offers a fixed short list of strings.
pub struct ChoiceFactorySimple {
    pub choices: Vec<String>,
    pub carousel: bool,
}

impl ChoiceFactorySimple {
    pub open spec fn choices_fit(&self) -> bool {
        &&& 1 <= self.choices@.len() <= MAX_LENGTH
        &&& forall|i: int|
            0 <= i < self.choices@.len() ==> #[trigger] self.choices@[i]@.len()
                <= CHOICE_TEXT_CAPACITY
    }

    pub fn new(choices: Vec<String>, carousel: bool) -> (r: ChoiceFactorySimple)
        ensures
            r.carousel == carousel,
            strings_view(r.choices@) == strings_view(choices@),
            r.choices@ == choices@,
    {
        ChoiceFactorySimple { choices, carousel }
    }
}

impl ChoiceFactory for ChoiceFactorySimple {
    type Action = usize;

    open spec fn spec_count(&self) -> int {
        if self.choices_fit() {
            self.choices@.len() as int
        } else {
            0
        }
    }

    open spec fn spec_item(&self, i: int) -> ChoiceItemV {
        ChoiceItemV {
            text: self.choices@[i]@,
            icon: None,
            btn_layout: simple_layout_v(i, self.choices@.len() as int, self.carousel),
            font: Font::Mono,
        }
    }

    open spec fn spec_action(&self, i: int) -> usize {
        i as usize
    }

    proof fn lemma_items_wf(&self, i: int) {
        assert(self.choices_fit());
        assert(self.choices@[i]@.len() <= CHOICE_TEXT_CAPACITY);
    }

    fn count(&self) -> (n: usize) {
        let n = self.choices.len();
        if n == 0 || n > MAX_LENGTH {
            proof {
                assert(!self.choices_fit());
            }
            return 0;
        }
        let mut i: usize = 0;
        while i < n
            invariant
                i <= n,
                n == self.choices@.len(),
                forall|j: int|
                    0 <= j < i ==> #[trigger] self.choices@[j]@.len() <= CHOICE_TEXT_CAPACITY,
            decreases n - i,
        {
            if self.choices[i].as_str().unicode_len() > CHOICE_TEXT_CAPACITY {
                proof {
                    assert(!self.choices_fit());
                }
                return 0;
            }
            i += 1;
        }
        proof {
            assert(self.choices_fit());
        }
        n
    }

    fn get(&self, choice_index: usize) -> (r: (ChoiceItem, usize)) {
        proof {
            assert(self.choices_fit());
            assert(self.choices@[choice_index as int]@.len() <= CHOICE_TEXT_CAPACITY);
        }
        let text = str_chars(self.choices[choice_index].as_str());
        let mut choice_item = ChoiceItem::new(text, ButtonLayout::default_three_icons());
        // At the ends nothing lies further, unless the carousel wraps.
        if !self.carousel {
            if choice_index == 0 {
                choice_item.set_left_btn(None);
            }
            let n = self.choices.len();
            if choice_index == n - 1 {
                choice_item.set_right_btn(None);
            }
        }
        (choice_item, choice_index)
    }
}

/// A choice screen over a short string list, reporting the chosen index.
pub struct SimpleChoice {
    pub choices: Vec<String>,
    pub choice_page: ChoicePage<ChoiceFactorySimple>,
    pub return_index: bool,
}

impl SimpleChoice {
    pub open spec fn wf(&self) -> bool {
        &&& self.choice_page.wf()
        &&& strings_view(self.choices@) == strings_view(self.choice_page.choices.choices@)
    }

    pub fn new(str_choices: Vec<String>, carousel: bool) -> (r: SimpleChoice)
        requires
            1 <= str_choices@.len() <= MAX_LENGTH,
            forall|i: int|
                0 <= i < str_choices@.len() ==> #[trigger] str_choices@[i]@.len()
                    <= CHOICE_TEXT_CAPACITY,
        ensures
            r.wf(),
            strings_view(r.choices@) == strings_view(str_choices@),
            r.choice_page.carousel == carousel,
            r.choice_page.page_counter == 0,
            !r.return_index,
    {
        let copied = clone_strings(&str_choices);
        let choices = ChoiceFactorySimple::new(copied, carousel);
        proof {
            assert(choices.choices_fit());
        }
        SimpleChoice {
            choices: str_choices,
            choice_page: ChoicePage::new(choices).with_carousel(carousel),
            return_index: false,
        }
    }

    /// Show only the currently selected item, nothing left or right.
    pub fn with_only_one_item(self) -> (r: SimpleChoice)
        ensures
            r == (SimpleChoice { choice_page: r.choice_page, ..self }),
            r.choice_page == (ChoicePage { show_only_one_item: true, ..self.choice_page }),
            self.wf() ==> r.wf(),
    {
        SimpleChoice { choice_page: self.choice_page.with_only_one_item(true), ..self }
    }

    /// Show choices even when they do not fit entirely.
    pub fn with_show_incomplete(self) -> (r: SimpleChoice)
        ensures
            r == (SimpleChoice { choice_page: r.choice_page, ..self }),
            r.choice_page == (ChoicePage { show_incomplete: true, ..self.choice_page }),
            self.wf() ==> r.wf(),
    {
        SimpleChoice { choice_page: self.choice_page.with_incomplete(true), ..self }
    }

    /// Report the chosen index instead of the string.
    pub fn with_return_index(self) -> (r: SimpleChoice)
        ensures
            r == (SimpleChoice { return_index: true, ..self }),
            self.wf() ==> r.wf(),
    {
        SimpleChoice { return_index: true, ..self }
    }

    /// The string behind a reported index.
    pub fn result_by_index(&self, index: usize) -> (r: &str)
        requires
            (index as int) < self.choices@.len(),
        ensures
            r@ == self.choices@[index as int]@,
    {
        self.choices[index].as_str()
    }

    /// Left and right move the selection; the middle button reports the
    /// selected index.
    pub fn event(&mut self, ctx: &mut EventCtx, event: Event) -> (r: Option<usize>)
        requires
            old(self).wf(),
        ensures
            final(self).wf(),
            final(self).choices@ == old(self).choices@,
            final(self).return_index == old(self).return_index,
            final(self).choice_page.page_counter as int == crate::choice::spec_move(
                old(self).choice_page.page_counter as int,
                old(self).choice_page.choices.spec_count(),
                old(self).choice_page.carousel,
                crate::component::event_pos(event),
            ),
            event matches Event::Button(crate::buttons::ButtonPos::Middle) ==> r == Some(
                old(self).choice_page.page_counter,
            ),
            !(event matches Event::Button(crate::buttons::ButtonPos::Middle)) ==> r is None,
    {
        self.choice_page.event(ctx, event)
    }
}

} // verus!
