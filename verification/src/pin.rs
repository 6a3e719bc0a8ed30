//! Entering a PIN: a digit carousel with delete, show and enter actions.

use vstd::prelude::*;

use crate::buttons::{
    armed_text_details_v, default_three_icons_v, ButtonDetails, ButtonLayout, ButtonLayoutV,
    ButtonPos, IconKind,
};
use crate::choice::{ChoiceFactory, ChoicePage};
use crate::choice_item::{ChoiceItem, ChoiceItemV};
use crate::component::{Event, EventCtx};
use crate::digits::digit_char;
use crate::ops::Font;
use crate::textbox::{str_chars, ChangingTextLine, TextBox};

verus! {

/// What a PIN entry screen reports outward.
#[derive(Clone, Copy, PartialEq, Eq, Structural, Debug)]
pub enum PinEntryMsg {
    Confirmed,
    Cancelled,
}

/// Longest accepted PIN.
pub const MAX_PIN_LENGTH: usize = 50;

/// Number of choices: three actions and ten digits.
pub const CHOICE_LENGTH: usize = 13;

pub const DELETE_INDEX: usize = 0;

pub const SHOW_INDEX: usize = 1;

pub const ENTER_INDEX: usize = 2;

/// Where the digits begin; the carousel starts at digit 0.
pub const NUMBER_START_INDEX: usize = 3;

/// The label of choice `i`: an action name, or a single digit.
pub open spec fn pin_choice_text(i: int) -> Seq<char> {
    if i == 0 {
        "DELETE"@
    } else if i == 1 {
        "SHOW"@
    } else if i == 2 {
        "ENTER"@
    } else {
        seq![digit_char((i - 3) as nat)]
    }
}

/// The icon of choice `i`.
pub open spec fn pin_choice_icon(i: int) -> Option<IconKind> {
    if i == 0 {
        Some(IconKind::Delete)
    } else if i == 1 {
        Some(IconKind::Eye)
    } else if i == 2 {
        Some(IconKind::Tick)
    } else {
        None
    }
}

/// The carousel layout of choice `i`: action choices confirm with the
/// middle button instead of selecting.
pub open spec fn pin_choice_layout_v(i: int) -> ButtonLayoutV {
    if i < 3 {
        ButtonLayoutV {
            btn_middle: Some(armed_text_details_v("CONFIRM"@)),
            ..default_three_icons_v()
        }
    } else {
        default_three_icons_v()
    }
}

/// The fixed thirteen PIN choices.
pub struct ChoiceFactoryPIN {}

impl ChoiceFactoryPIN {
    pub fn new() -> (r: ChoiceFactoryPIN)
        ensures
            r == (ChoiceFactoryPIN {  }),
    {
        ChoiceFactoryPIN {  }
    }
}

impl ChoiceFactory for ChoiceFactoryPIN {
    type Action = usize;

    open spec fn spec_count(&self) -> int {
        CHOICE_LENGTH as int
    }

    open spec fn spec_item(&self, i: int) -> ChoiceItemV {
        ChoiceItemV {
            text: pin_choice_text(i),
            icon: pin_choice_icon(i),
            btn_layout: pin_choice_layout_v(i),
            font: Font::Mono,
        }
    }

    open spec fn spec_action(&self, i: int) -> usize {
        i as usize
    }

    proof fn lemma_items_wf(&self, i: int) {
        reveal_strlit("DELETE");
        reveal_strlit("SHOW");
        reveal_strlit("ENTER");
    }

    fn count(&self) -> (n: usize) {
        CHOICE_LENGTH
    }

    fn get(&self, choice_index: usize) -> (r: (ChoiceItem, usize)) {
        proof {
            reveal_strlit("DELETE");
            reveal_strlit("SHOW");
            reveal_strlit("ENTER");
        }
        let text: Vec<char> = if choice_index == DELETE_INDEX {
            str_chars("DELETE")
        } else if choice_index == SHOW_INDEX {
            str_chars("SHOW")
        } else if choice_index == ENTER_INDEX {
            str_chars("ENTER")
        } else {
            let mut t: Vec<char> = Vec::new();
            t.push(crate::digits::digit_char_of((choice_index - 3) as u32));
            proof {
                assert(t@ =~= seq![digit_char((choice_index - 3) as nat)]);
            }
            t
        };
        let mut choice_item = ChoiceItem::new(text, ButtonLayout::default_three_icons());
        if choice_index < NUMBER_START_INDEX {
            let confirm_btn = ButtonDetails::armed_text("CONFIRM".to_owned());
            choice_item.set_middle_btn(Some(confirm_btn));
        }
        if choice_index == DELETE_INDEX {
            choice_item = choice_item.with_icon(IconKind::Delete);
        } else if choice_index == SHOW_INDEX {
            choice_item = choice_item.with_icon(IconKind::Eye);
        } else if choice_index == ENTER_INDEX {
            choice_item = choice_item.with_icon(IconKind::Tick);
        }
        (choice_item, choice_index)
    }
}

/// A value in `lo ..= hi` other than `except`, derived from an externally
/// drawn number; any draw yields a valid result.
pub fn uniform_between_except(lo: u32, hi: u32, except: u32, draw: u32) -> (r: u32)
    requires
        lo < hi,
        lo <= except <= hi,
    ensures
        lo <= r <= hi,
        r != except,
{
    let span = hi - lo;
    let offset = draw % span;
    let candidate = lo + offset;
    if candidate >= except {
        candidate + 1
    } else {
        candidate
    }
}

/// The masking dots shown instead of the real PIN.
pub open spec fn star_seq(n: int) -> Seq<char> {
    Seq::new(n as nat, |i: int| '*')
}

/// A row of masking dots.
pub fn stars(n: usize) -> (r: Vec<char>)
    ensures
        r@ == star_seq(n as int),
{
    let mut r: Vec<char> = Vec::new();
    let mut i: usize = 0;
    while i < n
        invariant
            i <= n,
            r@ == star_seq(i as int),
        decreases n - i,
    {
        r.push('*');
        proof {
            assert(star_seq(i + 1) =~= star_seq(i as int).push('*'));
        }
        i += 1;
    }
    r
}

/// A view-preserving copy of a character list.
pub fn clone_chars(v: &Vec<char>) -> (r: Vec<char>)
    ensures
        r@ == v@,
{
    let mut r: Vec<char> = Vec::new();
    let n = v.len();
    let mut i: usize = 0;
    while i < n
        invariant
            n == v@.len(),
            i <= n,
            r@ == v@.take(i as int),
        decreases n - i,
    {
        r.push(v[i]);
        proof {
            assert(v@.take(i + 1) =~= v@.take(i as int).push(v@[i as int]));
        }
        i += 1;
    }
    proof {
        assert(v@.take(n as int) =~= v@);
    }
    r
}

/// The PIN entry screen: the digit carousel, a header line showing the
/// prompt or the (masked) PIN, and the PIN being typed.
pub struct PinEntry {
    pub choice_page: ChoicePage<ChoiceFactoryPIN>,
    pub pin_line: ChangingTextLine,
    pub subprompt_line: ChangingTextLine,
    pub prompt: Vec<char>,
    pub show_real_pin: bool,
    pub textbox: TextBox<MAX_PIN_LENGTH>,
}

impl PinEntry {
    pub open spec fn wf(&self) -> bool {
        self.choice_page.wf() && self.textbox.wf()
    }

    /// What the header line shows: the prompt while the PIN is empty, the
    /// real PIN while it is revealed, masking dots otherwise.
    pub open spec fn spec_header(prompt: Seq<char>, pin: Seq<char>, show_real: bool) -> Seq<
        char,
    > {
        if pin.len() == 0 {
            prompt
        } else if show_real {
            pin
        } else {
            star_seq(pin.len() as int)
        }
    }

    pub fn new(prompt: Vec<char>, subprompt: Vec<char>) -> (r: PinEntry)
        ensures
            r.wf(),
            r.choice_page.page_counter == NUMBER_START_INDEX,
            r.choice_page.carousel,
            r.prompt@ == prompt@,
            r.pin_line.chars@ == prompt@,
            r.subprompt_line.chars@ == subprompt@,
            !r.show_real_pin,
            r.textbox.chars@ == Seq::<char>::empty(),
    {
        let choices = ChoiceFactoryPIN::new();
        let pin_line_text = clone_chars(&prompt);
        PinEntry {
            choice_page: ChoicePage::new(choices).with_initial_page_counter(
                NUMBER_START_INDEX,
            ).with_carousel(true),
            pin_line: ChangingTextLine::center_bold(pin_line_text),
            subprompt_line: ChangingTextLine::center_mono(subprompt),
            prompt,
            show_real_pin: false,
            textbox: TextBox::empty(),
        }
    }

    /// Refreshes the header: prompt and sub-prompt while the PIN is empty,
    /// the masked or revealed PIN otherwise.
    fn update_header_info(&mut self, ctx: &mut EventCtx)
        ensures
            *final(self) == (PinEntry {
                pin_line: final(self).pin_line,
                subprompt_line: final(self).subprompt_line,
                ..*old(self)
            }),
            final(self).pin_line.chars@ == PinEntry::spec_header(
                old(self).prompt@,
                old(self).textbox.chars@,
                old(self).show_real_pin,
            ),
            final(self).pin_line.font == old(self).pin_line.font,
            final(self).subprompt_line.chars@ == old(self).subprompt_line.chars@,
            final(self).subprompt_line.visible == (old(self).textbox.chars@.len() == 0),
            *final(ctx) == (EventCtx { paint_requested: true, ..*old(ctx) }),
    {
        let show_prompts = self.textbox.is_empty();
        let text: Vec<char> = if show_prompts {
            clone_chars(&self.prompt)
        } else if self.show_real_pin {
            clone_chars(self.textbox.content())
        } else {
            stars(self.textbox.len())
        };
        self.pin_line.update_text(text);
        self.subprompt_line.show_or_not(show_prompts);
        ctx.request_paint();
    }

    /// The PIN typed so far.
    pub fn pin(&self) -> (r: &Vec<char>)
        ensures
            r@ == self.textbox.chars@,
    {
        self.textbox.content()
    }

    pub fn is_full(&self) -> (r: bool)
        ensures
            r == (self.textbox.chars@.len() >= MAX_PIN_LENGTH),
    {
        self.textbox.is_full()
    }

    pub fn is_empty(&self) -> (r: bool)
        ensures
            r == (self.textbox.chars@.len() == 0),
    {
        self.textbox.is_empty()
    }

    /// Resolves one button press. Left and right move the carousel; the
    /// middle button acts on the selection: appending the digit (and
    /// re-shuffling the carousel from the externally drawn `entropy`),
    /// deleting the last digit, revealing the PIN, or confirming it. Any
    /// press while the PIN is revealed hides it again.
    pub fn event(&mut self, ctx: &mut EventCtx, event: Event, entropy: u32) -> (r: Option<
        PinEntryMsg,
    >)
        requires
            old(self).wf(),
        ensures
            final(self).wf(),
            final(self).prompt@ == old(self).prompt@,
            ({
                let pre = *old(self);
                let pc = pre.choice_page.page_counter as int;
                match event {
                    Event::Button(ButtonPos::Middle) => {
                        &&& pc == ENTER_INDEX ==> (r == Some(PinEntryMsg::Confirmed)
                            && final(self).textbox.chars@ == pre.textbox.chars@)
                        &&& pc == DELETE_INDEX ==> (r is None && final(self).textbox.chars@ == (
                        if pre.textbox.chars@.len() > 0 {
                            pre.textbox.chars@.drop_last()
                        } else {
                            pre.textbox.chars@
                        }) && !final(self).show_real_pin)
                        &&& pc == SHOW_INDEX ==> (r is None && final(self).show_real_pin
                            && final(self).textbox.chars@ == pre.textbox.chars@
                            && final(self).pin_line.chars@ == PinEntry::spec_header(
                            pre.prompt@,
                            pre.textbox.chars@,
                            true,
                        ))
                        &&& (NUMBER_START_INDEX <= pc < CHOICE_LENGTH
                            && pre.textbox.chars@.len() < MAX_PIN_LENGTH) ==> (r is None
                            && final(self).textbox.chars@ == pre.textbox.chars@.push(
                            digit_char((pc - 3) as nat),
                        ) && NUMBER_START_INDEX <= final(self).choice_page.page_counter
                            < CHOICE_LENGTH && final(self).choice_page.page_counter as int != pc
                            && !final(self).show_real_pin)
                        &&& (NUMBER_START_INDEX <= pc < CHOICE_LENGTH
                            && pre.textbox.chars@.len() >= MAX_PIN_LENGTH) ==> (r is None
                            && final(self).textbox.chars@ == pre.textbox.chars@)
                    },
                    _ => {
                        &&& r is None
                        &&& final(self).textbox.chars@ == pre.textbox.chars@
                        &&& !final(self).show_real_pin
                        &&& final(self).choice_page.page_counter as int == crate::choice::spec_move(
                            pc,
                            CHOICE_LENGTH as int,
                            pre.choice_page.carousel,
                            crate::component::event_pos(event),
                        )
                        &&& final(self).choice_page.carousel == pre.choice_page.carousel
                    },
                }
            }),
    {
        // Any event while the real PIN is shown hides it again.
        if self.show_real_pin {
            self.show_real_pin = false;
            self.update_header_info(ctx);
        }

        let msg = self.choice_page.event(ctx, event);
        if let Some(page_counter) = msg {
            if page_counter == DELETE_INDEX {
                self.textbox.delete_last();
                self.update_header_info(ctx);
            } else if page_counter == SHOW_INDEX {
                self.show_real_pin = true;
                self.update_header_info(ctx);
            } else if page_counter == ENTER_INDEX {
                return Some(PinEntryMsg::Confirmed);
            } else {
                if !self.textbox.is_full() {
                    let digit = crate::digits::digit_char_of((page_counter - 3) as u32);
                    self.textbox.append(digit);
                    // Show a different random digit next, so shoulder
                    // surfing reveals nothing about the typed digits.
                    let new_page_counter = uniform_between_except(
                        NUMBER_START_INDEX as u32,
                        (CHOICE_LENGTH - 1) as u32,
                        page_counter as u32,
                        entropy,
                    );
                    self.choice_page.set_page_counter(ctx, new_page_counter as usize);
                    self.update_header_info(ctx);
                }
            }
        }
        None
    }
}

} // verus!
