//! Choices for entering a mnemonic word: letters to narrow the word down,
//! or the narrowed-down words themselves.
//!
//! The dictionary that produces the available letters and words lives in
//! the device firmware; this module takes the already looked-up letters or
//! words as plain values and builds the choice carousel over them, with a
//! delete option in front.

use vstd::prelude::*;

use crate::buttons::{
    armed_text_details_v, default_three_icons_v, icon_details_v, ButtonLayout, ButtonLayoutV,
    ButtonPos, IconKind,
};
use crate::choice::{ChoiceFactory, ChoicePage};
use crate::choice_item::{ChoiceItem, ChoiceItemV, CHOICE_TEXT_CAPACITY};
use crate::component::{Event, EventCtx};
use crate::ops::Font;
use crate::pin::clone_chars;
use crate::simple_choice::{clone_strings, strings_view};
use crate::textbox::{str_chars, ChangingTextLine, TextBox};

verus! {

/// What a wordlist entry screen reports: the index of the chosen word.
#[derive(Clone, Copy, PartialEq, Eq, Structural, Debug)]
pub enum WordlistEntryMsg {
    WordIndex(usize),
}

/// Which dictionary the words come from.
#[derive(Clone, Copy, PartialEq, Eq, Structural, Debug)]
pub enum WordlistType {
    Bip39,
    Slip39,
}

/// Words are offered once fewer than this many remain.
pub const OFFER_WORDS_THRESHOLD: usize = 10;

/// The delete option sits at the first position.
pub const DELETE_INDEX: usize = 0;

/// The choice the carousel starts at, just after the delete option.
pub const INITIAL_PAGE_COUNTER: usize = 1;

/// At most this many letters can be offered.
pub const MAX_LETTERS_LENGTH: usize = 26;

/// Either the next letters to choose from, or the remaining words.
pub enum ChoiceFactoryWordlist {
    Letters(Vec<char>),
    Words(Vec<String>),
}

/// The delete item's view: an icon with hold-to-confirm, with a left arrow
/// only when the letters carousel wraps around.
pub open spec fn delete_item_v(letters: bool) -> ChoiceItemV {
    ChoiceItemV {
        text: "DELETE"@,
        icon: Some(IconKind::Delete),
        btn_layout: ButtonLayoutV {
            btn_left: if letters {
                Some(icon_details_v(IconKind::ArrowLeft, false))
            } else {
                None
            },
            btn_middle: Some(armed_text_details_v("CONFIRM"@)),
            btn_right: Some(icon_details_v(IconKind::ArrowRight, false)),
        },
        font: Font::Mono,
    }
}

impl ChoiceFactoryWordlist {
    pub fn letters(letter_choices: Vec<char>) -> (r: ChoiceFactoryWordlist)
        ensures
            r == ChoiceFactoryWordlist::Letters(letter_choices),
    {
        ChoiceFactoryWordlist::Letters(letter_choices)
    }

    pub fn words(word_choices: Vec<String>) -> (r: ChoiceFactoryWordlist)
        ensures
            r == ChoiceFactoryWordlist::Words(word_choices),
    {
        ChoiceFactoryWordlist::Words(word_choices)
    }

    pub open spec fn data_fits(&self) -> bool {
        match self {
            ChoiceFactoryWordlist::Letters(l) => l@.len() <= MAX_LETTERS_LENGTH,
            ChoiceFactoryWordlist::Words(w) => w@.len() < OFFER_WORDS_THRESHOLD && forall|i: int|
                0 <= i < w@.len() ==> #[trigger] w@[i]@.len() <= CHOICE_TEXT_CAPACITY,
        }
    }
}

impl ChoiceFactory for ChoiceFactoryWordlist {
    type Action = usize;

    open spec fn spec_count(&self) -> int {
        if self.data_fits() {
            match self {
                ChoiceFactoryWordlist::Letters(l) => l@.len() as int + 1,
                ChoiceFactoryWordlist::Words(w) => w@.len() as int + 1,
            }
        } else {
            0
        }
    }

    open spec fn spec_item(&self, i: int) -> ChoiceItemV {
        match self {
            ChoiceFactoryWordlist::Letters(l) => {
                if i == 0 {
                    delete_item_v(true)
                } else {
                    ChoiceItemV {
                        text: seq![l@[i - 1]],
                        icon: None,
                        btn_layout: default_three_icons_v(),
                        font: Font::Mono,
                    }
                }
            },
            ChoiceFactoryWordlist::Words(w) => {
                if i == 0 {
                    delete_item_v(false)
                } else {
                    ChoiceItemV {
                        text: w@[i - 1]@,
                        icon: None,
                        btn_layout: ButtonLayoutV {
                            btn_right: if i == w@.len() as int {
                                None
                            } else {
                                default_three_icons_v().btn_right
                            },
                            ..default_three_icons_v()
                        },
                        font: Font::Mono,
                    }
                }
            },
        }
    }

    open spec fn spec_action(&self, i: int) -> usize {
        i as usize
    }

    proof fn lemma_items_wf(&self, i: int) {
        reveal_strlit("DELETE");
        assert(self.data_fits());
    }

    fn count(&self) -> (n: usize) {
        match self {
            ChoiceFactoryWordlist::Letters(l) => {
                let n = l.len();
                if n <= MAX_LETTERS_LENGTH {
                    n + 1
                } else {
                    proof {
                        assert(!self.data_fits());
                    }
                    0
                }
            },
            ChoiceFactoryWordlist::Words(w) => {
                let n = w.len();
                if n >= OFFER_WORDS_THRESHOLD {
                    proof {
                        assert(!self.data_fits());
                    }
                    return 0;
                }
                let mut i: usize = 0;
                while i < n
                    invariant
                        *self == ChoiceFactoryWordlist::Words(*w),
                        i <= n,
                        n == w@.len(),
                        n < OFFER_WORDS_THRESHOLD,
                        forall|j: int|
                            0 <= j < i ==> #[trigger] w@[j]@.len() <= CHOICE_TEXT_CAPACITY,
                    decreases n - i,
                {
                    if w[i].as_str().unicode_len() > CHOICE_TEXT_CAPACITY {
                        proof {
                            assert(*self == ChoiceFactoryWordlist::Words(*w));
                            assert(w@[i as int]@.len() > CHOICE_TEXT_CAPACITY);
                            assert(exists|j: int|
                                0 <= j < w@.len() && #[trigger] w@[j]@.len()
                                    > CHOICE_TEXT_CAPACITY);
                            assert(!self.data_fits());
                        }
                        return 0;
                    }
                    i += 1;
                }
                proof {
                    assert(self.data_fits());
                }
                n + 1
            },
        }
    }

    fn get(&self, choice_index: usize) -> (r: (ChoiceItem, usize)) {
        proof {
            reveal_strlit("DELETE");
            assert(self.data_fits());
        }
        match self {
            ChoiceFactoryWordlist::Letters(letter_choices) => {
                if choice_index == DELETE_INDEX {
                    let item = ChoiceItem::new(
                        str_chars("DELETE"),
                        ButtonLayout::arrow_armed_arrow("CONFIRM".to_owned()),
                    ).with_icon(IconKind::Delete);
                    (item, choice_index)
                } else {
                    let letter = letter_choices[choice_index - 1];
                    let mut text: Vec<char> = Vec::new();
                    text.push(letter);
                    proof {
                        assert(text@ =~= seq![letter_choices@[choice_index - 1]]);
                    }
                    (ChoiceItem::new(text, ButtonLayout::default_three_icons()), choice_index)
                }
            },
            ChoiceFactoryWordlist::Words(word_choices) => {
                if choice_index == DELETE_INDEX {
                    let item = ChoiceItem::new(
                        str_chars("DELETE"),
                        ButtonLayout::none_armed_arrow("CONFIRM".to_owned()),
                    ).with_icon(IconKind::Delete);
                    (item, choice_index)
                } else {
                    let word = word_choices[choice_index - 1].as_str();
                    let mut item = ChoiceItem::new(
                        str_chars(word),
                        ButtonLayout::default_three_icons(),
                    );
                    let n = word_choices.len();
                    if choice_index == n {
                        item.set_right_btn(None);
                    }
                    (item, choice_index)
                }
            },
        }
    }
}


/// Longest word in the dictionaries.
pub const MAX_WORD_LENGTH: usize = 10;

/// The narrowing rule: once a lookup leaves fewer than
/// `OFFER_WORDS_THRESHOLD` candidates, the remaining words themselves are
/// offered; otherwise the next available letters are. The owner applies
/// this to the filtered count and calls `update_words` or `update_letters`
/// accordingly.
pub fn should_offer_words(remaining_words: usize) -> (r: bool)
    ensures
        r == (remaining_words < OFFER_WORDS_THRESHOLD),
{
    remaining_words < OFFER_WORDS_THRESHOLD
}

/// Entering a mnemonic word. The dictionary itself lives outside: the
/// screen is handed the available letters (or the remaining words) as
/// plain values, reports when the typed prefix changed, and expects fresh
/// choices for the new prefix in return.
pub struct WordlistEntry {
    pub choice_page: ChoicePage<ChoiceFactoryWordlist>,
    pub chosen_letters: ChangingTextLine,
    pub letter_choices: Vec<char>,
    pub words: Vec<String>,
    pub textbox: TextBox<MAX_WORD_LENGTH>,
    pub offer_words: bool,
    pub wordlist_type: WordlistType,
    /// Set when the typed prefix changed: the owner must look the new
    /// prefix up and call `update_letters` or `update_words`.
    pub needs_update: bool,
}

impl WordlistEntry {
    pub open spec fn wf(&self) -> bool {
        &&& self.choice_page.wf()
        &&& self.textbox.wf()
        &&& (self.offer_words ==> (self.choice_page.choices matches ChoiceFactoryWordlist::Words(
            w,
        ) && strings_view(w@) == strings_view(self.words@)))
        &&& (!self.offer_words ==> (self.choice_page.choices matches
            ChoiceFactoryWordlist::Letters(l) && l@ == self.letter_choices@))
    }

    /// A fresh entry screen offering the given first letters.
    pub fn new(wordlist_type: WordlistType, initial_letters: Vec<char>) -> (r: WordlistEntry)
        requires
            1 <= initial_letters@.len() <= MAX_LETTERS_LENGTH,
        ensures
            r.wf(),
            r.wordlist_type == wordlist_type,
            r.letter_choices@ == initial_letters@,
            !r.offer_words,
            !r.needs_update,
            r.textbox.chars@ == Seq::<char>::empty(),
            r.choice_page.page_counter == INITIAL_PAGE_COUNTER,
            r.choice_page.carousel,
    {
        let letters_copy = clone_chars(&initial_letters);
        let choices = ChoiceFactoryWordlist::letters(letters_copy);
        proof {
            reveal_strlit("_");
        }
        WordlistEntry {
            // Starting at the second choice because of the delete option.
            choice_page: ChoicePage::new(choices).with_incomplete(true).with_carousel(
                true,
            ).with_initial_page_counter(INITIAL_PAGE_COUNTER),
            chosen_letters: ChangingTextLine::center_mono(str_chars("_")),
            letter_choices: initial_letters,
            words: Vec::new(),
            textbox: TextBox::empty(),
            offer_words: false,
            wordlist_type,
            needs_update: false,
        }
    }

    /// The typed prefix, shown with a cursor mark after it.
    fn update_chosen_letters(&mut self, ctx: &mut EventCtx)
        ensures
            *final(self) == (WordlistEntry { chosen_letters: final(self).chosen_letters, ..*old(
                self,
            ) }),
            final(self).chosen_letters.chars@ == old(self).textbox.chars@ + "_"@,
            *final(ctx) == (EventCtx { paint_requested: true, ..*old(ctx) }),
    {
        let mut text = clone_chars(self.textbox.content());
        text.push('_');
        proof {
            reveal_strlit("_");
            assert(old(self).textbox.chars@.push('_') =~= old(self).textbox.chars@ + "_"@);
        }
        self.chosen_letters.update_text(text);
        ctx.request_paint();
    }

    /// Fresh letters for the current prefix, after a lookup.
    pub fn update_letters(&mut self, ctx: &mut EventCtx, letters: Vec<char>)
        requires
            old(self).wf(),
            1 <= letters@.len() <= MAX_LETTERS_LENGTH,
        ensures
            final(self).wf(),
            !final(self).offer_words,
            !final(self).needs_update,
            final(self).letter_choices@ == letters@,
            final(self).textbox == old(self).textbox,
            final(self).choice_page.page_counter == INITIAL_PAGE_COUNTER,
            final(self).choice_page.carousel,
    {
        let letters_copy = clone_chars(&letters);
        self.letter_choices = letters;
        self.offer_words = false;
        self.needs_update = false;
        self.choice_page.reset(
            ctx,
            ChoiceFactoryWordlist::letters(letters_copy),
            Some(INITIAL_PAGE_COUNTER),
            true,
        );
    }

    /// The few remaining words for the current prefix, after a lookup.
    /// Words are not shown as a carousel: the list has a clear end.
    pub fn update_words(&mut self, ctx: &mut EventCtx, words: Vec<String>)
        requires
            old(self).wf(),
            1 <= words@.len(),
            words@.len() < OFFER_WORDS_THRESHOLD,
            forall|i: int|
                0 <= i < words@.len() ==> #[trigger] words@[i]@.len() <= CHOICE_TEXT_CAPACITY,
        ensures
            final(self).wf(),
            final(self).offer_words,
            !final(self).needs_update,
            strings_view(final(self).words@) == strings_view(words@),
            final(self).textbox == old(self).textbox,
            final(self).choice_page.page_counter == INITIAL_PAGE_COUNTER,
            !final(self).choice_page.carousel,
    {
        let words_copy = clone_strings(&words);
        self.words = words;
        self.offer_words = true;
        self.needs_update = false;
        let factory = ChoiceFactoryWordlist::words(words_copy);
        proof {
            assert(factory.data_fits());
        }
        self.choice_page.reset(ctx, factory, Some(INITIAL_PAGE_COUNTER), false);
    }

    /// The word behind a reported index.
    pub fn word_by_index(&self, index: usize) -> (r: &str)
        requires
            (index as int) < self.words@.len(),
        ensures
            r@ == self.words@[index as int]@,
    {
        self.words[index].as_str()
    }


    /// What one button press does, as a relation between the state before
    /// (`pre`) and after (`post`) and the reported message `r`. Only the
    /// middle button selects.
    pub open spec fn event_spec(
        pre: WordlistEntry,
        post: WordlistEntry,
        event: Event,
        r: Option<WordlistEntryMsg>,
    ) -> bool {
        let pc = pre.choice_page.page_counter as int;
        match event {
            Event::Button(ButtonPos::Middle) => {
                &&& (pc == DELETE_INDEX ==> {
                    &&& r is None
                    &&& post.textbox.chars@ == (if pre.textbox.chars@.len() > 0 {
                        pre.textbox.chars@.drop_last()
                    } else {
                        pre.textbox.chars@
                    })
                    &&& post.needs_update
                })
                &&& (pc > 0 && pre.offer_words ==> {
                    &&& r == Some(WordlistEntryMsg::WordIndex((pc - 1) as usize))
                    &&& post.textbox == pre.textbox
                    &&& post.words == pre.words
                    &&& post.choice_page.choices == pre.choice_page.choices
                    &&& post.needs_update == pre.needs_update
                })
                &&& (pc > 0 && !pre.offer_words && pre.textbox.chars@.len() < MAX_WORD_LENGTH
                    ==> {
                    &&& r is None
                    &&& post.textbox.chars@ == pre.textbox.chars@.push(
                        pre.letter_choices@[pc - 1],
                    )
                    &&& post.needs_update
                })
                &&& (pc > 0 && !pre.offer_words && pre.textbox.chars@.len() >= MAX_WORD_LENGTH
                    ==> {
                    &&& r is None
                    &&& post.textbox == pre.textbox
                    &&& post.needs_update == pre.needs_update
                })
            },
            _ => {
                &&& r is None
                &&& post.textbox == pre.textbox
                &&& post.needs_update == pre.needs_update
                &&& post.words == pre.words
                &&& post.choice_page.choices == pre.choice_page.choices
                &&& post.choice_page.carousel == pre.choice_page.carousel
                &&& post.choice_page.page_counter as int == crate::choice::spec_move(
                    pc,
                    pre.choice_page.choices.spec_count(),
                    pre.choice_page.carousel,
                    crate::component::event_pos(event),
                )
            },
        }
    }

    /// Resolves one button press. Left and right move the carousel. The
    /// middle button deletes the last letter (first choice), picks a word
    /// (when words are offered), or appends a letter; after a delete or an
    /// append the prefix changed and `needs_update` asks for fresh choices.
    pub fn event(&mut self, ctx: &mut EventCtx, event: Event) -> (r: Option<WordlistEntryMsg>)
        requires
            old(self).wf(),
        ensures
            final(self).wf(),
            final(self).offer_words == old(self).offer_words,
            WordlistEntry::event_spec(*old(self), *final(self), event, r),
    {
        let msg = self.choice_page.event(ctx, event);
        if let Some(page_counter) = msg {
            if page_counter == DELETE_INDEX {
                // Deleting the last letter; the owner narrows the word
                // list again from the shorter prefix.
                self.textbox.delete_last();
                self.update_chosen_letters(ctx);
                self.needs_update = true;
            } else {
                if self.offer_words {
                    return Some(WordlistEntryMsg::WordIndex(page_counter - 1));
                } else {
                    proof {
                        assert(old(self).choice_page.choices matches
                            ChoiceFactoryWordlist::Letters(l));
                    }
                    if !self.textbox.is_full() {
                        let new_letter = self.letter_choices[page_counter - 1];
                        self.textbox.append(new_letter);
                        self.update_chosen_letters(ctx);
                        self.needs_update = true;
                    }
                }
            }
        }
        None
    }
}

} // verus!
