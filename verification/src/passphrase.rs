//! Entering a passphrase: a menu of categories, and per-category character
//! carousels with a way back to the menu.

use vstd::prelude::*;

use crate::buttons::{
    armed_text_details_v, default_three_icons_v, ButtonDetails, ButtonLayout, ButtonLayoutV,
    ButtonPos, IconKind,
};
use crate::choice::{ChoiceFactory, ChoicePage};
use crate::choice_item::{ChoiceItem, ChoiceItemV};
use crate::component::{Event, EventCtx};
use crate::ops::Font;
use crate::pin::{clone_chars, star_seq, stars};
use crate::textbox::{str_chars, ChangingTextLine, TextBox};

verus! {

/// What a passphrase entry screen reports outward.
#[derive(Clone, Copy, PartialEq, Eq, Structural, Debug)]
pub enum PassphraseEntryMsg {
    Confirmed,
    Cancelled,
}

/// Longest accepted passphrase.
pub const MAX_PASSPHRASE_LENGTH: usize = 50;

/// Which choices are currently on the screen.
#[derive(Clone, Copy, PartialEq, Eq, Structural, Debug)]
pub enum ChoiceCategory {
    Menu,
    LowercaseLetter,
    UppercaseLetter,
    Digit,
    SpecialSymbol,
}

/// What selecting a choice does.
#[derive(Clone, Copy, PartialEq, Eq, Structural, Debug)]
pub enum PassphraseAction {
    Menu,
    Show,
    CancelOrDelete,
    Enter,
    Category(ChoiceCategory),
    Character(char),
}

pub const MENU_LENGTH: usize = 8;

pub const SHOW_INDEX: usize = 0;

pub const CANCEL_DELETE_INDEX: usize = 1;

pub const ENTER_INDEX: usize = 2;

pub const LOWERCASE_INDEX: usize = 3;

pub const UPPERCASE_INDEX: usize = 4;

pub const DIGITS_INDEX: usize = 5;

pub const SPECIAL_INDEX: usize = 6;

pub const SPACE_INDEX: usize = 7;

/// The characters a category offers; the menu offers none.
pub open spec fn category_chars(c: ChoiceCategory) -> Seq<char> {
    match c {
        ChoiceCategory::Menu => Seq::empty(),
        ChoiceCategory::LowercaseLetter => "abcdefghijklmnopqrstuvwxyz"@,
        ChoiceCategory::UppercaseLetter => "ABCDEFGHIJKLMNOPQRSTUVWXYZ"@,
        ChoiceCategory::Digit => "0123456789"@,
        ChoiceCategory::SpecialSymbol => "_<>.:@/|\\!()+%&-[]?{},'`\"~$^=*#"@,
    }
}

/// The category's characters as a string slice.
pub fn category_str(current_category: &ChoiceCategory) -> (s: &'static str)
    ensures
        s@ == category_chars(*current_category),
{
    proof {
        reveal_strlit("");
    }
    match current_category {
        ChoiceCategory::Menu => "",
        ChoiceCategory::LowercaseLetter => "abcdefghijklmnopqrstuvwxyz",
        ChoiceCategory::UppercaseLetter => "ABCDEFGHIJKLMNOPQRSTUVWXYZ",
        ChoiceCategory::Digit => "0123456789",
        ChoiceCategory::SpecialSymbol => "_<>.:@/|\\!()+%&-[]?{},'`\"~$^=*#",
    }
}

/// How many choices a category has: its characters, or the menu entries.
/// (The extra back-to-menu choice of the character categories is not
/// counted here.)
pub open spec fn spec_category_length(c: ChoiceCategory) -> int {
    match c {
        ChoiceCategory::Menu => MENU_LENGTH as int,
        _ => category_chars(c).len() as int,
    }
}

/// The character at `index` of a non-menu category.
pub fn get_char(current_category: &ChoiceCategory, index: usize) -> (c: char)
    requires
        *current_category != ChoiceCategory::Menu,
        (index as int) < category_chars(*current_category).len(),
    ensures
        c == category_chars(*current_category)[index as int],
{
    let s = category_str(current_category);
    s.get_char(index)
}

/// The category a menu index switches to.
pub fn get_category_from_menu(page_index: usize) -> (c: ChoiceCategory)
    requires
        LOWERCASE_INDEX <= page_index <= SPECIAL_INDEX,
    ensures
        page_index == LOWERCASE_INDEX ==> c == ChoiceCategory::LowercaseLetter,
        page_index == UPPERCASE_INDEX ==> c == ChoiceCategory::UppercaseLetter,
        page_index == DIGITS_INDEX ==> c == ChoiceCategory::Digit,
        page_index == SPECIAL_INDEX ==> c == ChoiceCategory::SpecialSymbol,
{
    if page_index == LOWERCASE_INDEX {
        ChoiceCategory::LowercaseLetter
    } else if page_index == UPPERCASE_INDEX {
        ChoiceCategory::UppercaseLetter
    } else if page_index == DIGITS_INDEX {
        ChoiceCategory::Digit
    } else {
        ChoiceCategory::SpecialSymbol
    }
}

/// How many choices are available for a category (not counting the extra
/// back-to-menu choice of the character categories).
pub fn get_category_length(current_category: &ChoiceCategory) -> (n: usize)
    ensures
        n as int == spec_category_length(*current_category),
{
    match current_category {
        ChoiceCategory::Menu => MENU_LENGTH,
        _ => {
            let s = category_str(current_category);
            s.unicode_len()
        },
    }
}

/// Whether this index is the back-to-menu choice: the one past the
/// category's characters.
pub fn is_menu_choice(current_category: &ChoiceCategory, page_index: usize) -> (r: bool)
    requires
        *current_category != ChoiceCategory::Menu,
    ensures
        r == (page_index as int == category_chars(*current_category).len()),
{
    let category_length = get_category_length(current_category);
    page_index == category_length
}

/// What menu entry `i` does.
pub open spec fn menu_action(i: int) -> PassphraseAction {
    if i == 0 {
        PassphraseAction::Show
    } else if i == 1 {
        PassphraseAction::CancelOrDelete
    } else if i == 2 {
        PassphraseAction::Enter
    } else if i == 3 {
        PassphraseAction::Category(ChoiceCategory::LowercaseLetter)
    } else if i == 4 {
        PassphraseAction::Category(ChoiceCategory::UppercaseLetter)
    } else if i == 5 {
        PassphraseAction::Category(ChoiceCategory::Digit)
    } else if i == 6 {
        PassphraseAction::Category(ChoiceCategory::SpecialSymbol)
    } else {
        PassphraseAction::Character(' ')
    }
}

/// The label of menu entry `i`; the cancel/delete entry depends on whether
/// anything has been typed.
pub open spec fn menu_text(i: int, is_empty: bool) -> Seq<char> {
    if i == 0 {
        "SHOW"@
    } else if i == 1 {
        if is_empty {
            "CANCEL"@
        } else {
            "DELETE"@
        }
    } else if i == 2 {
        "ENTER"@
    } else if i == 3 {
        "abc"@
    } else if i == 4 {
        "ABC"@
    } else if i == 5 {
        "123"@
    } else if i == 6 {
        "#$!"@
    } else {
        "SPACE"@
    }
}

/// The icon of menu entry `i`.
pub open spec fn menu_icon(i: int, is_empty: bool) -> Option<IconKind> {
    if i == 0 {
        Some(IconKind::Eye)
    } else if i == 1 {
        if is_empty {
            Some(IconKind::Cancel)
        } else {
            Some(IconKind::Delete)
        }
    } else if i == 2 {
        Some(IconKind::Tick)
    } else if i == 7 {
        Some(IconKind::Space)
    } else {
        None
    }
}

/// Whether menu entry `i` confirms with the middle button.
pub open spec fn menu_show_confirm(i: int) -> bool {
    i <= 2
}

/// The carousel layout of menu entry `i`.
pub open spec fn menu_layout_v(i: int) -> ButtonLayoutV {
    if menu_show_confirm(i) {
        ButtonLayoutV {
            btn_middle: Some(armed_text_details_v("CONFIRM"@)),
            ..default_three_icons_v()
        }
    } else {
        default_three_icons_v()
    }
}

/// The view of the back-to-menu choice.
pub open spec fn back_item_v() -> ChoiceItemV {
    ChoiceItemV {
        text: "BACK"@,
        icon: Some(IconKind::ArrowBackUp),
        btn_layout: ButtonLayoutV {
            btn_left: Some(crate::buttons::icon_details_v(IconKind::ArrowLeft, false)),
            btn_middle: Some(armed_text_details_v("RETURN"@)),
            btn_right: Some(crate::buttons::icon_details_v(IconKind::ArrowRight, false)),
        },
        font: Font::Mono,
    }
}

/// Menu choices, or one category's characters followed by a back-to-menu
/// choice.
pub struct ChoiceFactoryPassphrase {
    pub current_category: ChoiceCategory,
    pub is_empty: bool,
}

impl ChoiceFactoryPassphrase {
    pub fn new(current_category: ChoiceCategory, is_empty: bool) -> (r: ChoiceFactoryPassphrase)
        ensures
            r == (ChoiceFactoryPassphrase { current_category, is_empty }),
    {
        ChoiceFactoryPassphrase { current_category, is_empty }
    }
}

impl ChoiceFactory for ChoiceFactoryPassphrase {
    type Action = PassphraseAction;

    open spec fn spec_count(&self) -> int {
        match self.current_category {
            ChoiceCategory::Menu => MENU_LENGTH as int,
            _ => category_chars(self.current_category).len() as int + 1,
        }
    }

    open spec fn spec_item(&self, i: int) -> ChoiceItemV {
        match self.current_category {
            ChoiceCategory::Menu => ChoiceItemV {
                text: menu_text(i, self.is_empty),
                icon: menu_icon(i, self.is_empty),
                btn_layout: menu_layout_v(i),
                font: Font::Mono,
            },
            _ => {
                if i == category_chars(self.current_category).len() {
                    back_item_v()
                } else {
                    ChoiceItemV {
                        text: seq![category_chars(self.current_category)[i]],
                        icon: None,
                        btn_layout: default_three_icons_v(),
                        font: Font::Mono,
                    }
                }
            },
        }
    }

    open spec fn spec_action(&self, i: int) -> PassphraseAction {
        match self.current_category {
            ChoiceCategory::Menu => menu_action(i),
            _ => {
                if i == category_chars(self.current_category).len() {
                    PassphraseAction::Menu
                } else {
                    PassphraseAction::Character(category_chars(self.current_category)[i])
                }
            },
        }
    }

    proof fn lemma_items_wf(&self, i: int) {
        reveal_strlit("SHOW");
        reveal_strlit("CANCEL");
        reveal_strlit("DELETE");
        reveal_strlit("ENTER");
        reveal_strlit("abc");
        reveal_strlit("ABC");
        reveal_strlit("123");
        reveal_strlit("#$!");
        reveal_strlit("SPACE");
        reveal_strlit("BACK");
    }

    fn count(&self) -> (n: usize) {
        match self.current_category {
            ChoiceCategory::Menu => MENU_LENGTH,
            _ => {
                let s = category_str(&self.current_category);
                proof {
                    reveal_strlit("abcdefghijklmnopqrstuvwxyz");
                    reveal_strlit("ABCDEFGHIJKLMNOPQRSTUVWXYZ");
                    reveal_strlit("0123456789");
                    reveal_strlit("_<>.:@/|\\!()+%&-[]?{},'`\"~$^=*#");
                }
                s.unicode_len() + 1
            },
        }
    }

    fn get(&self, choice_index: usize) -> (r: (ChoiceItem, PassphraseAction)) {
        proof {
            reveal_strlit("SHOW");
            reveal_strlit("CANCEL");
            reveal_strlit("DELETE");
            reveal_strlit("ENTER");
            reveal_strlit("abc");
            reveal_strlit("ABC");
            reveal_strlit("123");
            reveal_strlit("#$!");
            reveal_strlit("SPACE");
            reveal_strlit("BACK");
        }
        match self.current_category {
            ChoiceCategory::Menu => self.get_menu_item(choice_index),
            _ => self.get_character_item(choice_index),
        }
    }
}

impl ChoiceFactoryPassphrase {
    /// One menu entry, with hold-to-confirm on the action entries.
    fn get_menu_item(&self, choice_index: usize) -> (r: (ChoiceItem, PassphraseAction))
        requires
            self.current_category == ChoiceCategory::Menu,
            (choice_index as int) < MENU_LENGTH as int,
        ensures
            r.0@ == self.spec_item(choice_index as int),
            r.1 == self.spec_action(choice_index as int),
    {
        proof {
            reveal_strlit("SHOW");
            reveal_strlit("CANCEL");
            reveal_strlit("DELETE");
            reveal_strlit("ENTER");
            reveal_strlit("abc");
            reveal_strlit("ABC");
            reveal_strlit("123");
            reveal_strlit("#$!");
            reveal_strlit("SPACE");
        }
        let text: Vec<char> = if choice_index == SHOW_INDEX {
            str_chars("SHOW")
        } else if choice_index == CANCEL_DELETE_INDEX {
            if self.is_empty {
                str_chars("CANCEL")
            } else {
                str_chars("DELETE")
            }
        } else if choice_index == ENTER_INDEX {
            str_chars("ENTER")
        } else if choice_index == LOWERCASE_INDEX {
            str_chars("abc")
        } else if choice_index == UPPERCASE_INDEX {
            str_chars("ABC")
        } else if choice_index == DIGITS_INDEX {
            str_chars("123")
        } else if choice_index == SPECIAL_INDEX {
            str_chars("#$!")
        } else {
            str_chars("SPACE")
        };
        let action: PassphraseAction = if choice_index == SHOW_INDEX {
            PassphraseAction::Show
        } else if choice_index == CANCEL_DELETE_INDEX {
            PassphraseAction::CancelOrDelete
        } else if choice_index == ENTER_INDEX {
            PassphraseAction::Enter
        } else if choice_index == LOWERCASE_INDEX {
            PassphraseAction::Category(ChoiceCategory::LowercaseLetter)
        } else if choice_index == UPPERCASE_INDEX {
            PassphraseAction::Category(ChoiceCategory::UppercaseLetter)
        } else if choice_index == DIGITS_INDEX {
            PassphraseAction::Category(ChoiceCategory::Digit)
        } else if choice_index == SPECIAL_INDEX {
            PassphraseAction::Category(ChoiceCategory::SpecialSymbol)
        } else {
            PassphraseAction::Character(' ')
        };
        let mut menu_item = ChoiceItem::new(text, ButtonLayout::default_three_icons());
        if choice_index <= ENTER_INDEX {
            let confirm_btn = ButtonDetails::armed_text("CONFIRM".to_owned());
            menu_item.set_middle_btn(Some(confirm_btn));
        }
        if choice_index == SHOW_INDEX {
            menu_item = menu_item.with_icon(IconKind::Eye);
        } else if choice_index == CANCEL_DELETE_INDEX {
            if self.is_empty {
                menu_item = menu_item.with_icon(IconKind::Cancel);
            } else {
                menu_item = menu_item.with_icon(IconKind::Delete);
            }
        } else if choice_index == ENTER_INDEX {
            menu_item = menu_item.with_icon(IconKind::Tick);
        } else if choice_index == SPACE_INDEX {
            menu_item = menu_item.with_icon(IconKind::Space);
        }
        (menu_item, action)
    }

    /// One character of the current category, or the back-to-menu choice
    /// after the last character.
    fn get_character_item(&self, choice_index: usize) -> (r: (ChoiceItem, PassphraseAction))
        requires
            self.current_category != ChoiceCategory::Menu,
            (choice_index as int) <= category_chars(self.current_category).len(),
        ensures
            r.0@ == self.spec_item(choice_index as int),
            r.1 == self.spec_action(choice_index as int),
    {
        proof {
            reveal_strlit("BACK");
        }
        if is_menu_choice(&self.current_category, choice_index) {
            let item = ChoiceItem::new(
                str_chars("BACK"),
                ButtonLayout::arrow_armed_arrow("RETURN".to_owned()),
            ).with_icon(IconKind::ArrowBackUp);
            (item, PassphraseAction::Menu)
        } else {
            let ch = get_char(&self.current_category, choice_index);
            let mut text: Vec<char> = Vec::new();
            text.push(ch);
            proof {
                assert(text@ =~= seq![category_chars(self.current_category)[choice_index as int]]);
            }
            let item = ChoiceItem::new(text, ButtonLayout::default_three_icons());
            (item, PassphraseAction::Character(ch))
        }
    }
}

/// The passphrase entry screen: the category carousel, a dots line, and
/// the passphrase being typed.
pub struct PassphraseEntry {
    pub choice_page: ChoicePage<ChoiceFactoryPassphrase>,
    pub passphrase_dots: ChangingTextLine,
    pub show_plain_passphrase: bool,
    pub textbox: TextBox<MAX_PASSPHRASE_LENGTH>,
    pub current_category: ChoiceCategory,
    pub menu_position: usize,
}

impl PassphraseEntry {
    pub open spec fn wf(&self) -> bool {
        &&& self.choice_page.wf()
        &&& self.textbox.wf()
        &&& (self.menu_position as int) < MENU_LENGTH as int
    }

    pub fn new() -> (r: PassphraseEntry)
        ensures
            r.wf(),
            r.choice_page.choices == (ChoiceFactoryPassphrase {
                current_category: ChoiceCategory::Menu,
                is_empty: true,
            }),
            r.choice_page.page_counter == LOWERCASE_INDEX,
            r.choice_page.carousel,
            r.textbox.chars@ == Seq::<char>::empty(),
            r.passphrase_dots.chars@ == Seq::<char>::empty(),
            !r.show_plain_passphrase,
            r.current_category == ChoiceCategory::Menu,
            r.menu_position == 0,
    {
        PassphraseEntry {
            choice_page: ChoicePage::new(
                ChoiceFactoryPassphrase::new(ChoiceCategory::Menu, true),
            ).with_carousel(true).with_initial_page_counter(LOWERCASE_INDEX),
            passphrase_dots: ChangingTextLine::center_mono(Vec::new()),
            show_plain_passphrase: false,
            textbox: TextBox::empty(),
            current_category: ChoiceCategory::Menu,
            menu_position: 0,
        }
    }

    /// Refreshes the dots line: the plain passphrase when revealed, one dot
    /// per character otherwise.
    fn update_passphrase_dots(&mut self, ctx: &mut EventCtx)
        ensures
            *final(self) == (PassphraseEntry {
                passphrase_dots: final(self).passphrase_dots,
                ..*old(self)
            }),
            old(self).show_plain_passphrase ==> final(self).passphrase_dots.chars@ == old(
                self,
            ).textbox.chars@,
            !old(self).show_plain_passphrase ==> final(self).passphrase_dots.chars@ == star_seq(
                old(self).textbox.chars@.len() as int,
            ),
            *final(ctx) == (EventCtx { paint_requested: true, ..*old(ctx) }),
    {
        let text_to_show = if self.show_plain_passphrase {
            clone_chars(self.textbox.content())
        } else {
            stars(self.textbox.len())
        };
        self.passphrase_dots.update_text(text_to_show);
        ctx.request_paint();
    }

    /// Shows the menu again, at the remembered menu position.
    fn show_menu_page(&mut self, ctx: &mut EventCtx)
        requires
            old(self).wf(),
        ensures
            final(self).wf(),
            *final(self) == (PassphraseEntry { choice_page: final(self).choice_page, ..*old(self) }),
            final(self).choice_page.choices == (ChoiceFactoryPassphrase {
                current_category: ChoiceCategory::Menu,
                is_empty: old(self).textbox.chars@.len() == 0,
            }),
            final(self).choice_page.page_counter == old(self).menu_position,
            final(self).choice_page.carousel,
            *final(ctx) == (EventCtx { paint_requested: true, ..*old(ctx) }),
    {
        let is_empty = self.textbox.is_empty();
        let menu_choices = ChoiceFactoryPassphrase::new(ChoiceCategory::Menu, is_empty);
        let menu_position = self.menu_position;
        self.choice_page.reset(ctx, menu_choices, Some(menu_position), true);
    }

    /// Shows the current character category, starting at its first choice.
    fn show_category_page(&mut self, ctx: &mut EventCtx)
        requires
            old(self).wf(),
        ensures
            final(self).wf(),
            *final(self) == (PassphraseEntry { choice_page: final(self).choice_page, ..*old(self) }),
            final(self).choice_page.choices == (ChoiceFactoryPassphrase {
                current_category: old(self).current_category,
                is_empty: old(self).textbox.chars@.len() == 0,
            }),
            final(self).choice_page.page_counter == 0,
            final(self).choice_page.carousel,
            *final(ctx) == (EventCtx { paint_requested: true, ..*old(ctx) }),
    {
        let is_empty = self.textbox.is_empty();
        let category_choices = ChoiceFactoryPassphrase::new(self.current_category, is_empty);
        self.choice_page.reset(ctx, category_choices, Some(0), true);
    }

    /// The passphrase typed so far.
    pub fn passphrase(&self) -> (r: &Vec<char>)
        ensures
            r@ == self.textbox.chars@,
    {
        self.textbox.content()
    }

    pub fn is_empty(&self) -> (r: bool)
        ensures
            r == (self.textbox.chars@.len() == 0),
    {
        self.textbox.is_empty()
    }

    pub fn is_full(&self) -> (r: bool)
        ensures
            r == (self.textbox.chars@.len() >= MAX_PASSPHRASE_LENGTH),
    {
        self.textbox.is_full()
    }


    /// What one button press does, as a relation between the state before
    /// (`pre`) and after (`post`) and the reported message `r`. Only the
    /// middle button selects; its meaning is the action of the selected
    /// choice.
    pub open spec fn event_spec(
        pre: PassphraseEntry,
        post: PassphraseEntry,
        event: Event,
        r: Option<PassphraseEntryMsg>,
    ) -> bool {
        let pc = pre.choice_page.page_counter as int;
        let act = pre.choice_page.choices.spec_action(pc);
        match event {
            Event::Button(ButtonPos::Middle) => {
                &&& (act == PassphraseAction::Enter ==> {
                    &&& r == Some(PassphraseEntryMsg::Confirmed)
                    &&& post.textbox.chars@ == pre.textbox.chars@
                })
                &&& (act == PassphraseAction::CancelOrDelete && pre.textbox.chars@.len() == 0
                    ==> {
                    &&& r == Some(PassphraseEntryMsg::Cancelled)
                    &&& post.textbox.chars@ == pre.textbox.chars@
                })
                &&& (act == PassphraseAction::CancelOrDelete && pre.textbox.chars@.len() > 0 ==> {
                    &&& r is None
                    &&& post.textbox.chars@ == pre.textbox.chars@.drop_last()
                    &&& (pre.textbox.chars@.len() == 1 ==> post.choice_page.choices
                        == (ChoiceFactoryPassphrase {
                        current_category: ChoiceCategory::Menu,
                        is_empty: true,
                    }) && post.menu_position == CANCEL_DELETE_INDEX)
                })
                &&& (act == PassphraseAction::Show ==> {
                    &&& r is None
                    &&& post.show_plain_passphrase
                    &&& post.passphrase_dots.chars@ == pre.textbox.chars@
                    &&& post.textbox.chars@ == pre.textbox.chars@
                })
                &&& (act matches PassphraseAction::Category(c) ==> {
                    &&& r is None
                    &&& post.current_category == act->Category_0
                    &&& post.choice_page.choices == (ChoiceFactoryPassphrase {
                        current_category: act->Category_0,
                        is_empty: pre.textbox.chars@.len() == 0,
                    })
                    &&& post.choice_page.page_counter == 0
                    &&& post.menu_position as int == pc
                    &&& post.textbox.chars@ == pre.textbox.chars@
                })
                &&& (act == PassphraseAction::Menu ==> {
                    &&& r is None
                    &&& post.current_category == ChoiceCategory::Menu
                    &&& post.choice_page.choices == (ChoiceFactoryPassphrase {
                        current_category: ChoiceCategory::Menu,
                        is_empty: pre.textbox.chars@.len() == 0,
                    })
                    &&& post.choice_page.page_counter == pre.menu_position
                    &&& post.textbox.chars@ == pre.textbox.chars@
                })
                &&& (act matches PassphraseAction::Character(ch) && pre.textbox.chars@.len()
                    < MAX_PASSPHRASE_LENGTH ==> {
                    &&& r is None
                    &&& post.textbox.chars@ == pre.textbox.chars@.push(act->Character_0)
                })
                &&& (act matches PassphraseAction::Character(ch) && pre.textbox.chars@.len()
                    >= MAX_PASSPHRASE_LENGTH ==> {
                    &&& r is None
                    &&& post.textbox.chars@ == pre.textbox.chars@
                })
            },
            _ => {
                &&& r is None
                &&& post.textbox.chars@ == pre.textbox.chars@
                &&& post.current_category == pre.current_category
                &&& post.choice_page.choices == pre.choice_page.choices
                &&& post.choice_page.carousel == pre.choice_page.carousel
                &&& post.choice_page.page_counter as int == crate::choice::spec_move(
                    pc,
                    pre.choice_page.choices.spec_count(),
                    pre.choice_page.carousel,
                    crate::component::event_pos(event),
                )
            },
        }
    }

    /// Resolves one button press. Left and right move the carousel; the
    /// middle button acts on the selection: typing a character, switching
    /// category, showing, deleting (cancelling once empty), or confirming.
    /// Any press while the passphrase is revealed hides it again.
    pub fn event(&mut self, ctx: &mut EventCtx, event: Event) -> (r: Option<PassphraseEntryMsg>)
        requires
            old(self).wf(),
        ensures
            final(self).wf(),
            PassphraseEntry::event_spec(*old(self), *final(self), event, r),
    {
        // Any event while the plain passphrase is shown hides it again.
        if self.show_plain_passphrase {
            self.show_plain_passphrase = false;
            self.update_passphrase_dots(ctx);
        }

        let action = self.choice_page.event(ctx, event);
        if let Some(action) = action {
            match action {
                PassphraseAction::CancelOrDelete => {
                    if self.textbox.is_empty() {
                        return Some(PassphraseEntryMsg::Cancelled);
                    } else {
                        self.textbox.delete_last();
                        self.update_passphrase_dots(ctx);
                        if self.textbox.is_empty() {
                            // The menu entry turns from DELETE to CANCEL.
                            self.menu_position = CANCEL_DELETE_INDEX;
                            self.show_menu_page(ctx);
                        }
                        ctx.request_paint();
                    }
                },
                PassphraseAction::Enter => {
                    return Some(PassphraseEntryMsg::Confirmed);
                },
                PassphraseAction::Show => {
                    self.show_plain_passphrase = true;
                    self.update_passphrase_dots(ctx);
                    ctx.request_paint();
                },
                PassphraseAction::Category(category) => {
                    self.menu_position = self.choice_page.page_index();
                    proof {
                        assert(old(self).choice_page.choices.current_category
                            == ChoiceCategory::Menu);
                        assert((old(self).choice_page.page_counter as int) < MENU_LENGTH as int);
                    }
                    self.current_category = category;
                    self.show_category_page(ctx);
                    ctx.request_paint();
                },
                PassphraseAction::Menu => {
                    self.current_category = ChoiceCategory::Menu;
                    self.show_menu_page(ctx);
                    ctx.request_paint();
                },
                PassphraseAction::Character(ch) => {
                    if !self.textbox.is_full() {
                        self.textbox.append(ch);
                        self.update_passphrase_dots(ctx);
                        ctx.request_paint();
                    }
                },
            }
        }
        None
    }
}

} // verus!
