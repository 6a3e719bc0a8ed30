//! Choice carousels and the PIN / passphrase / word / number entry screens.

use flow_ui::buttons::{ButtonActions, ButtonLayout, ButtonPos};
use flow_ui::choice::{ChoiceFactory, ChoicePage};
use flow_ui::component::{Event, EventCtx};
use flow_ui::digits::u32_digits;
use flow_ui::number_input::NumberInput;
use flow_ui::passphrase::{
    get_category_from_menu, get_category_length, get_char, is_menu_choice, ChoiceCategory,
    PassphraseEntry, PassphraseEntryMsg,
};
use flow_ui::pin::{uniform_between_except, PinEntry, PinEntryMsg};
use flow_ui::simple_choice::SimpleChoice;
use flow_ui::textbox::str_chars;
use flow_ui::wordlist::{should_offer_words, ChoiceFactoryWordlist};

fn left() -> Event {
    Event::Button(ButtonPos::Left)
}

fn right() -> Event {
    Event::Button(ButtonPos::Right)
}

fn middle() -> Event {
    Event::Button(ButtonPos::Middle)
}

#[test]
fn digits_render_exactly() {
    assert_eq!(u32_digits(0), vec!['0']);
    assert_eq!(u32_digits(7), vec!['7']);
    assert_eq!(u32_digits(123), vec!['1', '2', '3']);
    assert_eq!(u32_digits(1000), vec!['1', '0', '0', '0']);
    assert_eq!(
        u32_digits(4294967295),
        vec!['4', '2', '9', '4', '9', '6', '7', '2', '9', '5']
    );
}

#[test]
fn uniform_between_except_avoids_the_exception() {
    for draw in 0..40 {
        let r = uniform_between_except(3, 12, 7, draw);
        assert!((3..=12).contains(&r));
        assert_ne!(r, 7);
    }
}

#[test]
fn number_input_reports_selection() {
    let mut n = NumberInput::new(1, 5, 3);
    let mut ctx = EventCtx::new();
    assert_eq!(n.event(&mut ctx, middle()), Some(3));
    assert_eq!(n.event(&mut ctx, left()), None);
    assert_eq!(n.event(&mut ctx, middle()), Some(2));
    assert_eq!(n.event(&mut ctx, right()), None);
    assert_eq!(n.event(&mut ctx, right()), None);
    assert_eq!(n.event(&mut ctx, middle()), Some(4));
}

#[test]
fn number_input_stops_at_the_ends() {
    let mut n = NumberInput::new(2, 3, 2);
    let mut ctx = EventCtx::new();
    // Already at the first choice: left is ignored without a carousel.
    assert_eq!(n.event(&mut ctx, left()), None);
    assert_eq!(n.event(&mut ctx, middle()), Some(2));
    assert_eq!(n.event(&mut ctx, right()), None);
    assert_eq!(n.event(&mut ctx, right()), None);
    assert_eq!(n.event(&mut ctx, middle()), Some(3));
}

#[test]
fn number_input_labels_are_decimal() {
    let n = NumberInput::new(8, 12, 8);
    let (item, value) = n.choice_page.choices.get(2);
    assert_eq!(value, 10);
    assert_eq!(item.text, vec!['1', '0']);
    // The first choice cannot go further left.
    let (first, _) = n.choice_page.choices.get(0);
    assert!(first.btn_layout.btn_left.is_none());
    let (last, _) = n.choice_page.choices.get(4);
    assert!(last.btn_layout.btn_right.is_none());
}

#[test]
fn choice_page_carousel_wraps() {
    let factory = flow_ui::simple_choice::ChoiceFactorySimple::new(
        vec!["a".to_string(), "b".to_string(), "c".to_string()],
        true,
    );
    let mut page = ChoicePage::new(factory).with_carousel(true);
    let mut ctx = EventCtx::new();
    assert_eq!(page.page_index(), 0);
    page.event(&mut ctx, left());
    assert_eq!(page.page_index(), 2);
    page.event(&mut ctx, right());
    assert_eq!(page.page_index(), 0);
}

#[test]
fn simple_choice_reports_index_and_string() {
    let mut sc = SimpleChoice::new(
        vec!["YES".to_string(), "NO".to_string()],
        false,
    )
    .with_return_index();
    let mut ctx = EventCtx::new();
    assert_eq!(sc.event(&mut ctx, middle()), Some(0));
    assert_eq!(sc.event(&mut ctx, right()), None);
    assert_eq!(sc.event(&mut ctx, middle()), Some(1));
    assert_eq!(sc.result_by_index(1), "NO");
    assert!(sc.return_index);
}

#[test]
fn pin_entry_appends_and_reshuffles() {
    let mut pin = PinEntry::new(str_chars("ENTER PIN"), str_chars(""));
    let mut ctx = EventCtx::new();
    // The carousel starts at digit 0 (index 3); selecting appends '0'.
    let r = pin.event(&mut ctx, middle(), 0);
    assert!(r.is_none());
    assert_eq!(pin.pin(), &vec!['0']);
    // With draw 0 the next highlighted digit is deterministic: index 4.
    assert_eq!(pin.choice_page.page_counter, 4);
    // The header shows one masking dot.
    assert_eq!(pin.pin_line.chars, vec!['*']);
}

#[test]
fn pin_entry_enter_confirms_and_keeps_the_pin() {
    let mut pin = PinEntry::new(str_chars("PIN"), str_chars(""));
    let mut ctx = EventCtx::new();
    // Type '0' (draw 0 moves the highlight to index 4), then walk left to
    // ENTER at index 2 and confirm.
    pin.event(&mut ctx, middle(), 0);
    pin.event(&mut ctx, left(), 0);
    pin.event(&mut ctx, left(), 0);
    assert_eq!(pin.event(&mut ctx, middle(), 0), Some(PinEntryMsg::Confirmed));
    assert_eq!(pin.pin(), &vec!['0']);
}

#[test]
fn pin_entry_delete_removes_last_digit() {
    let mut pin = PinEntry::new(str_chars("PIN"), str_chars("sub"));
    let mut ctx = EventCtx::new();
    pin.event(&mut ctx, middle(), 0); // append '0', highlight moves to 4
    pin.event(&mut ctx, middle(), 0); // append '1', highlight moves to 3
    assert_eq!(pin.pin(), &vec!['0', '1']);
    // Walk from index 3 to DELETE at index 0.
    pin.event(&mut ctx, left(), 0);
    pin.event(&mut ctx, left(), 0);
    pin.event(&mut ctx, left(), 0);
    assert_eq!(pin.choice_page.page_counter, 0);
    let r = pin.event(&mut ctx, middle(), 0);
    assert!(r.is_none());
    assert_eq!(pin.pin(), &vec!['0']);
}

#[test]
fn pin_entry_show_reveals_until_next_press() {
    let mut pin = PinEntry::new(str_chars("PIN"), str_chars(""));
    let mut ctx = EventCtx::new();
    pin.event(&mut ctx, middle(), 5); // append '0'
    // Walk to SHOW (index 1). With draw 5 the highlight went to index 9.
    assert_eq!(pin.choice_page.page_counter, 9);
    for _ in 0..8 {
        pin.event(&mut ctx, left(), 0);
    }
    assert_eq!(pin.choice_page.page_counter, 1);
    pin.event(&mut ctx, middle(), 0);
    assert!(pin.show_real_pin);
    assert_eq!(pin.pin_line.chars, vec!['0']);
    // Any further press hides the PIN again.
    pin.event(&mut ctx, right(), 0);
    assert!(!pin.show_real_pin);
    assert_eq!(pin.pin_line.chars, vec!['*']);
}

#[test]
fn passphrase_type_show_delete_cancel() {
    let mut p = PassphraseEntry::new();
    let mut ctx = EventCtx::new();
    // The menu starts at the lowercase category.
    assert_eq!(p.choice_page.page_counter, flow_ui::passphrase::LOWERCASE_INDEX);
    let r = p.event(&mut ctx, middle());
    assert!(r.is_none());
    assert_eq!(p.current_category, ChoiceCategory::LowercaseLetter);
    assert_eq!(p.choice_page.page_counter, 0);

    // Select 'a', then 'b' (one step right).
    p.event(&mut ctx, middle());
    assert_eq!(p.passphrase(), &vec!['a']);
    p.event(&mut ctx, right());
    p.event(&mut ctx, middle());
    assert_eq!(p.passphrase(), &vec!['a', 'b']);
    assert_eq!(p.passphrase_dots.chars, vec!['*', '*']);

    // One step left from 'b' wraps... no: index 1 -> 0; go left twice to
    // wrap to the BACK choice at index 26.
    p.event(&mut ctx, left());
    p.event(&mut ctx, left());
    assert_eq!(p.choice_page.page_counter, 26);
    let r = p.event(&mut ctx, middle());
    assert!(r.is_none());
    assert_eq!(p.current_category, ChoiceCategory::Menu);
    // Back in the menu at the remembered position (lowercase).
    assert_eq!(p.choice_page.page_counter, flow_ui::passphrase::LOWERCASE_INDEX);

    // Walk to the delete entry and delete both characters.
    p.event(&mut ctx, left());
    p.event(&mut ctx, left());
    assert_eq!(p.choice_page.page_counter, flow_ui::passphrase::CANCEL_DELETE_INDEX);
    p.event(&mut ctx, middle());
    assert_eq!(p.passphrase(), &vec!['a']);
    p.event(&mut ctx, middle());
    assert!(p.is_empty());
    // Deleting the last character re-opens the menu on the cancel entry.
    assert_eq!(p.choice_page.page_counter, flow_ui::passphrase::CANCEL_DELETE_INDEX);
    // Now the same entry cancels.
    let r = p.event(&mut ctx, middle());
    assert_eq!(r, Some(PassphraseEntryMsg::Cancelled));
}

#[test]
fn passphrase_enter_confirms() {
    let mut p = PassphraseEntry::new();
    let mut ctx = EventCtx::new();
    // From the lowercase entry (index 3) one step left reaches ENTER.
    p.event(&mut ctx, left());
    assert_eq!(p.event(&mut ctx, middle()), Some(PassphraseEntryMsg::Confirmed));
}

#[test]
fn passphrase_space_and_digits() {
    let mut p = PassphraseEntry::new();
    let mut ctx = EventCtx::new();
    // index 3 -> 5 (digits category).
    p.event(&mut ctx, right());
    p.event(&mut ctx, right());
    p.event(&mut ctx, middle());
    assert_eq!(p.current_category, ChoiceCategory::Digit);
    p.event(&mut ctx, middle());
    assert_eq!(p.passphrase(), &vec!['0']);
}

#[test]
fn passphrase_helpers() {
    assert_eq!(
        get_char(&ChoiceCategory::LowercaseLetter, 0),
        'a'
    );
    assert_eq!(get_char(&ChoiceCategory::UppercaseLetter, 25), 'Z');
    assert_eq!(get_char(&ChoiceCategory::Digit, 9), '9');
    assert_eq!(get_category_length(&ChoiceCategory::LowercaseLetter), 26);
    assert_eq!(get_category_length(&ChoiceCategory::Digit), 10);
    assert_eq!(get_category_length(&ChoiceCategory::SpecialSymbol), 31);
    assert_eq!(get_category_length(&ChoiceCategory::Menu), 8);
    assert_eq!(
        get_category_from_menu(flow_ui::passphrase::DIGITS_INDEX),
        ChoiceCategory::Digit
    );
    assert!(is_menu_choice(&ChoiceCategory::Digit, 10));
    assert!(!is_menu_choice(&ChoiceCategory::Digit, 9));
}

#[test]
fn wordlist_letters_offer_delete_then_letters() {
    let factory = ChoiceFactoryWordlist::letters(vec!['b', 'o']);
    assert_eq!(factory.count(), 3);
    let (delete_item, action) = factory.get(0);
    assert_eq!(action, 0);
    assert_eq!(delete_item.text, str_chars("DELETE"));
    let (letter_item, action) = factory.get(1);
    assert_eq!(action, 1);
    assert_eq!(letter_item.text, vec!['b']);
}

#[test]
fn wordlist_words_trim_the_last_arrow() {
    let factory =
        ChoiceFactoryWordlist::words(vec!["apple".to_string(), "pear".to_string()]);
    assert_eq!(factory.count(), 3);
    let (word_item, action) = factory.get(2);
    assert_eq!(action, 2);
    assert_eq!(word_item.text, str_chars("pear"));
    assert!(word_item.btn_layout.btn_right.is_none());
    let (first_word, _) = factory.get(1);
    assert!(first_word.btn_layout.btn_right.is_some());
}

#[test]
fn pin_factory_items() {
    let factory = flow_ui::pin::ChoiceFactoryPIN::new();
    assert_eq!(factory.count(), 13);
    let (delete_item, _) = factory.get(0);
    assert_eq!(delete_item.text, str_chars("DELETE"));
    let (digit_item, action) = factory.get(12);
    assert_eq!(digit_item.text, vec!['9']);
    assert_eq!(action, 12);
}

#[test]
fn wordlist_entry_appends_letters_and_requests_lookup() {
    let mut w = flow_ui::wordlist::WordlistEntry::new(
        flow_ui::wordlist::WordlistType::Bip39,
        vec!['a', 'b', 'c'],
    );
    let mut ctx = EventCtx::new();
    // The carousel starts just after the delete option, on 'a'.
    let r = w.event(&mut ctx, middle());
    assert!(r.is_none());
    assert_eq!(w.textbox.chars, vec!['a']);
    assert!(w.needs_update);
    assert_eq!(w.chosen_letters.chars, vec!['a', '_']);

    // The owner looks "a" up and narrows the choices down to words.
    w.update_words(&mut ctx, vec!["able".to_string(), "acid".to_string()]);
    assert!(w.offer_words);
    assert!(!w.needs_update);

    // Choosing the second word reports its index.
    let r = w.event(&mut ctx, right());
    assert!(r.is_none());
    let r = w.event(&mut ctx, middle());
    assert_eq!(
        r,
        Some(flow_ui::wordlist::WordlistEntryMsg::WordIndex(1))
    );
    assert_eq!(w.word_by_index(1), "acid");
}

#[test]
fn wordlist_entry_delete_requests_lookup() {
    let mut w = flow_ui::wordlist::WordlistEntry::new(
        flow_ui::wordlist::WordlistType::Slip39,
        vec!['x', 'y'],
    );
    let mut ctx = EventCtx::new();
    w.event(&mut ctx, middle()); // type 'x'
    w.update_letters(&mut ctx, vec!['p', 'q']);
    // Walk back to the delete option and use it.
    let r = w.event(&mut ctx, left());
    assert!(r.is_none());
    assert_eq!(w.choice_page.page_counter, 0);
    let r = w.event(&mut ctx, middle());
    assert!(r.is_none());
    assert!(w.textbox.chars.is_empty());
    assert!(w.needs_update);
    assert_eq!(w.chosen_letters.chars, vec!['_']);
}

#[test]
fn passphrase_enter_keeps_the_text() {
    let mut p = PassphraseEntry::new();
    let mut ctx = EventCtx::new();
    // Type 'a', go BACK to the menu, then ENTER.
    p.event(&mut ctx, middle());
    p.event(&mut ctx, middle());
    p.event(&mut ctx, left());
    p.event(&mut ctx, middle());
    assert_eq!(p.current_category, ChoiceCategory::Menu);
    p.event(&mut ctx, left());
    assert_eq!(p.choice_page.page_counter, flow_ui::passphrase::ENTER_INDEX);
    assert_eq!(p.event(&mut ctx, middle()), Some(PassphraseEntryMsg::Confirmed));
    assert_eq!(p.passphrase(), &vec!['a']);
}

#[test]
fn wordlist_threshold_decides_words_or_letters() {
    assert!(should_offer_words(0));
    assert!(should_offer_words(9));
    assert!(!should_offer_words(10));
    assert!(!should_offer_words(250));
}

#[test]
fn wordlist_entry_ignores_letters_past_the_longest_word() {
    let mut w = flow_ui::wordlist::WordlistEntry::new(
        flow_ui::wordlist::WordlistType::Bip39,
        vec!['a'],
    );
    let mut ctx = EventCtx::new();
    // The longest dictionary word has 10 letters; an 11th is ignored.
    for _ in 0..10 {
        w.event(&mut ctx, middle());
        w.update_letters(&mut ctx, vec!['a']);
    }
    assert_eq!(w.textbox.chars.len(), 10);
    let r = w.event(&mut ctx, middle());
    assert!(r.is_none());
    assert_eq!(w.textbox.chars.len(), 10);
}
