//! Geometry, chrome widgets, frames and the show-more screen.

use flow_ui::buttons::{ButtonActions, ButtonLayout, ButtonPos};
use flow_ui::component::{Event, EventCtx, ScrollableContent};
use flow_ui::flow_pages::Page;
use flow_ui::frame::{Frame, ScrollableFrame};
use flow_ui::geometry::Rect;
use flow_ui::ops::Font;
use flow_ui::scrollbar::ScrollBar;
use flow_ui::show_more::{CancelInfoConfirmMsg, ShowMore};
use flow_ui::textbox::{str_chars, ChangingTextLine, TextBox};
use flow_ui::buttons::ButtonAction;
use flow_ui::buttons::IconKind;
use flow_ui::choice_item::ChoiceItem;
use flow_ui::title::Title;
use flow_ui::trace::ButtonTrace;

fn content_page(text: &str) -> Page {
    Page::new(
        ButtonLayout::empty(),
        ButtonActions::new(None, None, None),
        Font::Normal,
    )
    .text(text.to_string())
}

#[test]
fn rect_splits_clamp() {
    let r = Rect::new(0, 0, 100, 50);
    let (top, rest) = r.split_top(20);
    assert_eq!(top, Rect::new(0, 0, 100, 20));
    assert_eq!(rest, Rect::new(0, 20, 100, 50));
    let (rest, bottom) = r.split_bottom(20);
    assert_eq!(rest, Rect::new(0, 0, 100, 30));
    assert_eq!(bottom, Rect::new(0, 30, 100, 50));
    let (rest, right) = r.split_right(30);
    assert_eq!(rest, Rect::new(0, 0, 70, 50));
    assert_eq!(right, Rect::new(70, 0, 100, 50));
    // Oversized requests are clamped to what is available.
    let (top, rest) = r.split_top(500);
    assert_eq!(top, r);
    assert_eq!(rest.height(), 0);
}

#[test]
fn scrollbar_caps_its_dots() {
    let mut sb = ScrollBar::new(3);
    assert_eq!(sb.overall_width(), 12);
    sb.set_page_count(100);
    assert_eq!(sb.overall_width(), 24);
    sb.change_page(7);
    assert_eq!(sb.active_page, 7);
    assert!(sb.has_pages());
    sb.set_page_count(1);
    assert!(!sb.has_pages());
}

#[test]
fn title_keeps_text_and_alignment() {
    let mut t = Title::new("HEADER".to_string()).with_centered();
    assert!(t.centered);
    assert_eq!(t.get_text().as_str(), "HEADER");
    t.set_text("OTHER".to_string());
    assert_eq!(t.get_text().as_str(), "OTHER");
    t.place(Rect::new(0, 0, 50, 16));
    assert_eq!(t.area, Rect::new(0, 0, 50, 16));
}

#[test]
fn textbox_respects_capacity() {
    let mut tb: TextBox<3> = TextBox::empty();
    assert!(tb.is_empty());
    tb.append('a');
    tb.append('b');
    tb.append('c');
    assert!(tb.is_full());
    assert_eq!(tb.content(), &vec!['a', 'b', 'c']);
    tb.delete_last();
    assert_eq!(tb.content(), &vec!['a', 'b']);
    tb.delete_last();
    tb.delete_last();
    tb.delete_last();
    assert!(tb.is_empty());
}

#[test]
fn changing_text_line_shows_and_hides() {
    let mut line = ChangingTextLine::center_mono(str_chars("dots"));
    assert_eq!(line.needed_height(), 16);
    line.show_or_not(false);
    assert_eq!(line.needed_height(), 0);
    line.update_text(str_chars("other"));
    assert_eq!(line.chars, str_chars("other"));
}

#[test]
fn frame_places_title_above_content() {
    let mut frame = Frame::new("T".to_string(), content_page("body")).with_title_centered();
    let bounds = Rect::new(0, 0, 100, 100);
    let r = frame.place(bounds);
    assert_eq!(r, bounds);
    assert_eq!(frame.title.area, Rect::new(0, 0, 100, 16));
    assert!(frame.title.centered);
    let mut ctx = EventCtx::new();
    frame.update_title(&mut ctx, "NEW".to_string());
    assert_eq!(frame.title.get_text().as_str(), "NEW");
    assert!(ctx.paint_requested);
    assert_eq!(frame.inner().page_count, 1);
}

#[test]
fn frame_update_content_gives_mutable_access() {
    let mut frame = Frame::new("T".to_string(), content_page("body"));
    let mut ctx = EventCtx::new();
    frame.update_content(&mut ctx).set_char_offset(5);
    assert!(ctx.paint_requested);
    assert_eq!(frame.inner().char_offset, 5);
}

#[test]
fn scrollable_frame_tracks_content_pages() {
    // 70 characters need two sub-pages in the content area.
    let mut frame =
        ScrollableFrame::new(content_page(&"s".repeat(70))).with_title("W".to_string());
    frame.place(Rect::new(0, 0, 100, 100));
    assert_eq!(frame.scrollbar.page_count, 2);
    assert_eq!(frame.inner().active_page(), 0);
    // Two pages: the scrollbar gets a strip right of the title, sized for
    // its two dots plus the gap (8 + 2 pixels).
    assert_eq!(frame.scrollbar.area, Rect::new(90, 0, 100, 16));
    assert_eq!(frame.title.as_ref().unwrap().area, Rect::new(0, 0, 90, 16));

    // Content ignores events, but the scrollbar still follows its state.
    let mut ctx = EventCtx::new();
    frame.content.go_to_next_page();
    frame.event(&mut ctx, Event::Button(ButtonPos::Right));
    assert_eq!(frame.scrollbar.active_page, 1);
    assert!(ctx.paint_requested);
}

#[test]
fn show_more_maps_buttons_to_messages() {
    let mut sm = ShowMore::new(content_page("details"));
    sm.place(Rect::new(0, 0, 100, 100));
    let mut ctx = EventCtx::new();
    assert_eq!(
        sm.event(&mut ctx, Event::Button(ButtonPos::Left)),
        Some(CancelInfoConfirmMsg::Cancelled)
    );
    assert_eq!(
        sm.event(&mut ctx, Event::Button(ButtonPos::Middle)),
        Some(CancelInfoConfirmMsg::Confirmed)
    );
    assert_eq!(
        sm.event(&mut ctx, Event::Button(ButtonPos::Right)),
        Some(CancelInfoConfirmMsg::Info)
    );
}

#[test]
fn show_more_reports_button_actions() {
    let sm = ShowMore::new(content_page("x"));
    let actions = sm.report_btn_actions();
    let names: Vec<&str> = actions.iter().map(|s| s.as_str()).collect();
    assert_eq!(names, vec!["Cancel", "Confirm", "Info"]);
}

#[test]
fn button_layouts_build_expected_visuals() {
    let l = ButtonLayout::cancel_armed_text("CONFIRM".to_string(), "i".to_string());
    assert!(l.btn_left.is_some());
    let middle = l.btn_middle.unwrap();
    assert!(middle.armed);
    let l = ButtonLayout::default_three_icons();
    assert!(l.btn_left.is_some() && l.btn_middle.is_some() && l.btn_right.is_some());
    let copy = l.duplicate();
    assert_eq!(copy, l);
}

#[test]
fn button_action_names() {
    assert_eq!(ButtonAction::PrevPage.string(), "Prev");
    assert_eq!(ButtonAction::Confirm.string(), "Confirm");
    assert_eq!(ButtonAction::empty(), "None");
}

#[test]
fn choice_item_widths_follow_the_font() {
    let item = ChoiceItem::new(str_chars("abcd"), ButtonLayout::default_three_icons());
    // Four monospace glyphs of 9 pixels.
    assert_eq!(item.visible_text_width(), 36);
    assert_eq!(item.width_side(), 36);
    assert_eq!(item.width_center(), 36);
    assert!(item.fits(Rect::new(0, 0, 40, 16)));
    assert!(!item.fits(Rect::new(0, 0, 30, 16)));
    let with_icon = item.with_icon(IconKind::Tick);
    // On a side slot only the 8 pixel icon shows; centered, icon, padding
    // and text add up.
    assert_eq!(with_icon.width_side(), 8);
    assert_eq!(with_icon.width_center(), 8 + 2 + 36);
}

#[test]
fn scrollable_frame_reserves_no_room_for_one_page() {
    // With a title and single-page content, the title keeps the full band.
    let mut frame = ScrollableFrame::new(content_page("hi")).with_title("W".to_string());
    frame.place(Rect::new(0, 0, 100, 100));
    assert_eq!(frame.scrollbar.page_count, 1);
    assert_eq!(frame.scrollbar.area, Rect::new(0, 0, 0, 0));
    assert_eq!(frame.title.as_ref().unwrap().area, Rect::new(0, 0, 100, 16));

    // Without a title, single-page content keeps the whole bounds and
    // multi-page content loses a strip at the top.
    let mut frame = ScrollableFrame::new(content_page("hi"));
    frame.place(Rect::new(0, 0, 100, 100));
    assert_eq!(frame.scrollbar.area, Rect::new(0, 0, 0, 0));
    let mut frame = ScrollableFrame::new(content_page(&"s".repeat(200)));
    frame.place(Rect::new(0, 0, 100, 100));
    assert_eq!(frame.scrollbar.area, Rect::new(0, 0, 100, 6));
    assert!(frame.scrollbar.page_count > 1);
}
