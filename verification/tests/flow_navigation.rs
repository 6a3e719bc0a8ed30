//! Flow navigation: sub-page paging, page changes, terminal messages and
//! scrollbar synchronization.

use flow_ui::buttons::{ButtonAction, ButtonActions, ButtonLayout, ButtonPos};
use flow_ui::component::{Event, EventCtx};
use flow_ui::flow::{Flow, FlowMsg};
use flow_ui::flow_pages::{FlowPages, PageSource, PageTemplate, TemplatePages};
use flow_ui::layout::LayoutFit;
use flow_ui::geometry::Rect;
use flow_ui::ops::Font;

fn template(text: &str, actions: ButtonActions) -> PageTemplate {
    PageTemplate {
        title: None,
        text: text.to_string(),
        font: Font::Normal,
        btn_layout: ButtonLayout::empty(),
        btn_actions: actions,
    }
}

/// Three logical pages: page 0 needs 2 sub-pages inside 100x88 (70 > 60
/// characters), pages 1 and 2 need one each.
fn example_flow() -> Flow<TemplatePages> {
    let templates = vec![
        template(
            &"a".repeat(70),
            ButtonActions::new(None, None, Some(ButtonAction::NextPage)),
        ),
        template(
            "second page",
            ButtonActions::new(
                Some(ButtonAction::PrevPage),
                None,
                Some(ButtonAction::LastPage),
            ),
        ),
        template(
            "third page",
            ButtonActions::new(
                Some(ButtonAction::FirstPage),
                Some(ButtonAction::Confirm),
                Some(ButtonAction::Info),
            ),
        ),
    ];
    let pages = FlowPages::new(TemplatePages::new(templates), 3);
    Flow::new(pages)
}

const BOUNDS: (i16, i16, i16, i16) = (0, 0, 100, 100);

fn bounds() -> Rect {
    Rect::new(BOUNDS.0, BOUNDS.1, BOUNDS.2, BOUNDS.3)
}

#[test]
fn example_scenario() {
    let mut flow = example_flow();
    flow.place(bounds());

    // 2 + 1 + 1 sub-pages in total.
    assert_eq!(flow.scrollbar.page_count, 4);
    assert_eq!(flow.scrollbar.active_page, 0);
    assert_eq!(flow.page_counter, 0);
    assert_eq!(flow.current_page.page_count, 2);
    assert_eq!(flow.current_page.current_page, 0);

    let mut ctx = EventCtx::new();

    // Right: consumed by page 0, which still has a sub-page.
    let r = flow.event(&mut ctx, Event::Button(ButtonPos::Right));
    assert!(r.is_none());
    assert_eq!(flow.page_counter, 0);
    assert_eq!(flow.current_page.current_page, 1);
    assert_eq!(flow.scrollbar.active_page, 1);
    assert!(ctx.paint_requested);

    // Right again: NextPage action moves to logical page 1.
    let r = flow.event(&mut ctx, Event::Button(ButtonPos::Right));
    assert!(r.is_none());
    assert_eq!(flow.page_counter, 1);
    assert_eq!(flow.current_page.current_page, 0);
    assert_eq!(flow.scrollbar.active_page, 2);

    // LastPage action jumps to the final page.
    let r = flow.event(&mut ctx, Event::Button(ButtonPos::Right));
    assert!(r.is_none());
    assert_eq!(flow.page_counter, 2);
    assert_eq!(flow.scrollbar.active_page, 3);

    // Confirm produces exactly the Confirmed message.
    let r = flow.event(&mut ctx, Event::Button(ButtonPos::Middle));
    assert_eq!(r, Some(FlowMsg::Confirmed));
    assert_eq!(flow.page_counter, 2);
}

#[test]
fn left_moves_back_within_a_page() {
    let mut flow = example_flow();
    flow.place(bounds());
    let mut ctx = EventCtx::new();
    flow.event(&mut ctx, Event::Button(ButtonPos::Right));
    assert_eq!(flow.current_page.current_page, 1);

    // Left from sub-page 1 returns to sub-page 0 without changing the
    // logical page.
    let r = flow.event(&mut ctx, Event::Button(ButtonPos::Left));
    assert!(r.is_none());
    assert_eq!(flow.page_counter, 0);
    assert_eq!(flow.current_page.current_page, 0);
    assert_eq!(flow.scrollbar.active_page, 0);
}

#[test]
fn prev_page_lands_on_first_sub_page() {
    let mut flow = example_flow();
    flow.place(bounds());
    let mut ctx = EventCtx::new();
    // To sub-page 1, then to page 1.
    flow.event(&mut ctx, Event::Button(ButtonPos::Right));
    flow.event(&mut ctx, Event::Button(ButtonPos::Right));
    assert_eq!(flow.page_counter, 1);

    // PrevPage re-derives page 0 freshly: it lands on sub-page 0 even
    // though page 0 has two sub-pages.
    let r = flow.event(&mut ctx, Event::Button(ButtonPos::Left));
    assert!(r.is_none());
    assert_eq!(flow.page_counter, 0);
    assert_eq!(flow.current_page.current_page, 0);
    assert_eq!(flow.scrollbar.active_page, 0);
}

#[test]
fn first_page_action_returns_to_start() {
    let mut flow = example_flow();
    flow.place(bounds());
    let mut ctx = EventCtx::new();
    flow.event(&mut ctx, Event::Button(ButtonPos::Right));
    flow.event(&mut ctx, Event::Button(ButtonPos::Right));
    flow.event(&mut ctx, Event::Button(ButtonPos::Right));
    assert_eq!(flow.page_counter, 2);

    let r = flow.event(&mut ctx, Event::Button(ButtonPos::Left));
    assert!(r.is_none());
    assert_eq!(flow.page_counter, 0);
    assert_eq!(flow.scrollbar.active_page, 0);
}

#[test]
fn terminal_messages_do_not_move_the_flow() {
    let mut flow = example_flow();
    flow.place(bounds());
    let mut ctx = EventCtx::new();
    flow.event(&mut ctx, Event::Button(ButtonPos::Right));
    flow.event(&mut ctx, Event::Button(ButtonPos::Right));
    flow.event(&mut ctx, Event::Button(ButtonPos::Right));
    assert_eq!(flow.page_counter, 2);
    let sub_before = flow.current_page.current_page;
    let scroll_before = flow.scrollbar.active_page;

    // Info is a terminal message; nothing else changes.
    let r = flow.event(&mut ctx, Event::Button(ButtonPos::Right));
    assert_eq!(r, Some(FlowMsg::Info));
    assert_eq!(flow.page_counter, 2);
    assert_eq!(flow.current_page.current_page, sub_before);
    assert_eq!(flow.scrollbar.active_page, scroll_before);

    // And the flow is still usable afterwards: Confirm works.
    let r = flow.event(&mut ctx, Event::Button(ButtonPos::Middle));
    assert_eq!(r, Some(FlowMsg::Confirmed));
}

#[test]
fn confirmed_index_reports_the_page() {
    let mut flow = example_flow().with_return_confirmed_index();
    flow.place(bounds());
    let mut ctx = EventCtx::new();
    flow.event(&mut ctx, Event::Button(ButtonPos::Right));
    flow.event(&mut ctx, Event::Button(ButtonPos::Right));
    flow.event(&mut ctx, Event::Button(ButtonPos::Right));
    let r = flow.event(&mut ctx, Event::Button(ButtonPos::Middle));
    assert_eq!(r, Some(FlowMsg::ConfirmedIndex(2)));
}

#[test]
fn cancel_produces_cancelled() {
    let templates = vec![template(
        "only page",
        ButtonActions::new(Some(ButtonAction::Cancel), None, None),
    )];
    let pages = FlowPages::new(TemplatePages::new(templates), 1);
    let mut flow = Flow::new(pages);
    flow.place(bounds());
    let mut ctx = EventCtx::new();
    let r = flow.event(&mut ctx, Event::Button(ButtonPos::Left));
    assert_eq!(r, Some(FlowMsg::Cancelled));
}

#[test]
fn unmapped_buttons_are_ignored() {
    let templates = vec![template("alone", ButtonActions::new(None, None, None))];
    let pages = FlowPages::new(TemplatePages::new(templates), 1);
    let mut flow = Flow::new(pages);
    flow.place(bounds());
    let mut ctx = EventCtx::new();
    for pos in [ButtonPos::Left, ButtonPos::Middle, ButtonPos::Right] {
        let r = flow.event(&mut ctx, Event::Button(pos));
        assert!(r.is_none());
        assert_eq!(flow.page_counter, 0);
    }
}

#[test]
fn scrollbar_page_index_sums_prefix_counts() {
    let flow = example_flow();
    // Per-page sub-page counts against the flow's content area are
    // [2, 1, 1]; the prefix sums are 0, 2, 3 and the total is 4.
    let area = Rect::new(0, 0, 100, 88);
    assert_eq!(flow.pages.scrollbar_page_index(area, 0), 0);
    assert_eq!(flow.pages.scrollbar_page_index(area, 1), 2);
    assert_eq!(flow.pages.scrollbar_page_index(area, 2), 3);
    assert_eq!(flow.pages.scrollbar_page_index(area, 3), 4);
    assert_eq!(flow.pages.scrollbar_page_count(area), 4);
}

#[test]
fn flow_pages_rebuild_pages_on_demand() {
    let flow = example_flow();
    assert_eq!(flow.pages.count(), 3);
    let p0 = flow.pages.get(0);
    let p0_again = flow.pages.get(0);
    // Repeatable construction: both builds flatten to the same content.
    assert_eq!(
        flow_ui::layout::flatten_ops(&p0.ops),
        flow_ui::layout::flatten_ops(&p0_again.ops)
    );
    assert_eq!(p0.current_page, 0);
    assert_eq!(p0.page_count, 1);
}

#[test]
fn common_title_adopts_page_titles() {
    let mut templates = vec![
        template(
            "first",
            ButtonActions::new(None, None, Some(ButtonAction::NextPage)),
        ),
        template(
            "second",
            ButtonActions::new(Some(ButtonAction::PrevPage), None, None),
        ),
    ];
    templates[1].title = Some("SECOND TITLE".to_string());
    let pages = FlowPages::new(TemplatePages::new(templates), 2);
    let mut flow = Flow::new(pages).with_common_title("FIRST TITLE".to_string());
    flow.place(bounds());
    let title = flow.title.as_ref().unwrap();
    assert_eq!(title.text, "FIRST TITLE");

    let mut ctx = EventCtx::new();
    flow.event(&mut ctx, Event::Button(ButtonPos::Right));
    let title = flow.title.as_ref().unwrap();
    assert_eq!(title.text, "SECOND TITLE");

    // Page 0 has no title of its own, so going back keeps the adopted one.
    flow.event(&mut ctx, Event::Button(ButtonPos::Left));
    let title = flow.title.as_ref().unwrap();
    assert_eq!(title.text, "SECOND TITLE");
}

#[test]
fn event_reports_total_page_count() {
    let mut flow = example_flow();
    flow.place(bounds());
    let mut ctx = EventCtx::new();
    flow.event(&mut ctx, Event::Button(ButtonPos::Right));
    assert_eq!(ctx.page_count, Some(4));
}

#[test]
fn paint_clears_the_repaint_request() {
    let mut flow = example_flow();
    flow.place(bounds());
    let mut ctx = EventCtx::new();
    flow.event(&mut ctx, Event::Button(ButtonPos::Right));
    assert!(flow.pad.clear_pending);
    let text = flow.paint();
    assert!(!flow.pad.clear_pending);
    // Sub-page 1 of page 0 shows the remaining 10 characters.
    assert_eq!(text.len(), 10);
}

#[test]
fn dynamic_button_layout_shows_paging_arrows() {
    let mut flow = example_flow();
    flow.place(bounds());
    // On the first sub-page with more to come, the right button is the
    // wide down arrow and the middle button is suppressed.
    assert!(flow.buttons.btn_middle.is_none());
    let right = flow.buttons.btn_right.as_ref().unwrap();
    assert!(right.wide);

    let mut ctx = EventCtx::new();
    flow.event(&mut ctx, Event::Button(ButtonPos::Right));
    // On the last sub-page the narrow up arrow appears on the left and the
    // page's own right button returns.
    let left = flow.buttons.btn_left.as_ref().unwrap();
    assert!(!left.wide);
}

#[test]
fn oversized_templates_offer_no_pages() {
    let big = template(&"x".repeat(100001), ButtonActions::new(None, None, None));
    let source = TemplatePages::new(vec![big]);
    assert_eq!(source.count(), 0);
    let ok = template("fits", ButtonActions::new(None, None, None));
    let source = TemplatePages::new(vec![ok]);
    assert_eq!(source.count(), 1);
}

#[test]
fn layout_content_reports_the_fit_at_the_cursor() {
    let mut page = flow_ui::flow_pages::Page::new(
        ButtonLayout::empty(),
        ButtonActions::new(None, None, None),
        Font::Normal,
    )
    .text("b".repeat(70));
    page.place(Rect::new(0, 0, 100, 88));
    // From offset 0 only 60 of the 70 characters fit.
    let (fit, chars) = page.layout_content();
    assert_eq!(fit, LayoutFit::OutOfBounds { processed: 60 });
    assert_eq!(chars.len(), 60);
    // After moving the cursor to the second sub-page, the rest fits.
    page.change_page(1);
    let (fit, chars) = page.layout_content();
    assert_eq!(fit, LayoutFit::Fitting);
    assert_eq!(chars.len(), 10);
}
