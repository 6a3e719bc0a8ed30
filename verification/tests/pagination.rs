//! Pagination behaviour of the layout engine and `Page`.

use flow_ui::buttons::{ButtonActions, ButtonLayout};
use flow_ui::geometry::Rect;
use flow_ui::layout::{count_pages, flatten_ops, layout_pass, offset_for_page, Item, LayoutFit};
use flow_ui::ops::Font;
use flow_ui::ops::Op;

fn plain_page(text: &str) -> flow_ui::flow_pages::Page {
    flow_ui::flow_pages::Page::new(
        ButtonLayout::empty(),
        ButtonActions::new(None, None, None),
        Font::Normal,
    )
    .text(text.to_string())
}

fn ops_of(texts: &[&str]) -> heapless::Vec<Op, 32> {
    let mut v: heapless::Vec<Op, 32> = heapless::Vec::new();
    for t in texts {
        v.push(Op::Text(t.to_string())).unwrap();
    }
    v
}

// A 100x88 area holds 5 lines of 12 normal characters: 60 per sub-page.
const AREA: (i16, i16) = (100, 88);

#[test]
fn empty_page_has_one_sub_page() {
    let mut p = plain_page("");
    p.place(Rect::new(0, 0, 100, 88));
    assert_eq!(p.page_count, 1);
}

#[test]
fn short_text_fits_one_sub_page() {
    let mut p = plain_page("hello world");
    p.place(Rect::new(0, 0, 100, 88));
    assert_eq!(p.page_count, 1);
}

#[test]
fn sixty_chars_fit_sixty_one_do_not() {
    let at_capacity = "x".repeat(60);
    let mut p = plain_page(&at_capacity);
    p.place(Rect::new(0, 0, 100, 88));
    assert_eq!(p.page_count, 1);

    let over_capacity = "x".repeat(61);
    let mut q = plain_page(&over_capacity);
    q.place(Rect::new(0, 0, 100, 88));
    assert_eq!(q.page_count, 2);
}

#[test]
fn unusable_bounds_fit_everything_on_one_blank_page() {
    let mut p = plain_page(&"x".repeat(500));
    p.place(Rect::new(0, 0, 5, 5));
    assert_eq!(p.page_count, 1);
}

#[test]
fn explicit_page_break_splits() {
    let mut v: heapless::Vec<Op, 32> = heapless::Vec::new();
    v.push(Op::Text("a".to_string())).unwrap();
    v.push(Op::NextPage).unwrap();
    v.push(Op::Text("b".to_string())).unwrap();
    let items = flatten_ops(&v);
    assert_eq!(count_pages(&items, Font::Normal, AREA.0, AREA.1), 2);
}

#[test]
fn trailing_page_break_yields_blank_last_page() {
    let mut v: heapless::Vec<Op, 32> = heapless::Vec::new();
    v.push(Op::Text("a".to_string())).unwrap();
    v.push(Op::NextPage).unwrap();
    let items = flatten_ops(&v);
    assert_eq!(count_pages(&items, Font::Normal, AREA.0, AREA.1), 2);
    // The second page renders no characters.
    let off = offset_for_page(&items, 1, Font::Normal, AREA.0, AREA.1);
    let (fit, text) = layout_pass(&items, off, Font::Normal, AREA.0, AREA.1);
    assert_eq!(fit, LayoutFit::Fitting);
    assert!(text.is_empty());
}

#[test]
fn newlines_consume_lines() {
    // Five lines fit in 88 pixels; a sixth line starts a new sub-page.
    let items = flatten_ops(&ops_of(&["a\nb\nc\nd\ne"]));
    assert_eq!(count_pages(&items, Font::Normal, AREA.0, AREA.1), 1);
    let items = flatten_ops(&ops_of(&["a\nb\nc\nd\ne\nf"]));
    assert_eq!(count_pages(&items, Font::Normal, AREA.0, AREA.1), 2);
}

#[test]
fn half_newlines_consume_half_lines() {
    // Two half newlines take one full line, so this still fits five lines.
    let items = flatten_ops(&ops_of(&["a\rb\rc\nd\ne\nf"]));
    assert_eq!(count_pages(&items, Font::Normal, AREA.0, AREA.1), 1);
}

#[test]
fn bold_text_is_wider() {
    // 100 pixels hold 12 normal glyphs (8 px) but only 10 bold ones (10 px).
    let mut v: heapless::Vec<Op, 32> = heapless::Vec::new();
    v.push(Op::Font(Font::Bold)).unwrap();
    v.push(Op::Text("x".repeat(51))).unwrap();
    let items = flatten_ops(&v);
    // 5 lines of 10 bold glyphs = 50 per sub-page.
    assert_eq!(count_pages(&items, Font::Normal, AREA.0, AREA.1), 2);
    let mut w: heapless::Vec<Op, 32> = heapless::Vec::new();
    w.push(Op::Text("x".repeat(51))).unwrap();
    let items = flatten_ops(&w);
    assert_eq!(count_pages(&items, Font::Normal, AREA.0, AREA.1), 1);
}

#[test]
fn pagination_completeness_scenario() {
    // 130 characters need 3 sub-pages of 60; only the last pass fits.
    let items = flatten_ops(&ops_of(&[&"y".repeat(130)]));
    let n = count_pages(&items, Font::Normal, AREA.0, AREA.1);
    assert_eq!(n, 3);
    for k in 0..n {
        let off = offset_for_page(&items, k, Font::Normal, AREA.0, AREA.1);
        let (fit, _) = layout_pass(&items, off, Font::Normal, AREA.0, AREA.1);
        if k == n - 1 {
            assert_eq!(fit, LayoutFit::Fitting);
        } else {
            assert!(matches!(fit, LayoutFit::OutOfBounds { .. }));
        }
    }
}

#[test]
fn offsets_strictly_increase_and_cover_content() {
    let items = flatten_ops(&ops_of(&[&"z".repeat(130)]));
    let n = count_pages(&items, Font::Normal, AREA.0, AREA.1);
    let mut offsets = Vec::new();
    for k in 0..n {
        offsets.push(offset_for_page(&items, k, Font::Normal, AREA.0, AREA.1));
    }
    for k in 1..offsets.len() {
        assert!(offsets[k - 1] < offsets[k]);
    }
    // The consumed counts add up to the whole content.
    let mut total = 0;
    for k in 0..n {
        let (fit, _) = layout_pass(&items, offsets[k], Font::Normal, AREA.0, AREA.1);
        match fit {
            LayoutFit::OutOfBounds { processed } => total += processed,
            LayoutFit::Fitting => total += items.len() - offsets[k],
        }
    }
    assert_eq!(total, items.len());
}

#[test]
fn change_page_stops_at_natural_end() {
    let items = flatten_ops(&ops_of(&[&"q".repeat(130)]));
    let last = offset_for_page(&items, 2, Font::Normal, AREA.0, AREA.1);
    // Asking for a sub-page past the content's end stops at the last one.
    let clamped = offset_for_page(&items, 9, Font::Normal, AREA.0, AREA.1);
    assert_eq!(last, clamped);
}

#[test]
fn replacement_is_idempotent() {
    let mut p = plain_page(&"w".repeat(61));
    p.place(Rect::new(0, 0, 100, 88));
    let first = p.page_count;
    p.place(Rect::new(0, 0, 100, 88));
    assert_eq!(p.page_count, first);
}

#[test]
fn placement_recomputes_from_new_bounds() {
    let mut p = plain_page(&"v".repeat(61));
    p.place(Rect::new(0, 0, 100, 88));
    assert_eq!(p.page_count, 2);
    // Twice the height: everything fits again.
    p.place(Rect::new(0, 0, 100, 200));
    assert_eq!(p.page_count, 1);
}

#[test]
fn paint_renders_each_sub_page() {
    let text: String = ('a'..='z').cycle().take(70).collect();
    let mut p = plain_page(&text);
    p.place(Rect::new(0, 0, 100, 88));
    assert_eq!(p.page_count, 2);
    let first = p.paint();
    let expected_first: Vec<char> = text.chars().take(60).collect();
    assert_eq!(first, expected_first);
    p.go_to_next_page();
    let second = p.paint();
    let expected_second: Vec<char> = text.chars().skip(60).collect();
    assert_eq!(second, expected_second);
}

#[test]
fn font_changes_do_not_render_text() {
    let mut v: heapless::Vec<Op, 32> = heapless::Vec::new();
    v.push(Op::Font(Font::Mono)).unwrap();
    v.push(Op::Text("ok".to_string())).unwrap();
    let items = flatten_ops(&v);
    assert_eq!(items[0], Item::SetFont(Font::Mono));
    let (fit, text) = layout_pass(&items, 0, Font::Normal, AREA.0, AREA.1);
    assert_eq!(fit, LayoutFit::Fitting);
    assert_eq!(text, vec!['o', 'k']);
}

#[test]
fn restart_recovers_font_from_prefix() {
    // The bold run continues on the second sub-page even though the font
    // change sits before the restart offset.
    let mut v: heapless::Vec<Op, 32> = heapless::Vec::new();
    v.push(Op::Font(Font::Bold)).unwrap();
    v.push(Op::Text("x".repeat(60))).unwrap();
    let items = flatten_ops(&v);
    // 50 bold glyphs per sub-page.
    assert_eq!(count_pages(&items, Font::Normal, AREA.0, AREA.1), 2);
    let off = offset_for_page(&items, 1, Font::Normal, AREA.0, AREA.1);
    assert_eq!(off, 51); // the font change plus 50 glyphs
    let (fit, text) = layout_pass(&items, off, Font::Normal, AREA.0, AREA.1);
    assert_eq!(fit, LayoutFit::Fitting);
    assert_eq!(text.len(), 10);
}

#[test]
fn measuring_and_rendering_agree() {
    let items = flatten_ops(&ops_of(&[&"m".repeat(75)]));
    let (fit_a, _measured) = layout_pass(&items, 0, Font::Normal, AREA.0, AREA.1);
    let (fit_b, _drawn) = layout_pass(&items, 0, Font::Normal, AREA.0, AREA.1);
    assert_eq!(fit_a, fit_b);
}

#[test]
fn builder_ops_accumulate() {
    let p = flow_ui::flow_pages::Page::new(
        ButtonLayout::empty(),
        ButtonActions::new(None, None, None),
        Font::Normal,
    )
    .text_bold("H".to_string())
    .newline()
    .text_normal("body".to_string())
    .next_page()
    .text_mono("end".to_string());
    let items = flatten_ops(&p.ops);
    assert_eq!(
        items,
        vec![
            Item::SetFont(Font::Bold),
            Item::Chr('H'),
            Item::Chr('\n'),
            Item::SetFont(Font::Normal),
            Item::Chr('b'),
            Item::Chr('o'),
            Item::Chr('d'),
            Item::Chr('y'),
            Item::PageBreak,
            Item::SetFont(Font::Mono),
            Item::Chr('e'),
            Item::Chr('n'),
            Item::Chr('d'),
        ]
    );
}
