use command_prompt::ui::console::{Console, ConsoleBufferView, ConsoleUiSettings};
use command_prompt::ui::data::ConsoleScrollMsg;
use command_prompt::ui::systems::on_scroll;

fn console_with_lines(n: usize) -> Console {
    let mut c = Console::default();
    for i in 0..n {
        c.buffer.push(format!("line {i}"));
    }
    c
}

#[test]
fn resize_computes_visible_count_and_pins_to_bottom() {
    let v = ConsoleBufferView::new(7);
    // 100 px / 10 px = 10 rows, minus 1 prompt row = 9 visible lines.
    let v = v.resize(100, 10, 30, 1);
    assert_eq!(v.range, 9);
    assert_eq!(v.start, 21);
    assert_eq!(v.console_id, 7);
}

#[test]
fn resize_is_idempotent() {
    let v = ConsoleBufferView::new(0);
    let a = v.resize(100, 10, 30, 1);
    let b = a.resize(100, 10, 30, 1);
    assert_eq!(a, b);
}

#[test]
fn resize_with_short_content_starts_at_top() {
    let v = ConsoleBufferView::new(0).resize(100, 10, 4, 1);
    assert_eq!(v.range, 9);
    assert_eq!(v.start, 0);
}

#[test]
fn resize_never_yields_negative_visible_count() {
    let v = ConsoleBufferView::new(0).resize(10, 10, 5, 3);
    assert_eq!(v.range, 0);
    assert_eq!(v.start, 5);
}

#[test]
fn jump_to_bottom_shows_the_tail() {
    let v = ConsoleBufferView { console_id: 0, start: 0, range: 5 };
    let v = v.jump_to_bottom(12);
    assert_eq!(v.start, 7);
    let v = v.jump_to_bottom(3);
    assert_eq!(v.start, 0);
}

#[test]
fn scroll_zero_delta_is_a_no_op() {
    let c = console_with_lines(20);
    let v = ConsoleBufferView { console_id: 0, start: 8, range: 5 };
    let v2 = c.on_scroll(&v, 0);
    assert_eq!(v2.start, 8);
}

#[test]
fn scroll_past_top_clamps_to_zero() {
    let c = console_with_lines(20);
    let v = ConsoleBufferView { console_id: 0, start: 3, range: 5 };
    let v2 = c.on_scroll(&v, 100);
    assert_eq!(v2.start, 0);
}

#[test]
fn scroll_past_bottom_clamps_to_pinned_value() {
    let c = console_with_lines(20);
    let v = ConsoleBufferView { console_id: 0, start: 10, range: 5 };
    let v2 = c.on_scroll(&v, -100);
    assert_eq!(v2.start, 15);
}

#[test]
fn opposite_scrolls_cancel() {
    let c = console_with_lines(40);
    let v = ConsoleBufferView { console_id: 0, start: 20, range: 5 };
    let v2 = c.on_scroll(&v, 7);
    assert_eq!(v2.start, 13);
    let v3 = c.on_scroll(&v2, -7);
    assert_eq!(v3.start, 20);
}

#[test]
fn scroll_with_one_page_of_content_stays_pinned() {
    let c = console_with_lines(4);
    let v = ConsoleBufferView { console_id: 0, start: 0, range: 5 };
    assert_eq!(c.on_scroll(&v, 3).start, 0);
    assert_eq!(c.on_scroll(&v, -3).start, 0);
}

#[test]
fn text_joins_visible_lines_prompt_and_input() {
    let mut c = console_with_lines(3);
    c.input = "typing".to_string();
    let v = ConsoleBufferView { console_id: 0, start: 1, range: 2 };
    assert_eq!(v.text(&c), "line 1\nline 2\n> typing");
}

#[test]
fn text_clamps_a_stale_window() {
    let c = console_with_lines(2);
    let v = ConsoleBufferView { console_id: 0, start: 5, range: 3 };
    assert_eq!(v.text(&c), "\n> ");
}

#[test]
fn settings_default_line_height() {
    let s = ConsoleUiSettings::default();
    assert_eq!(s.font_size, 12);
    assert_eq!(s.line_height, 14);
    let v = ConsoleBufferView::new(1).on_resize(&s, 140, 30, 1);
    assert_eq!(v.range, 9);
}

#[test]
fn scroll_messages_apply_in_order_to_the_right_console() {
    let c = console_with_lines(40);
    let v = ConsoleBufferView { console_id: 1, start: 20, range: 5 };
    let msgs = vec![
        ConsoleScrollMsg { delta_lines: 4, console_id: 1 },
        ConsoleScrollMsg { delta_lines: 100, console_id: 2 },
        ConsoleScrollMsg { delta_lines: -1, console_id: 1 },
    ];
    let v2 = on_scroll(&c, &v, &msgs);
    assert_eq!(v2.start, 17);
}
