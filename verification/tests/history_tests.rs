use command_prompt::actions::history::{set_from_history, HistoryFilterState};
use command_prompt::keys::Key;
use command_prompt::ui::console::Console;

fn console_with_history(lines: &[&str], input: &str) -> Console {
    let mut c = Console::default();
    for l in lines {
        c.history.push(l.to_string());
    }
    c.input = input.to_string();
    c
}

#[test]
fn filter_and_walk_matches_backward_then_forward() {
    let mut c = console_with_history(&["go build", "go test", "rust fmt"], "go");
    let mut st = HistoryFilterState::new();

    set_from_history(&mut st, &mut c, Key::ArrowUp);
    assert_eq!(st.filtered_indices.as_ref().unwrap(), &vec![0usize, 1usize]);
    assert_eq!(c.input, "go test");

    set_from_history(&mut st, &mut c, Key::ArrowUp);
    assert_eq!(c.input, "go build");

    set_from_history(&mut st, &mut c, Key::ArrowDown);
    assert_eq!(c.input, "go test");

    set_from_history(&mut st, &mut c, Key::ArrowDown);
    assert_eq!(c.input, "go");
    assert_eq!(st.position, 0);
}

#[test]
fn up_saturates_at_the_oldest_match() {
    let mut c = console_with_history(&["go build", "go test", "rust fmt"], "go");
    let mut st = HistoryFilterState::new();
    for _ in 0..5 {
        set_from_history(&mut st, &mut c, Key::ArrowUp);
    }
    assert_eq!(c.input, "go build");
    assert_eq!(st.position, 2);
}

#[test]
fn down_saturates_at_the_snapshot() {
    let mut c = console_with_history(&["go build"], "go");
    let mut st = HistoryFilterState::new();
    set_from_history(&mut st, &mut c, Key::ArrowUp);
    set_from_history(&mut st, &mut c, Key::ArrowDown);
    set_from_history(&mut st, &mut c, Key::ArrowDown);
    assert_eq!(c.input, "go");
    assert_eq!(st.position, 0);
}

#[test]
fn no_match_keeps_showing_the_snapshot() {
    let mut c = console_with_history(&["alpha", "beta"], "zzz");
    let mut st = HistoryFilterState::new();
    set_from_history(&mut st, &mut c, Key::ArrowUp);
    assert_eq!(c.input, "zzz");
    assert_eq!(st.position, 0);
    assert!(st.filtered_indices.as_ref().unwrap().is_empty());
}

#[test]
fn enter_resets_navigation_state() {
    let mut c = console_with_history(&["go build"], "go");
    let mut st = HistoryFilterState::new();
    set_from_history(&mut st, &mut c, Key::ArrowUp);
    assert_eq!(c.input, "go build");
    set_from_history(&mut st, &mut c, Key::Enter);
    assert_eq!(st.position, 0);
    assert!(st.filtered_indices.is_none());
    assert!(st.snapshot.is_none());
    // Enter itself leaves the edit line to the submit pipeline.
    assert_eq!(c.input, "go build");
}

#[test]
fn other_keys_keep_the_navigation_state() {
    let mut c = console_with_history(&["go build"], "go");
    let mut st = HistoryFilterState::new();
    set_from_history(&mut st, &mut c, Key::ArrowUp);
    set_from_history(&mut st, &mut c, Key::Tab);
    assert_eq!(st.position, 1);
    assert!(st.filtered_indices.is_some());
}

#[test]
fn empty_snapshot_matches_every_entry() {
    let mut c = console_with_history(&["one", "two"], "");
    let mut st = HistoryFilterState::new();
    set_from_history(&mut st, &mut c, Key::ArrowUp);
    assert_eq!(st.filtered_indices.as_ref().unwrap(), &vec![0usize, 1usize]);
    assert_eq!(c.input, "two");
}
