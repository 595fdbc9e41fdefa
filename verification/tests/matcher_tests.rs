use command_prompt::actions::basic_input;
use command_prompt::actions::cache::ConsoleActionCache;
use command_prompt::actions::console_action::ConsoleAction;
use command_prompt::actions::history;
use command_prompt::actions::matcher::{match_actions, try_match};
use command_prompt::keys::{Key, KeyCode};

#[test]
fn backspace_with_ctrl_fires_only_the_word_action() {
    let mut cache = ConsoleActionCache::new();
    basic_input::plugin(&mut cache, 1, 2);
    let pressed = vec![Key::Backspace];
    let held = vec![KeyCode::ControlLeft];
    let fired = match_actions(&cache, &pressed, &held);
    assert_eq!(fired.len(), 1);
    assert_eq!(fired[0].handler, 2);
    assert_eq!(fired[0].matched_keys, vec![Key::Backspace]);
    assert_eq!(fired[0].matched_modifiers, vec![KeyCode::ControlLeft]);
}

#[test]
fn backspace_without_ctrl_fires_only_the_char_action() {
    let mut cache = ConsoleActionCache::new();
    basic_input::plugin(&mut cache, 1, 2);
    let pressed = vec![Key::Backspace];
    let held = vec![KeyCode::ShiftLeft];
    let fired = match_actions(&cache, &pressed, &held);
    assert_eq!(fired.len(), 1);
    assert_eq!(fired[0].handler, 1);
    assert_eq!(fired[0].matched_keys, vec![Key::Backspace]);
    assert!(fired[0].matched_modifiers.is_empty());
}

#[test]
fn and_of_or_needs_one_member_of_every_group() {
    // One key from [Ctrl-left, Ctrl-right] held AND the K key pressed.
    let action = ConsoleAction::new(Key::Character('k'))
        .with_modifiers(vec![KeyCode::ControlLeft, KeyCode::ControlRight]);

    let both = try_match(&action, &vec![Key::Character('k')], &vec![KeyCode::ControlRight]);
    let m = both.unwrap();
    assert_eq!(m.0, vec![Key::Character('k')]);
    assert_eq!(m.1, vec![KeyCode::ControlRight]);

    // Key pressed but no modifier held: nothing fires.
    assert!(try_match(&action, &vec![Key::Character('k')], &vec![]).is_none());
    // Modifier held but key not pressed: nothing fires.
    assert!(try_match(&action, &vec![], &vec![KeyCode::ControlLeft]).is_none());
}

#[test]
fn empty_action_is_inert() {
    let action = ConsoleAction::default();
    assert!(try_match(&action, &vec![Key::Enter], &vec![KeyCode::ControlLeft]).is_none());
}

#[test]
fn excluded_key_vetoes_the_action() {
    let action = ConsoleAction::new(Key::Character('a')).without(Key::Escape);
    assert!(try_match(&action, &vec![Key::Character('a')], &vec![]).is_some());
    assert!(try_match(&action, &vec![Key::Character('a'), Key::Escape], &vec![]).is_none());
}

#[test]
fn matches_fire_in_registration_order() {
    let mut cache = ConsoleActionCache::new();
    cache.register_console_action(ConsoleAction::new(Key::Enter), 10);
    cache.register_console_action(
        ConsoleAction::new(vec![Key::Enter, Key::Escape]),
        20,
    );
    let fired = match_actions(&cache, &vec![Key::Enter], &vec![]);
    assert_eq!(fired.len(), 2);
    assert_eq!(fired[0].handler, 10);
    assert_eq!(fired[1].handler, 20);
}

#[test]
fn or_group_matches_its_first_pressed_member() {
    let action = ConsoleAction::new(vec![Key::ArrowUp, Key::ArrowDown, Key::Enter]);
    let m = try_match(&action, &vec![Key::ArrowDown], &vec![]).unwrap();
    assert_eq!(m.0, vec![Key::ArrowDown]);
}

#[test]
fn reregistering_an_identical_action_overwrites_the_handler() {
    let mut cache = ConsoleActionCache::new();
    history::plugin(&mut cache, 5);
    history::plugin(&mut cache, 6);
    let fired = match_actions(&cache, &vec![Key::ArrowUp], &vec![]);
    assert_eq!(fired.len(), 1);
    assert_eq!(fired[0].handler, 6);
}

#[test]
fn get_single_returns_the_only_key() {
    let a = ConsoleAction::new(Key::Escape);
    assert_eq!(a.get_single(), Some(Key::Escape));
    let b = ConsoleAction::new(vec![Key::Escape, Key::Enter]);
    assert_eq!(b.get_single(), None);
}
