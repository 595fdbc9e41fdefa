use command_prompt::actions::basic_input::{delete_char, delete_word};
use command_prompt::actions::history::HistoryFilterState;
use command_prompt::keys::{Key, KeyCode};
use command_prompt::ui::console::{Console, ConsoleBufferView};
use command_prompt::ui::data::ConsolePrintln;
use command_prompt::ui::events::on_println;
use command_prompt::ui::systems::keyboard_input;

#[test]
fn default_console_has_a_prompt_and_nothing_else() {
    let c = Console::default();
    assert_eq!(c.prompt, "> ");
    assert!(c.buffer.is_empty());
    assert!(c.input.is_empty());
    assert!(c.history.is_empty());
}

#[test]
fn delete_char_pops_the_last_character() {
    let mut c = Console::default();
    c.input = "abc".to_string();
    delete_char(&mut c);
    assert_eq!(c.input, "ab");
    c.input = String::new();
    delete_char(&mut c);
    assert_eq!(c.input, "");
}

#[test]
fn delete_word_cuts_at_the_last_whitespace() {
    let mut c = Console::default();
    c.input = "git commit -m".to_string();
    delete_word(&mut c);
    assert_eq!(c.input, "git commit");
    delete_word(&mut c);
    assert_eq!(c.input, "git");
    delete_word(&mut c);
    assert_eq!(c.input, "");
}

#[test]
fn typed_characters_extend_the_edit_line() {
    let mut c = Console::default();
    let mut st = HistoryFilterState::new();
    let held: Vec<KeyCode> = Vec::new();
    let (refresh, submit) = keyboard_input(&mut c, &mut st, Key::Character('h'), &held);
    assert!(refresh);
    assert!(!submit);
    keyboard_input(&mut c, &mut st, Key::Character('i'), &held);
    keyboard_input(&mut c, &mut st, Key::Space, &held);
    keyboard_input(&mut c, &mut st, Key::Character('!'), &held);
    assert_eq!(c.input, "hi !");
}

#[test]
fn enter_requests_a_submit() {
    let mut c = Console::default();
    let mut st = HistoryFilterState::new();
    let held: Vec<KeyCode> = Vec::new();
    let (refresh, submit) = keyboard_input(&mut c, &mut st, Key::Enter, &held);
    assert!(refresh);
    assert!(submit);
}

#[test]
fn backspace_routes_to_char_or_word_deletion() {
    let mut c = Console::default();
    let mut st = HistoryFilterState::new();
    c.input = "one two".to_string();
    keyboard_input(&mut c, &mut st, Key::Backspace, &Vec::new());
    assert_eq!(c.input, "one tw");
    keyboard_input(&mut c, &mut st, Key::Backspace, &vec![KeyCode::ControlRight]);
    assert_eq!(c.input, "one");
}

#[test]
fn unbound_keys_change_nothing() {
    let mut c = Console::default();
    let mut st = HistoryFilterState::new();
    c.input = "x".to_string();
    let (refresh, submit) = keyboard_input(&mut c, &mut st, Key::Escape, &Vec::new());
    assert!(!refresh);
    assert!(!submit);
    assert_eq!(c.input, "x");
}

#[test]
fn println_appends_and_pins_to_bottom() {
    let mut c = Console::default();
    for i in 0..6 {
        c.buffer.push(format!("l{i}"));
    }
    let view = ConsoleBufferView { console_id: 4, start: 0, range: 3 };
    let msg = ConsolePrintln { message: "new line".to_string(), console_id: 4 };
    let v2 = on_println(&mut c, &view, &msg);
    assert_eq!(c.buffer.len(), 7);
    assert_eq!(c.buffer[6], "new line");
    assert_eq!(v2.start, 4);
    assert_eq!(v2.range, 3);
}

#[test]
fn arrow_navigation_through_keyboard_input() {
    let mut c = Console::default();
    let mut st = HistoryFilterState::new();
    c.history.push("make all".to_string());
    c.history.push("make test".to_string());
    c.input = "make".to_string();
    keyboard_input(&mut c, &mut st, Key::ArrowUp, &Vec::new());
    assert_eq!(c.input, "make test");
    keyboard_input(&mut c, &mut st, Key::ArrowUp, &Vec::new());
    assert_eq!(c.input, "make all");
    keyboard_input(&mut c, &mut st, Key::ArrowDown, &Vec::new());
    assert_eq!(c.input, "make test");
}
