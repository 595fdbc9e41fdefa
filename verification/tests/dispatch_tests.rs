use command_prompt::commands::clear;
use command_prompt::commands::data::{
    add_console_command, CommandMsg, ConsoleBuiltin, ConsoleCommands, DuplicateCommand,
};
use command_prompt::commands::events::{builtins, on_call_console_command, DispatchOutcome};
use command_prompt::ui::console::{Console, ConsoleBufferView};
use command_prompt::ui::systems::on_submit_msg;

#[test]
fn unknown_command_appends_exactly_two_lines() {
    let cmds = ConsoleCommands::new();
    let mut c = Console::default();
    c.input = "unknowncmd --flag".to_string();

    let ev = on_submit_msg(&mut c, 3);
    assert_eq!(ev.command_name, "unknowncmd --flag");
    assert_eq!(ev.console_id, 3);
    assert_eq!(c.input, "");
    assert_eq!(c.history, vec!["unknowncmd --flag".to_string()]);

    let r = on_call_console_command(&cmds, &mut c, &ev);
    assert_eq!(r, DispatchOutcome::UnknownCommand);
    assert_eq!(c.buffer.len(), 2);
    assert_eq!(c.buffer[0], "> unknowncmd --flag");
    assert_eq!(c.buffer[1], "Unknown command 'unknowncmd'");
}

#[test]
fn invalid_quoting_stops_before_lookup() {
    let cmds = ConsoleCommands::new();
    let mut c = Console::default();
    c.input = "echo \"a".to_string();
    let ev = on_submit_msg(&mut c, 0);
    let r = on_call_console_command(&cmds, &mut c, &ev);
    assert_eq!(r, DispatchOutcome::InvalidQuoting);
    assert_eq!(c.buffer.len(), 2);
    assert_eq!(c.buffer[0], "> echo \"a");
    assert_eq!(c.buffer[1], "Invalid quoting");
}

#[test]
fn empty_line_only_echoes_the_prompt_line() {
    let cmds = ConsoleCommands::new();
    let mut c = Console::default();
    let ev = on_submit_msg(&mut c, 0);
    let r = on_call_console_command(&cmds, &mut c, &ev);
    assert_eq!(r, DispatchOutcome::Empty);
    assert_eq!(c.buffer, vec!["> ".to_string()]);
}

#[test]
fn clear_builtin_resolves_and_empties_the_buffer() {
    let cmds = ConsoleCommands::new();
    let mut c = Console::default();
    c.buffer.push("old line".to_string());
    c.input = "clear".to_string();
    let ev = on_submit_msg(&mut c, 0);
    let r = on_call_console_command(&cmds, &mut c, &ev);
    assert_eq!(r, DispatchOutcome::Builtin(ConsoleBuiltin::Clear));

    let view = ConsoleBufferView { console_id: 0, start: 1, range: 4 };
    let v2 = builtins(ConsoleBuiltin::Clear, &cmds, &mut c, &view);
    assert!(c.buffer.is_empty());
    assert_eq!(v2.start, 0);
    assert_eq!(v2.range, 4);
}

#[test]
fn help_builtin_lists_builtins_then_registered_names() {
    let mut cmds = ConsoleCommands::new();
    add_console_command(&mut cmds, "alpha".to_string(), clap::Command::new("alpha"), 1).unwrap();
    add_console_command(&mut cmds, "beta".to_string(), clap::Command::new("beta"), 2).unwrap();

    let mut c = Console::default();
    c.input = "help".to_string();
    let ev = on_submit_msg(&mut c, 0);
    let r = on_call_console_command(&cmds, &mut c, &ev);
    assert_eq!(r, DispatchOutcome::Builtin(ConsoleBuiltin::Help));
    assert_eq!(c.buffer, vec!["> help".to_string()]);

    let view = ConsoleBufferView { console_id: 0, start: 0, range: 3 };
    let v2 = builtins(ConsoleBuiltin::Help, &cmds, &mut c, &view);
    assert_eq!(
        c.buffer,
        vec![
            "> help".to_string(),
            "clear".to_string(),
            "help".to_string(),
            "alpha".to_string(),
            "beta".to_string(),
        ]
    );
    assert_eq!(v2.start, 2);
}

#[test]
fn registered_command_parses_and_yields_its_dispatch_id() {
    let mut cmds = ConsoleCommands::new();
    let greet = clap::Command::new("greet")
        .arg(clap::Arg::new("name").required(true))
        .disable_help_flag(true);
    add_console_command(&mut cmds, "greet".to_string(), greet, 42).unwrap();

    let mut c = Console::default();
    c.input = "greet alice".to_string();
    let ev = on_submit_msg(&mut c, 0);
    let r = on_call_console_command(&cmds, &mut c, &ev);
    assert_eq!(r, DispatchOutcome::Invoke(42));
    assert_eq!(c.buffer, vec!["> greet alice".to_string()]);
}

#[test]
fn parse_failure_appends_the_parser_error_and_stops() {
    let mut cmds = ConsoleCommands::new();
    let greet = clap::Command::new("greet")
        .arg(clap::Arg::new("name").required(true))
        .disable_help_flag(true);
    add_console_command(&mut cmds, "greet".to_string(), greet, 42).unwrap();

    let mut c = Console::default();
    c.input = "greet".to_string();
    let ev = on_submit_msg(&mut c, 0);
    let r = on_call_console_command(&cmds, &mut c, &ev);
    assert_eq!(r, DispatchOutcome::ParseError);
    assert_eq!(c.buffer.len(), 2);
    assert_eq!(c.buffer[0], "> greet");
    assert!(c.buffer[1].contains("required"));
}

#[test]
fn duplicate_registration_is_a_configuration_error() {
    let mut cmds = ConsoleCommands::new();
    let a = clap::Command::new("x");
    let b = clap::Command::new("x");
    assert!(add_console_command(&mut cmds, "x".to_string(), a, 1).is_ok());
    assert_eq!(
        add_console_command(&mut cmds, "x".to_string(), b, 2),
        Err(DuplicateCommand)
    );
    assert_eq!(cmds.len(), 1);
}

#[test]
fn clear_plugin_registers_the_clear_command() {
    let mut cmds = ConsoleCommands::new();
    assert!(clear::plugin(&mut cmds, 9).is_ok());
    assert_eq!(cmds.len(), 1);
    // Registering again under the same name fails.
    assert_eq!(clear::plugin(&mut cmds, 9), Err(DuplicateCommand));
}

#[test]
fn command_msg_println_addresses_the_right_console() {
    let msg = CommandMsg { console_id: 11, command: () };
    let p = msg.println("done".to_string());
    assert_eq!(p.console_id, 11);
    assert_eq!(p.message, "done");
}

#[test]
fn builtin_name_is_clear() {
    assert_eq!(ConsoleBuiltin::Clear.name(), "clear");
    assert_eq!(
        ConsoleBuiltin::find_builtin(&"clear".to_string()),
        Some(ConsoleBuiltin::Clear)
    );
    assert_eq!(ConsoleBuiltin::find_builtin(&"other".to_string()), None);
}
