//! The dispatch pipeline: from a submitted raw line to transcript lines
//! and an outcome the host acts on.
//!
//! Every dispatch first echoes `prompt + line` to the transcript, so the
//! order is always: echoed line, then the command's own output or error.
//! A failure at any step appends its single error line and stops; no step
//! after a failing one runs, and session state is never left half
//! mutated.

use crate::commands::clap_api::parse_tokens;
use crate::commands::data::{spec_command_names, CallCommandEvent, ConsoleBuiltin, ConsoleCommands};
use crate::commands::clear::on_clear;
use crate::tokenizer::{spec_split, split};
use crate::ui::console::{Console, ConsoleBufferView};
use vstd::prelude::*;
use vstd::string::StringExecFns;

verus! {

/// What a dispatch decided, after the transcript was updated.
#[derive(Clone, Copy, Debug, PartialEq, Eq, Structural)]
pub enum DispatchOutcome {
    /// The line held no tokens; nothing beyond the echo was printed.
    Empty,
    /// The line had an unterminated quote; the error line was printed.
    InvalidQuoting,
    /// No command of that name exists; the error line was printed.
    UnknownCommand,
    /// The line named a builtin; the host runs it.
    Builtin(ConsoleBuiltin),
    /// The registered command rejected the arguments; its formatted
    /// error was printed.
    ParseError,
    /// The arguments parsed; the host invokes this dispatch id.
    Invoke(u64),
}

/// Applies a parse result to the console: a parse error appends the
/// parser's formatted message and stops the dispatch; a success hands
/// the dispatch id back for the host to invoke.
pub fn apply_parse_result(console: &mut Console, res: Result<(), String>, dispatch: u64) -> (r:
    DispatchOutcome)
    ensures
        final(console).input == old(console).input,
        final(console).prompt == old(console).prompt,
        final(console).history == old(console).history,
        match res {
            Ok(_) => r == DispatchOutcome::Invoke(dispatch) && final(console).buffer == old(
                console,
            ).buffer,
            Err(msg) => r == DispatchOutcome::ParseError && final(console).buffer.deep_view()
                == old(console).buffer.deep_view().push(msg@),
        },
{
    match res {
        Ok(_) => DispatchOutcome::Invoke(dispatch),
        Err(msg) => {
            console.buffer.push(msg);
            proof {
                assert(console.buffer.deep_view() =~= old(console).buffer.deep_view().push(
                    console.buffer@.last()@,
                ));
            }
            DispatchOutcome::ParseError
        },
    }
}

/// Runs one submitted line through the dispatch pipeline.
///
/// The echoed `prompt + line` is appended first, unconditionally. Then:
/// a tokenization failure prints `Invalid quoting`; an empty token list
/// is a no-op; a registered name has its arguments parsed, printing the
/// parser's error or yielding its dispatch id; failing that, a builtin
/// name yields the builtin; anything else prints `Unknown command
/// '<name>'`.
pub fn on_call_console_command(
    cmds: &ConsoleCommands,
    console: &mut Console,
    event: &CallCommandEvent,
) -> (r: DispatchOutcome)
    requires
        cmds.wf(),
    ensures
        final(console).input == old(console).input,
        final(console).prompt == old(console).prompt,
        final(console).history == old(console).history,
        ({
            let echoed = old(console).buffer.deep_view().push(
                old(console).prompt@ + event.command_name@,
            );
            match spec_split(event.command_name@) {
                None => final(console).buffer.deep_view() == echoed.push("Invalid quoting"@) && r
                    == DispatchOutcome::InvalidQuoting,
                Some(ts) => {
                    if ts.len() == 0 {
                        final(console).buffer.deep_view() == echoed && r == DispatchOutcome::Empty
                    } else {
                        let name = ts[0];
                        if cmds.spec_has_command(name) {
                            exists|i: int|
                                {
                                    &&& 0 <= i < cmds.entries@.len()
                                    &&& (#[trigger] cmds.entries@[i]).0@ == name
                                    &&& match r {
                                        DispatchOutcome::Invoke(d) => d
                                            == cmds.entries@[i].1.dispatch
                                            && final(console).buffer.deep_view() == echoed,
                                        DispatchOutcome::ParseError => exists|m: Seq<char>|
                                            final(console).buffer.deep_view() == echoed.push(m),
                                        _ => false,
                                    }
                                }
                        } else if name == "clear"@ {
                            r == DispatchOutcome::Builtin(ConsoleBuiltin::Clear)
                                && final(console).buffer.deep_view() == echoed
                        } else if name == "help"@ {
                            r == DispatchOutcome::Builtin(ConsoleBuiltin::Help)
                                && final(console).buffer.deep_view() == echoed
                        } else {
                            r == DispatchOutcome::UnknownCommand
                                && final(console).buffer.deep_view() == echoed.push(
                                "Unknown command '"@ + name + "'"@,
                            )
                        }
                    }
                },
            }
        }),
{
    let echo = console.prompt.clone().concat(event.command_name.as_str());
    console.buffer.push(echo);
    let ghost echoed = console.buffer.deep_view();
    proof {
        assert(echoed =~= old(console).buffer.deep_view().push(
            old(console).prompt@ + event.command_name@,
        ));
    }
    let toks = match split(event.command_name.as_str()) {
        None => {
            console.buffer.push("Invalid quoting".to_owned());
            proof {
                assert(console.buffer.deep_view() =~= echoed.push("Invalid quoting"@));
            }
            return DispatchOutcome::InvalidQuoting;
        },
        Some(ts) => ts,
    };
    if toks.len() == 0 {
        return DispatchOutcome::Empty;
    }
    let name = &toks[0];
    proof {
        assert(toks.deep_view()[0] == name@);
    }
    match cmds.find(name) {
        Some(i) => {
            let res = parse_tokens(&cmds.entries[i].1.cmd, &toks);
            let dispatch = cmds.entries[i].1.dispatch;
            let r = apply_parse_result(console, res, dispatch);
            proof {
                assert(cmds.spec_has_command(name@));
            }
            r
        },
        None => {
            if let Some(b) = ConsoleBuiltin::find_builtin(name) {
                DispatchOutcome::Builtin(b)
            } else {
                let msg = String::from_str("Unknown command '").concat(name.as_str()).concat("'");
                console.buffer.push(msg);
                proof {
                    assert(console.buffer.deep_view() =~= echoed.push(
                        "Unknown command '"@ + name@ + "'"@,
                    ));
                }
                DispatchOutcome::UnknownCommand
            }
        },
    }
}

/// Lists everything a console line can invoke: the builtin names first,
/// then every registered command name in registration order, one line
/// each, and pins the window to the bottom of the grown transcript.
pub fn on_help(cmds: &ConsoleCommands, console: &mut Console, view: &ConsoleBufferView) -> (v:
    ConsoleBufferView)
    ensures
        final(console).input == old(console).input,
        final(console).prompt == old(console).prompt,
        final(console).history == old(console).history,
        final(console).buffer.deep_view() == old(console).buffer.deep_view() + seq![
            "clear"@,
            "help"@,
        ] + spec_command_names(*cmds),
        v.console_id == view.console_id,
        v.range == view.range,
        v.start as int == crate::ui::console::spec_bottom_start(
            final(console).buffer@.len() as int,
            view.range as int,
        ),
{
    let ghost base = console.buffer.deep_view() + seq!["clear"@, "help"@];
    console.buffer.push(ConsoleBuiltin::Clear.name());
    console.buffer.push(ConsoleBuiltin::Help.name());
    proof {
        assert(console.buffer.deep_view() =~= base);
    }
    let mut i: usize = 0;
    while i < cmds.entries.len()
        invariant
            0 <= i <= cmds.entries@.len(),
            console.buffer.deep_view() == base + spec_command_names(*cmds).subrange(0, i as int),
            console.input == old(console).input,
            console.prompt == old(console).prompt,
            console.history == old(console).history,
        decreases cmds.entries@.len() - i,
    {
        console.buffer.push(cmds.entries[i].0.clone());
        proof {
            let names = spec_command_names(*cmds);
            assert(names[i as int] == cmds.entries@[i as int].0@);
            assert(console.buffer.deep_view() =~= (base + names.subrange(0, i as int)).push(
                names[i as int],
            ));
            assert((base + names.subrange(0, i as int)).push(names[i as int]) =~= base
                + names.subrange(0, i + 1));
        }
        i += 1;
    }
    proof {
        assert(spec_command_names(*cmds).subrange(0, cmds.entries@.len() as int) =~= spec_command_names(
            *cmds,
        ));
        assert(console.buffer.deep_view() =~= old(console).buffer.deep_view() + seq![
            "clear"@,
            "help"@,
        ] + spec_command_names(*cmds));
    }
    let total = console.buffer.len();
    view.jump_to_bottom(total)
}

/// Runs a builtin against a console: clear empties the transcript, help
/// lists the invocable names; both pin the window to the bottom.
pub fn builtins(
    builtin: ConsoleBuiltin,
    cmds: &ConsoleCommands,
    console: &mut Console,
    view: &ConsoleBufferView,
) -> (v: ConsoleBufferView)
    ensures
        final(console).input == old(console).input,
        final(console).prompt == old(console).prompt,
        final(console).history == old(console).history,
        builtin == ConsoleBuiltin::Clear ==> final(console).buffer@.len() == 0 && v.console_id
            == view.console_id && v.range == view.range && v.start == 0,
        builtin == ConsoleBuiltin::Help ==> final(console).buffer.deep_view() == old(
            console,
        ).buffer.deep_view() + seq!["clear"@, "help"@] + spec_command_names(*cmds) && v.console_id
            == view.console_id && v.range == view.range && v.start as int
            == crate::ui::console::spec_bottom_start(
            final(console).buffer@.len() as int,
            view.range as int,
        ),
{
    match builtin {
        ConsoleBuiltin::Clear => on_clear(console, view),
        ConsoleBuiltin::Help => on_help(cmds, console, view),
    }
}

} // verus!
