//! The command registry and the values that flow through dispatch.

use crate::strutil::str_eq;
use crate::ui::data::ConsolePrintln;
use vstd::prelude::*;

verus! {

/// Intent to run the given raw line against a console.
#[derive(Debug)]
pub struct CallCommandEvent {
    pub command_name: String,
    pub console_id: u64,
}

/// Registering a name that is already taken: a configuration error,
/// surfaced at setup time and never at runtime.
#[derive(Clone, Copy, Debug, PartialEq, Eq, Structural)]
pub struct DuplicateCommand;

/// One registered command: its argument surface as the host built it,
/// and the dispatch id the host's runtime resolves to the handler.
pub struct ConcreteConsoleCommand {
    pub cmd: clap::Command,
    pub dispatch: u64,
}

/// The built-in commands every console understands without registration.
#[derive(Clone, Copy, Debug, PartialEq, Eq, Structural)]
pub enum ConsoleBuiltin {
    /// Empties the transcript and pins the viewport to the bottom.
    Clear,
    /// Lists the names every console line can invoke.
    Help,
}

impl ConsoleBuiltin {
    /// The name a line invokes this builtin by.
    pub open spec fn spec_name(&self) -> Seq<char> {
        match self {
            ConsoleBuiltin::Clear => "clear"@,
            ConsoleBuiltin::Help => "help"@,
        }
    }

    /// The name a line invokes this builtin by.
    pub fn name(&self) -> (r: String)
        ensures
            r@ == self.spec_name(),
    {
        match self {
            ConsoleBuiltin::Clear => "clear".to_owned(),
            ConsoleBuiltin::Help => "help".to_owned(),
        }
    }

    /// Resolves a name to a builtin, exactly when the name is taken.
    pub fn find_builtin(name: &String) -> (r: Option<ConsoleBuiltin>)
        ensures
            name@ == "clear"@ ==> r == Some(ConsoleBuiltin::Clear),
            name@ == "help"@ ==> r == Some(ConsoleBuiltin::Help),
            name@ != "clear"@ && name@ != "help"@ ==> r is None,
    {
        proof {
            reveal_strlit("clear");
            reveal_strlit("help");
            assert("clear"@.len() == 5);
            assert("help"@.len() == 4);
        }
        if str_eq(name.as_str(), "clear") {
            Some(ConsoleBuiltin::Clear)
        } else if str_eq(name.as_str(), "help") {
            Some(ConsoleBuiltin::Help)
        } else {
            None
        }
    }
}

/// A parsed command of type `T` addressed to one console, handed to the
/// command's handler.
#[derive(Debug)]
pub struct CommandMsg<T> {
    pub console_id: u64,
    pub command: T,
}

impl<T> CommandMsg<T> {
    /// A print intent addressed to the console this command came from.
    pub fn println(&self, message: String) -> (r: ConsolePrintln)
        ensures
            r.message == message,
            r.console_id == self.console_id,
    {
        ConsolePrintln { message, console_id: self.console_id }
    }
}

/// All registered commands, keyed by name, in registration order. Names
/// are unique and case-sensitive.
pub struct ConsoleCommands {
    pub entries: Vec<(String, ConcreteConsoleCommand)>,
}

impl ConsoleCommands {
    /// No two entries share a name.
    pub open spec fn wf(&self) -> bool {
        forall|i: int, j: int|
            0 <= i < j < self.entries@.len() ==> (#[trigger] self.entries@[i]).0@ != (
            #[trigger] self.entries@[j]).0@
    }

    /// True iff a command of this name is registered.
    pub open spec fn spec_has_command(&self, name: Seq<char>) -> bool {
        exists|i: int| 0 <= i < self.entries@.len() && (#[trigger] self.entries@[i]).0@ == name
    }

    /// An empty registry.
    pub fn new() -> (c: Self)
        ensures
            c.entries@.len() == 0,
            c.wf(),
    {
        ConsoleCommands { entries: Vec::new() }
    }

    /// Registers a command under `name`. Fails with [`DuplicateCommand`],
    /// leaving the registry unchanged, exactly when the name is taken.
    pub fn insert(&mut self, name: String, cmd: ConcreteConsoleCommand) -> (r: Result<
        (),
        DuplicateCommand,
    >)
        requires
            old(self).wf(),
        ensures
            final(self).wf(),
            old(self).spec_has_command(name@) ==> r is Err && final(self).entries@ == old(
                self,
            ).entries@,
            !old(self).spec_has_command(name@) ==> r is Ok && final(self).entries@ == old(
                self,
            ).entries@.push((name, cmd)),
    {
        let mut i: usize = 0;
        while i < self.entries.len()
            invariant
                old(self).wf(),
                0 <= i <= self.entries@.len(),
                self.entries@ == old(self).entries@,
                forall|j: int| 0 <= j < i ==> (#[trigger] old(self).entries@[j]).0@ != name@,
            decreases self.entries@.len() - i,
        {
            if str_eq(self.entries[i].0.as_str(), name.as_str()) {
                proof {
                    assert((old(self).entries@[i as int]).0@ == name@);
                }
                return Err(DuplicateCommand);
            }
            i += 1;
        }
        proof {
            assert(forall|j: int|
                0 <= j < old(self).entries@.len() ==> (#[trigger] old(self).entries@[j]).0@
                    != name@);
        }
        self.entries.push((name, cmd));
        proof {
            assert forall|p: int, q: int|
                0 <= p < q < self.entries@.len() implies (#[trigger] self.entries@[p]).0@ != (
            #[trigger] self.entries@[q]).0@ by {
                if q == old(self).entries@.len() {
                    assert(self.entries@[p] == old(self).entries@[p]);
                } else {
                    assert(self.entries@[p] == old(self).entries@[p]);
                    assert(self.entries@[q] == old(self).entries@[q]);
                }
            }
        }
        Ok(())
    }

    /// Finds the entry registered under `name`, exactly when one is.
    pub fn find(&self, name: &String) -> (r: Option<usize>)
        ensures
            match r {
                Some(i) => i < self.entries@.len() && self.entries@[i as int].0@ == name@,
                None => !self.spec_has_command(name@),
            },
    {
        let mut i: usize = 0;
        while i < self.entries.len()
            invariant
                0 <= i <= self.entries@.len(),
                forall|j: int| 0 <= j < i ==> (#[trigger] self.entries@[j]).0@ != name@,
            decreases self.entries@.len() - i,
        {
            if str_eq(self.entries[i].0.as_str(), name.as_str()) {
                return Some(i);
            }
            i += 1;
        }
        None
    }

    /// How many commands are registered.
    pub fn len(&self) -> (n: usize)
        ensures
            n == self.entries@.len(),
    {
        self.entries.len()
    }
}

/// The registered command names, in registration order.
pub open spec fn spec_command_names(cmds: ConsoleCommands) -> Seq<Seq<char>> {
    Seq::new(cmds.entries@.len(), |i: int| cmds.entries@[i].0@)
}

/// Registers a command: the host hands the name its parser announces,
/// the argument surface, and the dispatch id of the handler. At dispatch
/// the parser receives the full token list, name first, as parsers
/// conventionally expect.
pub fn add_console_command(
    cmds: &mut ConsoleCommands,
    name: String,
    cmd: clap::Command,
    dispatch: u64,
) -> (r: Result<(), DuplicateCommand>)
    requires
        old(cmds).wf(),
    ensures
        final(cmds).wf(),
        old(cmds).spec_has_command(name@) ==> r is Err && final(cmds).entries@ == old(
            cmds,
        ).entries@,
        !old(cmds).spec_has_command(name@) ==> r is Ok && final(cmds).entries@.len() == old(
            cmds,
        ).entries@.len() + 1 && final(cmds).spec_has_command(name@) && final(cmds).entries@.last().0
            == name && final(cmds).entries@.last().1.dispatch == dispatch && forall|j: int|
            0 <= j < old(cmds).entries@.len() ==> final(cmds).entries@[j] == old(cmds).entries@[j],
{
    let ghost n = name@;
    let r = cmds.insert(name, ConcreteConsoleCommand { cmd, dispatch });
    proof {
        if !old(cmds).spec_has_command(n) {
            assert(cmds.entries@.last().0@ == n);
        }
    }
    r
}

} // verus!
