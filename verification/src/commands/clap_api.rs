//! Trusted boundary to the clap argument parser.
//!
//! A registered command's argument surface is a `clap::Command` the host
//! built; to this crate it is an opaque value. Whether a token list
//! parses is that definition's affair, so the parse wrapper promises
//! nothing of its outcome, and every caller states what it does for
//! each result.

use vstd::prelude::*;

verus! {

#[verifier::external_type_specification]
#[verifier::external_body]
pub struct ExClapCommand(clap::builder::Command);

/// Relies on clap's `Command::new`: builds a command definition with the
/// given name and no arguments yet. clap asserts, in debug builds, only
/// on contradictory definitions, which a fresh named command is not.
#[verifier::external_body]
pub fn new_command(name: &'static str) -> clap::Command {
    clap::Command::new(name)
}

/// Relies on clap's `Command::try_get_matches_from`: parses the token
/// list against the command definition, reading the leading token as the
/// invoked name, and returns clap's formatted error text on failure.
/// Nothing is promised of the outcome: whether a line parses is the
/// definition's affair. clap asserts, in debug builds, only on
/// contradictory command definitions, which are a configuration fault of
/// the registering host, not of any input line.
#[verifier::external_body]
pub fn parse_tokens(cmd: &clap::Command, tokens: &Vec<String>) -> Result<(), String> {
    match cmd.clone().try_get_matches_from(tokens.iter()) {
        Ok(_) => Ok(()),
        Err(e) => Err(format!("{e}")),
    }
}

} // verus!
