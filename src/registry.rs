//! The plugin's namespace, its registered commands and the routing of a command
//! name to its handler.

use vstd::prelude::*;

use crate::handler::{is_running, running};

verus! {

/// Namespace under which the host addresses this plugin's commands
/// (`plugin:app|is_running`).
pub const PLUGIN_NAME: &'static str = "app";

/// Name of the liveness query, the plugin's one command.
pub const IS_RUNNING: &'static str = "is_running";

/// Names of the commands that the plugin registers, in order.
pub open spec fn registered() -> Seq<Seq<char>> {
    seq![IS_RUNNING@]
}

/// What the plugin answers to the command `cmd`: the handler's result for a
/// registered command, `None` for any other name, which the host then reports as
/// an unknown command.
pub open spec fn answer(cmd: Seq<char>) -> Option<bool> {
    if cmd == IS_RUNNING@ {
        Some(running())
    } else {
        None
    }
}

/// The plugin registers exactly one command, the liveness query, and answers a
/// command name if and only if it registered that name.
pub proof fn lemma_exactly_one_command(cmd: Seq<char>)
    ensures
        registered().len() == 1,
        registered()[0] == IS_RUNNING@,
        answer(cmd) is Some <==> registered().contains(cmd),
        answer(IS_RUNNING@) == Some(true),
{
    assert(registered()[0] == IS_RUNNING@);
    if registered().contains(cmd) {
        let i = choose|i: int| 0 <= i < registered().len() && registered()[i] == cmd;
        assert(i == 0);
    }
}

/// The namespace that the plugin registers under.
pub fn plugin_name() -> (r: &'static str)
    ensures
        r@ == PLUGIN_NAME@,
{
    PLUGIN_NAME
}

/// The names of the commands that the plugin registers, in order.
pub fn commands() -> (r: Vec<&'static str>)
    ensures
        r@.len() == registered().len(),
        forall|i: int| 0 <= i < r@.len() ==> #[trigger] r@[i]@ == registered()[i],
{
    let mut r: Vec<&'static str> = Vec::new();
    r.push(IS_RUNNING);
    r
}

/// Routes the command `cmd` to its handler and returns the handler's result, or
/// `None` where the plugin registers no command of that name.
pub fn handle(cmd: &str) -> (r: Option<bool>)
    ensures
        r == answer(cmd@),
{
    let name: String = cmd.to_owned();
    let known: String = IS_RUNNING.to_owned();
    if name.eq(&known) {
        Some(is_running())
    } else {
        None
    }
}

} // verus!
