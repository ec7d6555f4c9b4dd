//! The `help` command: a listing of every command.
use vstd::prelude::*;
use super::{Command, CommandMetadata, registered, registered_commands, command_name, command_aliases, command_description};
use crate::bot::replies::{CommandResponse, ReplyDestination};

verus! {

pub const NAME: &'static str = "help";
pub const ALIAS: &'static str = "?";
pub const DESCRIPTION: &'static str = "Show available commands";
/// The first line of the help listing.
pub const HEADER: &'static str = "Available commands:";

/// The parts joined, with `sep` between each two.
pub open spec fn join(parts: Seq<Seq<char>>, sep: Seq<char>) -> Seq<char>
    decreases parts.len(),
{
    if parts.len() == 0 {
        seq![]
    } else if parts.len() == 1 {
        parts[0]
    } else {
        join(parts.drop_last(), sep) + sep + parts.last()
    }
}

/// The aliases as the help listing shows them after the name: nothing, or
/// the aliases in brackets, separated by ", ".
pub open spec fn alias_text(aliases: Seq<Seq<char>>) -> Seq<char> {
    if aliases.len() == 0 {
        seq![]
    } else {
        " ("@ + join(aliases, ", "@) + ")"@
    }
}

/// The help listing's line for a command, on a line of its own:
/// `.name (aliases) - description`.
pub open spec fn help_line(c: Command) -> Seq<char> {
    "\n."@ + command_name(c) + alias_text(command_aliases(c)) + " - "@ + command_description(c)
}

/// The help listing's lines for the commands, in order.
pub open spec fn help_lines(cs: Seq<Command>) -> Seq<char>
    decreases cs.len(),
{
    if cs.len() == 0 {
        seq![]
    } else {
        help_lines(cs.drop_last()) + help_line(cs.last())
    }
}

/// The text of the help listing: the header, then a line for each command
/// in the order in which they are registered.
pub open spec fn help_text() -> Seq<char> {
    HEADER@ + help_lines(registered_commands())
}

/// The strings joined with `sep` between each two.
pub fn join_strs(parts: &Vec<&'static str>, sep: &str) -> (r: String)
    ensures
        r@ == join(parts.deep_view(), sep@),
{
    let mut r = String::new();
    let n = parts.len();
    let ghost views = parts.deep_view();
    let mut i: usize = 0;
    while i < n
        invariant
            n == parts.len(),
            views == parts.deep_view(),
            i <= n,
            r@ == join(views.take(i as int), sep@),
        decreases n - i,
    {
        if i != 0 {
            r.append(sep);
        }
        r.append(parts[i]);
        proof {
            assert(views.take(i + 1).drop_last() =~= views.take(i as int));
            if i == 0 {
                assert(r@ =~= views.take(1)[0]);
            }
        }
        i += 1;
    }
    proof {
        assert(views.take(n as int) =~= views);
    }
    r
}

/// Appends a command's line of the help listing.
fn push_help_line(text: &mut String, cmd: &CommandMetadata)
    requires
        cmd.describes(cmd.command),
    ensures
        final(text)@ == old(text)@ + help_line(cmd.command),
{
    let aliases = if cmd.aliases.len() == 0 {
        String::new()
    } else {
        let mut a = " (".to_owned();
        let joined = join_strs(&cmd.aliases, ", ");
        a.append(joined.as_str());
        a.append(")");
        a
    };
    text.append("\n.");
    text.append(cmd.name);
    text.append(aliases.as_str());
    text.append(" - ");
    text.append(cmd.description);
    proof {
        assert(aliases@ =~= alias_text(command_aliases(cmd.command)));
        assert(text@ =~= old(text)@ + help_line(cmd.command));
    }
}

/// The help listing: "Available commands:" and a line for each command,
/// in the order in which they are registered.
pub fn help_command() -> (r: CommandResponse)
    ensures
        r.texts() == seq![help_text()],
        r.destination == ReplyDestination::Sender,
{
    let commands = registered();
    let mut text = HEADER.to_owned();
    let n = commands.len();
    let mut i: usize = 0;
    while i < n
        invariant
            n == commands.len(),
            commands@ == registered_commands(),
            i <= n,
            text@ == HEADER@ + help_lines(registered_commands().take(i as int)),
        decreases n - i,
    {
        let meta = commands[i].metadata();
        push_help_line(&mut text, &meta);
        proof {
            let cs = registered_commands();
            assert(cs.take(i + 1).drop_last() =~= cs.take(i as int));
            assert(cs.take(i + 1).last() == meta.command);
        }
        i += 1;
    }
    proof {
        assert(registered_commands().take(n as int) =~= registered_commands());
    }
    CommandResponse::from(text)
}

} // verus!
