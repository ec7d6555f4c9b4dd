//! The bot's commands: their names, aliases and descriptions, the lookup by
//! name, and the sorted listing.
pub mod help;
pub mod info;
pub mod ping;
pub mod welcome;
pub mod whoami;

use vstd::prelude::*;
use crate::bot::replies::{CommandResponse, ReplyDestination};
use crate::radio::packet_metadata::PacketMetadata;
use crate::bot::node_tracker::{NodeTracker, NodeRecord, known_name};
use crate::utils::text::{str_equal, str_less, lex_less, lemma_lex_irreflexive, lemma_lex_transitive, lemma_lex_total};

verus! {

/// The commands the bot answers.
#[derive(Debug, Clone, Copy, PartialEq, Eq, Structural)]
pub enum Command {
    Help,
    Ping,
    Welcome,
    Whoami,
    Info,
}

/// A command with the names it answers to and its description.
pub struct CommandMetadata {
    pub name: &'static str,
    pub aliases: Vec<&'static str>,
    pub description: &'static str,
    pub command: Command,
}

/// The name of a command.
pub open spec fn command_name(c: Command) -> Seq<char> {
    match c {
        Command::Help => help::NAME@,
        Command::Ping => ping::NAME@,
        Command::Welcome => welcome::NAME@,
        Command::Whoami => whoami::NAME@,
        Command::Info => info::NAME@,
    }
}

/// The other names a command answers to.
pub open spec fn command_aliases(c: Command) -> Seq<Seq<char>> {
    match c {
        Command::Help => seq![help::ALIAS@],
        Command::Ping => seq![],
        Command::Welcome => seq![welcome::ALIAS_HELLO@, welcome::ALIAS_LOGIN@],
        Command::Whoami => seq![],
        Command::Info => seq![info::ALIAS@],
    }
}

/// The description of a command, as the help listing shows it.
pub open spec fn command_description(c: Command) -> Seq<char> {
    match c {
        Command::Help => help::DESCRIPTION@,
        Command::Ping => ping::DESCRIPTION@,
        Command::Welcome => welcome::DESCRIPTION@,
        Command::Whoami => whoami::DESCRIPTION@,
        Command::Info => info::DESCRIPTION@,
    }
}

/// The commands in the order in which they are registered, which is the
/// order of the help listing.
pub open spec fn registered_commands() -> Seq<Command> {
    seq![Command::Help, Command::Ping, Command::Whoami, Command::Welcome, Command::Info]
}

/// Whether `key` is the name or one of the aliases of `c`.
pub open spec fn answers_to(c: Command, key: Seq<char>) -> bool {
    command_name(c) == key || command_aliases(c).contains(key)
}

impl CommandMetadata {
    /// The metadata is that of the command `c`.
    pub open spec fn describes(&self, c: Command) -> bool {
        &&& self.command == c
        &&& self.name@ == command_name(c)
        &&& self.aliases.deep_view() == command_aliases(c)
        &&& self.description@ == command_description(c)
    }
}

impl Command {
    /// The name, aliases and description of this command.
    pub fn metadata(self) -> (r: CommandMetadata)
        ensures
            r.describes(self),
    {
        let r = match self {
            Command::Help => CommandMetadata {
                name: help::NAME,
                aliases: vec![help::ALIAS],
                description: help::DESCRIPTION,
                command: self,
            },
            Command::Ping => CommandMetadata {
                name: ping::NAME,
                aliases: vec![],
                description: ping::DESCRIPTION,
                command: self,
            },
            Command::Welcome => CommandMetadata {
                name: welcome::NAME,
                aliases: vec![welcome::ALIAS_HELLO, welcome::ALIAS_LOGIN],
                description: welcome::DESCRIPTION,
                command: self,
            },
            Command::Whoami => CommandMetadata {
                name: whoami::NAME,
                aliases: vec![],
                description: whoami::DESCRIPTION,
                command: self,
            },
            Command::Info => CommandMetadata {
                name: info::NAME,
                aliases: vec![info::ALIAS],
                description: info::DESCRIPTION,
                command: self,
            },
        };
        proof {
            assert(r.aliases.deep_view() =~= command_aliases(self));
        }
        r
    }
}

/// The registered commands, in registration order.
pub fn registered() -> (r: Vec<Command>)
    ensures
        r@ == registered_commands(),
{
    let r = vec![Command::Help, Command::Ping, Command::Whoami, Command::Welcome, Command::Info];
    proof {
        assert(r@ =~= registered_commands());
    }
    r
}

/// Every command is registered.
pub proof fn lemma_all_registered(c: Command)
    ensures
        registered_commands().contains(c),
{
    match c {
        Command::Help => assert(registered_commands()[0] == c),
        Command::Ping => assert(registered_commands()[1] == c),
        Command::Whoami => assert(registered_commands()[2] == c),
        Command::Welcome => assert(registered_commands()[3] == c),
        Command::Info => assert(registered_commands()[4] == c),
    }
}

/// Whether `key` is the name or an alias in `meta`.
fn metadata_answers_to(meta: &CommandMetadata, key: &str) -> (r: bool)
    ensures
        r == (meta.name@ == key@ || meta.aliases.deep_view().contains(key@)),
{
    if str_equal(meta.name, key) {
        return true;
    }
    let n = meta.aliases.len();
    let mut i: usize = 0;
    while i < n
        invariant
            n == meta.aliases.len(),
            i <= n,
            forall|j: int| 0 <= j < i ==> meta.aliases[j]@ != key@,
        decreases n - i,
    {
        if str_equal(meta.aliases[i], key) {
            assert(meta.aliases.deep_view()[i as int] == key@);
            return true;
        }
        i += 1;
    }
    proof {
        if meta.aliases.deep_view().contains(key@) {
            let j = choose|j: int|
                0 <= j < meta.aliases.deep_view().len() && meta.aliases.deep_view()[j] == key@;
            assert(meta.aliases[j]@ == key@);
        }
    }
    false
}

/// Looks a command up by its name or one of its aliases.
pub fn get_command(name: &str) -> (r: Option<CommandMetadata>)
    ensures
        r is Some <==> exists|c: Command| answers_to(c, name@),
        r matches Some(m) ==> answers_to(m.command, name@) && m.describes(m.command),
{
    let commands = registered();
    let n = commands.len();
    let mut i: usize = 0;
    while i < n
        invariant
            commands@ == registered_commands(),
            n == commands.len(),
            i <= n,
            forall|j: int| 0 <= j < i ==> !answers_to(#[trigger] commands@[j], name@),
        decreases n - i,
    {
        let meta = commands[i].metadata();
        if metadata_answers_to(&meta, name) {
            assert(answers_to(meta.command, name@));
            return Some(meta);
        }
        i += 1;
    }
    proof {
        assert forall|c: Command| !answers_to(c, name@) by {
            lemma_all_registered(c);
            let j = choose|j: int| 0 <= j < registered_commands().len() && registered_commands()[j] == c;
            assert(!answers_to(commands@[j], name@));
        }
    }
    None
}

/// No two commands answer to the same name: every name or alias leads to
/// one command.
pub proof fn lemma_keys_unique(c1: Command, c2: Command, key: Seq<char>)
    requires
        answers_to(c1, key),
        answers_to(c2, key),
    ensures
        c1 == c2,
{
    reveal_strlit("help");
    reveal_strlit("?");
    reveal_strlit("ping");
    reveal_strlit("welcome");
    reveal_strlit("hello");
    reveal_strlit("login");
    reveal_strlit("whoami");
    reveal_strlit("info");
    reveal_strlit("status");
    let sig = |k: Seq<char>| (k.len(), k[0]);
    assert(sig(help::NAME@) == (4nat, 'h') && sig(help::ALIAS@) == (1nat, '?'));
    assert(sig(ping::NAME@) == (4nat, 'p'));
    assert(sig(welcome::NAME@) == (7nat, 'w') && sig(welcome::ALIAS_HELLO@) == (5nat, 'h')
        && sig(welcome::ALIAS_LOGIN@) == (5nat, 'l'));
    assert(sig(whoami::NAME@) == (6nat, 'w'));
    assert(sig(info::NAME@) == (4nat, 'i') && sig(info::ALIAS@) == (6nat, 's'));
    assert(answers_to(Command::Help, key) ==> sig(key) == (4nat, 'h') || sig(key) == (1nat, '?')) by {
        if command_aliases(Command::Help).contains(key) {
            assert(key == command_aliases(Command::Help)[0]);
        }
    }
    assert(answers_to(Command::Ping, key) ==> sig(key) == (4nat, 'p'));
    assert(answers_to(Command::Welcome, key) ==> sig(key) == (7nat, 'w') || sig(key) == (5nat, 'h')
        || sig(key) == (5nat, 'l')) by {
        if command_aliases(Command::Welcome).contains(key) {
            let j = choose|j: int| 0 <= j < 2 && command_aliases(Command::Welcome)[j] == key;
            assert(j == 0 || j == 1);
        }
    }
    assert(answers_to(Command::Whoami, key) ==> sig(key) == (6nat, 'w'));
    assert(answers_to(Command::Info, key) ==> sig(key) == (4nat, 'i') || sig(key) == (6nat, 's')) by {
        if command_aliases(Command::Info).contains(key) {
            assert(key == command_aliases(Command::Info)[0]);
        }
    }
}

/// Each command answers to its own name and to each of its aliases.
pub proof fn lemma_answers_to_own_names(c: Command)
    ensures
        answers_to(c, command_name(c)),
        forall|j: int| 0 <= j < command_aliases(c).len() ==> answers_to(c, #[trigger] command_aliases(c)[j]),
{
}

/// The commands of a sequence of metadata.
pub open spec fn commands_of(s: Seq<CommandMetadata>) -> Seq<Command> {
    s.map_values(|m: CommandMetadata| m.command)
}

/// The commands are in strictly increasing order of name.
pub open spec fn sorted_by_name(s: Seq<Command>) -> bool {
    forall|i: int, j: int| 0 <= i < j < s.len() ==> lex_less(command_name(#[trigger] s[i]), command_name(#[trigger] s[j]))
}

/// The commands in the order of their names.
pub open spec fn commands_by_name() -> Seq<Command> {
    seq![Command::Help, Command::Info, Command::Ping, Command::Welcome, Command::Whoami]
}

/// Two sequences sorted by name that hold the same commands are equal.
pub proof fn lemma_sorted_unique(s1: Seq<Command>, s2: Seq<Command>)
    requires
        sorted_by_name(s1),
        sorted_by_name(s2),
        forall|c: Command| s1.contains(c) <==> s2.contains(c),
    ensures
        s1 == s2,
    decreases s1.len(),
{
    if s1.len() == 0 {
        if s2.len() > 0 {
            assert(s2.contains(s2[0]));
        }
        assert(s1 =~= s2);
    } else {
        assert(s1.contains(s1[0]));
        if s2.len() == 0 {
            assert(false);
        }
        let a = s1[0];
        let b = s2[0];
        assert(s2.contains(b));
        if a != b {
            let j = choose|j: int| 0 <= j < s2.len() && s2[j] == a;
            let i = choose|i: int| 0 <= i < s1.len() && s1[i] == b;
            assert(lex_less(command_name(s2[0]), command_name(s2[j])));
            assert(lex_less(command_name(s1[0]), command_name(s1[i])));
            lemma_lex_transitive(command_name(a), command_name(b), command_name(a));
            lemma_lex_irreflexive(command_name(a));
        }
        let t1 = s1.drop_first();
        let t2 = s2.drop_first();
        assert forall|c: Command| t1.contains(c) <==> t2.contains(c) by {
            if t1.contains(c) {
                let k = choose|k: int| 0 <= k < t1.len() && t1[k] == c;
                assert(s1[k + 1] == c);
                if c == a {
                    assert(lex_less(command_name(s1[0]), command_name(s1[k + 1])));
                    lemma_lex_irreflexive(command_name(a));
                }
                assert(s1.contains(c));
                let m = choose|m: int| 0 <= m < s2.len() && s2[m] == c;
                assert(m != 0);
                assert(t2[m - 1] == c);
            }
            if t2.contains(c) {
                let k = choose|k: int| 0 <= k < t2.len() && t2[k] == c;
                assert(s2[k + 1] == c);
                if c == b {
                    assert(lex_less(command_name(s2[0]), command_name(s2[k + 1])));
                    lemma_lex_irreflexive(command_name(b));
                }
                assert(s2.contains(c));
                let m = choose|m: int| 0 <= m < s1.len() && s1[m] == c;
                assert(m != 0);
                assert(t1[m - 1] == c);
            }
        }
        assert(sorted_by_name(t1)) by {
            assert forall|i: int, j: int| 0 <= i < j < t1.len() implies lex_less(command_name(#[trigger] t1[i]), command_name(#[trigger] t1[j])) by {
                assert(t1[i] == s1[i + 1] && t1[j] == s1[j + 1]);
            }
        }
        assert(sorted_by_name(t2)) by {
            assert forall|i: int, j: int| 0 <= i < j < t2.len() implies lex_less(command_name(#[trigger] t2[i]), command_name(#[trigger] t2[j])) by {
                assert(t2[i] == s2[i + 1] && t2[j] == s2[j + 1]);
            }
        }
        lemma_sorted_unique(t1, t2);
        assert(s1 =~= seq![a] + t1);
        assert(s2 =~= seq![b] + t2);
    }
}

/// The listing by name is sorted and holds every command.
pub proof fn lemma_commands_by_name()
    ensures
        sorted_by_name(commands_by_name()),
        forall|c: Command| #[trigger] commands_by_name().contains(c),
{
    reveal_strlit("help");
    reveal_strlit("ping");
    reveal_strlit("welcome");
    reveal_strlit("whoami");
    reveal_strlit("info");
    let s = commands_by_name();
    reveal_with_fuel(lex_less, 3);
    assert(lex_less(command_name(s[0]), command_name(s[1])));
    assert(lex_less(command_name(s[1]), command_name(s[2])));
    assert(lex_less(command_name(s[2]), command_name(s[3])));
    assert(lex_less(command_name(s[3]), command_name(s[4])));
    assert forall|i: int, j: int| 0 <= i < j < s.len() implies lex_less(command_name(#[trigger] s[i]), command_name(#[trigger] s[j])) by {
        if j > i + 1 {
            lemma_lex_transitive(command_name(s[i]), command_name(s[i + 1]), command_name(s[i + 2]));
        }
        if j > i + 2 {
            lemma_lex_transitive(command_name(s[i]), command_name(s[i + 2]), command_name(s[i + 3]));
        }
        if j > i + 3 {
            lemma_lex_transitive(command_name(s[i]), command_name(s[i + 3]), command_name(s[i + 4]));
        }
    }
    assert forall|c: Command| #[trigger] s.contains(c) by {
        match c {
            Command::Help => assert(s[0] == c),
            Command::Info => assert(s[1] == c),
            Command::Ping => assert(s[2] == c),
            Command::Welcome => assert(s[3] == c),
            Command::Whoami => assert(s[4] == c),
        }
    }
}

/// Different commands have different names.
pub proof fn lemma_names_distinct(c1: Command, c2: Command)
    requires
        command_name(c1) == command_name(c2),
    ensures
        c1 == c2,
{
    lemma_keys_unique(c1, c2, command_name(c1));
}

/// Every command once, in the order of their names.
pub fn all_commands() -> (r: Vec<CommandMetadata>)
    ensures
        forall|i: int| 0 <= i < r.len() ==> (#[trigger] r[i]).describes(r[i].command),
        commands_of(r@) == commands_by_name(),
{
    let regs = registered();
    let n = regs.len();
    let mut r: Vec<CommandMetadata> = Vec::new();
    let mut k: usize = 0;
    while k < n
        invariant
            regs@ == registered_commands(),
            n == regs.len(),
            k <= n,
            forall|i: int| 0 <= i < r.len() ==> (#[trigger] r[i]).describes(r[i].command),
            sorted_by_name(commands_of(r@)),
            forall|c: Command| commands_of(r@).contains(c) <==> regs@.take(k as int).contains(c),
        decreases n - k,
    {
        let meta = regs[k].metadata();
        let ghost old_r = r@;
        let ghost before = regs@.take(k as int);
        let ghost upto = regs@.take(k + 1);
        let mut p: usize = 0;
        while p < r.len() && str_less(r[p].name, meta.name)
            invariant
                p <= r.len(),
                forall|i: int| 0 <= i < p ==> lex_less((#[trigger] r[i]).name@, meta.name@),
            decreases r.len() - p,
        {
            p += 1;
        }
        if p < r.len() && str_equal(r[p].name, meta.name) {
            proof {
                lemma_names_distinct(r[p as int].command, meta.command);
                assert(commands_of(r@)[p as int] == meta.command);
                assert forall|c: Command| commands_of(r@).contains(c) <==> upto.contains(c) by {
                    if before.contains(c) {
                        let m = choose|m: int| 0 <= m < k && before[m] == c;
                        assert(upto[m] == c);
                    }
                    if upto.contains(c) {
                        let m = choose|m: int| 0 <= m < k + 1 && upto[m] == c;
                        if m < k {
                            assert(before[m] == c);
                        }
                    }
                }
            }
        } else {
            proof {
                if p < r.len() {
                    lemma_lex_total(r[p as int].name@, meta.name@);
                }
            }
            r.insert(p, meta);
            proof {
                let cs = commands_of(r@);
                let ocs = commands_of(old_r);
                assert(cs =~= ocs.insert(p as int, regs@[k as int]));
                assert forall|i: int, j: int| 0 <= i < j < cs.len() implies lex_less(command_name(#[trigger] cs[i]), command_name(#[trigger] cs[j])) by {
                    if j < p {
                        assert(cs[i] == ocs[i] && cs[j] == ocs[j]);
                    } else if j == p {
                        assert(r[i].name@ == command_name(cs[i]));
                    } else if i == p {
                        if j > p + 1 {
                            assert(lex_less(command_name(ocs[p as int]), command_name(ocs[j - 1])));
                            lemma_lex_transitive(command_name(cs[i]), command_name(ocs[p as int]), command_name(ocs[j - 1]));
                        }
                    } else if i < p {
                        assert(r[i].name@ == command_name(cs[i]));
                        assert(lex_less(command_name(cs[i]), command_name(cs[p as int])));
                        if j > p + 1 {
                            assert(lex_less(command_name(ocs[p as int]), command_name(ocs[j - 1])));
                            lemma_lex_transitive(command_name(cs[p as int]), command_name(ocs[p as int]), command_name(ocs[j - 1]));
                        }
                        lemma_lex_transitive(command_name(cs[i]), command_name(cs[p as int]), command_name(cs[j]));
                    } else {
                        assert(cs[i] == ocs[i - 1] && cs[j] == ocs[j - 1]);
                    }
                }
                assert forall|c: Command| upto.contains(c) <==> (before.contains(c) || c == regs@[k as int]) by {
                    if before.contains(c) {
                        let m = choose|m: int| 0 <= m < before.len() && before[m] == c;
                        assert(upto[m] == c);
                    }
                    if c == regs@[k as int] {
                        assert(upto[k as int] == c);
                    }
                    if upto.contains(c) {
                        let m = choose|m: int| 0 <= m < upto.len() && upto[m] == c;
                        if m < k {
                            assert(before[m] == c);
                        }
                    }
                }
                assert forall|c: Command| cs.contains(c) <==> (ocs.contains(c) || c == regs@[k as int]) by {
                    if ocs.contains(c) {
                        let m = choose|m: int| 0 <= m < ocs.len() && ocs[m] == c;
                        if m < p {
                            assert(cs[m] == c);
                        } else {
                            assert(cs[m + 1] == c);
                        }
                    }
                    if c == regs@[k as int] {
                        assert(cs[p as int] == c);
                    }
                    if cs.contains(c) {
                        let m = choose|m: int| 0 <= m < cs.len() && cs[m] == c;
                        if m < p {
                            assert(ocs[m] == c);
                        } else if m > p {
                            assert(ocs[m - 1] == c);
                        }
                    }
                }
            }
        }
        k += 1;
    }
    proof {
        lemma_commands_by_name();
        assert(regs@.take(n as int) =~= regs@);
        assert forall|c: Command| commands_of(r@).contains(c) <==> commands_by_name().contains(c) by {
            lemma_all_registered(c);
        }
        lemma_sorted_unique(commands_of(r@), commands_by_name());
    }
    r
}

/// What running a command gives.
#[derive(Debug)]
pub enum CommandOutcome {
    /// The reply.
    Reply(CommandResponse),
    /// The command reports the weather, which has to be fetched first
    /// (see [`info::info_command`]).
    NeedsWeather,
}

/// The reply text of a command that needs nothing from outside, for a
/// tracker that knows `nodes`; none for the one that needs the weather.
pub open spec fn reply_text(c: Command, coords: PacketMetadata, snr_text: Seq<char>, nodes: Map<u32, NodeRecord>) -> Option<Seq<char>> {
    match c {
        Command::Help => Some(help::help_text()),
        Command::Ping => Some(ping::PONG@),
        Command::Welcome => Some(welcome::WELCOME_TEXT@),
        Command::Whoami => Some(whoami::whoami_text(coords, known_name(nodes, coords.from_id), snr_text)),
        Command::Info => None,
    }
}

/// Runs a command for the sender of `coords`; `snr_text` is the packet's
/// signal-to-noise ratio as the whoami reply shows it.
pub fn execute_command(command: Command, coords: &PacketMetadata, snr_text: &str, tracker: &NodeTracker) -> (r: CommandOutcome)
    ensures
        match r {
            CommandOutcome::Reply(resp) => reply_text(command, *coords, snr_text@, tracker.known()) matches Some(t)
                && resp.texts() == seq![t] && resp.destination == ReplyDestination::Sender,
            CommandOutcome::NeedsWeather => command == Command::Info,
        },
{
    match command {
        Command::Help => CommandOutcome::Reply(help::help_command()),
        Command::Ping => CommandOutcome::Reply(ping::ping_command()),
        Command::Welcome => CommandOutcome::Reply(welcome::welcome_command()),
        Command::Whoami => CommandOutcome::Reply(whoami::whoami_command(coords, snr_text, tracker)),
        Command::Info => CommandOutcome::NeedsWeather,
    }
}

} // verus!
