//! The command router: matches incoming messages and interactions
//! against the registered command table, extracts the command name and
//! raw argument tail, and enforces permission and ownership predicates.

use vstd::prelude::*;

use crate::config::ConfigStore;
use crate::error::BotError;
use crate::text::{find_first_nonspace, find_first_space, first_nonspace_from, first_space,
    is_prefix_of, str_eq, str_starts_with};

verus! {

/// Permission bit granting every capability.
pub const ADMINISTRATOR: u64 = 8;

/// Permission bit required to kick members.
pub const KICK_MEMBERS: u64 = 2;

/// Permission bit required to ban and unban members.
pub const BAN_MEMBERS: u64 = 4;

/// Permission bit required to manage (bulk-delete) messages.
pub const MANAGE_MESSAGES: u64 = 8192;

/// One registered command: its name, aliases, invocation kinds, and the
/// predicates an invoker must satisfy. Immutable after registration.
pub struct CommandDescriptor {
    pub name: String,
    pub aliases: Vec<String>,
    pub slash_enabled: bool,
    pub prefix_enabled: bool,
    pub required_permissions: u64,
    pub owner_only: bool,
}

/// The router's command table, built once at startup.
pub struct CommandTable {
    pub commands: Vec<CommandDescriptor>,
}

/// `name` invokes `c` as a prefix command: exact, case-sensitive match
/// of the command name or one of its aliases.
pub open spec fn prefix_invokes(c: CommandDescriptor, name: Seq<char>) -> bool {
    &&& c.prefix_enabled
    &&& (c.name@ == name || exists|i: int| 0 <= i < c.aliases@.len() && c.aliases@[i]@ == name)
}

/// `name` invokes `c` as a slash command: exact match of the command
/// name (aliases are a prefix-command affordance).
pub open spec fn slash_invokes(c: CommandDescriptor, name: Seq<char>) -> bool {
    &&& c.slash_enabled
    &&& c.name@ == name
}

/// First table index at or after `i` whose command `name` invokes as a
/// prefix command.
pub open spec fn prefix_lookup_from(cmds: Seq<CommandDescriptor>, name: Seq<char>, i: int) -> Option<
    int,
>
    decreases cmds.len() - i,
{
    if !(0 <= i < cmds.len()) {
        None
    } else if prefix_invokes(cmds[i], name) {
        Some(i)
    } else {
        prefix_lookup_from(cmds, name, i + 1)
    }
}

/// First table index whose command `name` invokes as a slash command.
pub open spec fn slash_lookup_from(cmds: Seq<CommandDescriptor>, name: Seq<char>, i: int) -> Option<
    int,
>
    decreases cmds.len() - i,
{
    if !(0 <= i < cmds.len()) {
        None
    } else if slash_invokes(cmds[i], name) {
        Some(i)
    } else {
        slash_lookup_from(cmds, name, i + 1)
    }
}

/// The invoker's resolved permissions satisfy the command's predicates:
/// ownership where demanded, and every required permission bit.
pub open spec fn permitted(c: CommandDescriptor, permissions: u64, is_owner: bool) -> bool {
    &&& (c.owner_only ==> is_owner)
    &&& permissions & c.required_permissions == c.required_permissions
}

/// Every required permission bit is present in `permissions`.
pub fn has_all_permissions(permissions: u64, required: u64) -> (r: bool)
    ensures
        r == (permissions & required == required),
{
    permissions & required == required
}

/// The invoker holds the administrator capability.
pub fn is_administrator(permissions: u64) -> (r: bool)
    ensures
        r == (permissions & ADMINISTRATOR == ADMINISTRATOR),
{
    permissions & ADMINISTRATOR == ADMINISTRATOR
}

/// The command body of a message: what follows the active prefix, or,
/// failing that, the mention token (with the spaces after it dropped).
/// `None` when the message starts with neither and is no command at all.
pub open spec fn body_of(content: Seq<char>, prefix: Seq<char>, mention: Seq<char>) -> Option<
    Seq<char>,
> {
    if is_prefix_of(prefix, content) {
        Some(content.skip(prefix.len() as int))
    } else if is_prefix_of(mention, content) {
        let rest = content.skip(mention.len() as int);
        Some(rest.skip(first_nonspace_from(rest, 0)))
    } else {
        None
    }
}

/// The command name of a body: the characters before the first space.
pub open spec fn command_name_of(body: Seq<char>) -> Seq<char> {
    body.take(first_space(body))
}

/// The raw argument tail of a body: what follows the first space, or
/// nothing when the body is a bare command name.
pub open spec fn args_of(body: Seq<char>) -> Seq<char> {
    if first_space(body) < body.len() {
        body.skip(first_space(body) + 1)
    } else {
        Seq::empty()
    }
}

/// Where the router sends one inbound event.
pub enum RouteOutcome {
    /// Not a command (no valid prefix or mention token, an empty name,
    /// or no table entry): silently ignored, not an error.
    Ignored,
    /// A registered command whose permission or ownership predicate the
    /// invoker fails: rejected with a user-visible permission error.
    Denied,
    /// A registered command the invoker may run, with the raw argument
    /// tail to hand to its handler.
    Run { command_index: usize, args: String },
}

impl CommandTable {
    /// Looks a prefix-command name up in the table: the first entry the
    /// name invokes (by name or alias), if any.
    pub fn lookup_prefix_command(&self, name: &str) -> (r: Option<usize>)
        ensures
            match r {
                Some(i) => i < self.commands@.len() && Some(i as int) == prefix_lookup_from(
                    self.commands@,
                    name@,
                    0,
                ),
                None => prefix_lookup_from(self.commands@, name@, 0) is None,
            },
    {
        let n = self.commands.len();
        let mut i: usize = 0;
        while i < n
            invariant
                i <= n,
                n == self.commands@.len(),
                prefix_lookup_from(self.commands@, name@, 0) == prefix_lookup_from(
                    self.commands@,
                    name@,
                    i as int,
                ),
            decreases n - i,
        {
            let c = &self.commands[i];
            if c.prefix_enabled {
                if str_eq(c.name.as_str(), name) {
                    return Some(i);
                }
                let an = c.aliases.len();
                let mut j: usize = 0;
                while j < an
                    invariant
                        j <= an,
                        an == c.aliases@.len(),
                        i < n,
                        n == self.commands@.len(),
                        *c == self.commands@[i as int],
                        c.prefix_enabled,
                        prefix_lookup_from(self.commands@, name@, 0) == prefix_lookup_from(
                            self.commands@,
                            name@,
                            i as int,
                        ),
                        forall|k: int| 0 <= k < j ==> c.aliases@[k]@ != name@,
                    decreases an - j,
                {
                    if str_eq(c.aliases[j].as_str(), name) {
                        proof {
                            assert(self.commands@[i as int].aliases@[j as int]@ == name@);
                            assert(prefix_invokes(self.commands@[i as int], name@));
                        }
                        return Some(i);
                    }
                    j += 1;
                }
            }
            proof {
                assert(!prefix_invokes(self.commands@[i as int], name@));
            }
            i += 1;
        }
        None
    }

    /// Looks a slash-command name up in the table.
    pub fn lookup_slash_command(&self, name: &str) -> (r: Option<usize>)
        ensures
            match r {
                Some(i) => i < self.commands@.len() && Some(i as int) == slash_lookup_from(
                    self.commands@,
                    name@,
                    0,
                ),
                None => slash_lookup_from(self.commands@, name@, 0) is None,
            },
    {
        let n = self.commands.len();
        let mut i: usize = 0;
        while i < n
            invariant
                i <= n,
                n == self.commands@.len(),
                slash_lookup_from(self.commands@, name@, 0) == slash_lookup_from(
                    self.commands@,
                    name@,
                    i as int,
                ),
            decreases n - i,
        {
            let c = &self.commands[i];
            if c.slash_enabled && str_eq(c.name.as_str(), name) {
                return Some(i);
            }
            i += 1;
        }
        None
    }

    /// Routes one raw text message. In order: strip the active prefix or
    /// the mention token (neither present: ignore); take the characters
    /// before the first space as the command name (empty: ignore); look
    /// the name up, case-sensitively, among prefix commands (absent:
    /// ignore); check ownership and permissions (unmet: deny); else run,
    /// handing over the raw argument tail.
    pub fn route_message(
        &self,
        content: &str,
        active_prefix: &str,
        mention_token: &str,
        author_permissions: u64,
        author_is_owner: bool,
    ) -> (outcome: RouteOutcome)
        ensures
            body_of(content@, active_prefix@, mention_token@) is None ==> outcome
                == RouteOutcome::Ignored,
            body_of(content@, active_prefix@, mention_token@) matches Some(body) ==> ({
                let name = command_name_of(body);
                if name.len() == 0 {
                    outcome == RouteOutcome::Ignored
                } else {
                    match prefix_lookup_from(self.commands@, name, 0) {
                        Option::None => outcome == RouteOutcome::Ignored,
                        Option::Some(i) => if permitted(
                            self.commands@[i],
                            author_permissions,
                            author_is_owner,
                        ) {
                            outcome matches RouteOutcome::Run { command_index, args }
                                && command_index == i && args@ == args_of(body)
                        } else {
                            outcome == RouteOutcome::Denied
                        },
                    }
                }
            }),
    {
        let body: &str = if str_starts_with(content, active_prefix) {
            content.substring_char(active_prefix.unicode_len(), content.unicode_len())
        } else if str_starts_with(content, mention_token) {
            let rest = content.substring_char(mention_token.unicode_len(), content.unicode_len());
            let sp = find_first_nonspace(rest);
            rest.substring_char(sp, rest.unicode_len())
        } else {
            return RouteOutcome::Ignored;
        };
        let name_end = find_first_space(body);
        if name_end == 0 {
            return RouteOutcome::Ignored;
        }
        let name = body.substring_char(0, name_end);
        match self.lookup_prefix_command(name) {
            None => RouteOutcome::Ignored,
            Some(i) => {
                let c = &self.commands[i];
                if (c.owner_only && !author_is_owner) || !has_all_permissions(
                    author_permissions,
                    c.required_permissions,
                ) {
                    RouteOutcome::Denied
                } else {
                    let args = if name_end < body.unicode_len() {
                        String::from_str(body.substring_char(name_end + 1, body.unicode_len()))
                    } else {
                        String::new()
                    };
                    RouteOutcome::Run { command_index: i, args }
                }
            },
        }
    }

    /// Routes one structured interaction (slash invocation), which
    /// arrives with its command name already parsed by the platform.
    pub fn route_interaction(
        &self,
        command_name: &str,
        author_permissions: u64,
        author_is_owner: bool,
    ) -> (outcome: RouteOutcome)
        ensures
            slash_lookup_from(self.commands@, command_name@, 0) is None ==> outcome
                == RouteOutcome::Ignored,
            slash_lookup_from(self.commands@, command_name@, 0) matches Some(i) ==> {
                if permitted(self.commands@[i], author_permissions, author_is_owner) {
                    outcome matches RouteOutcome::Run { command_index, args } && command_index == i
                        && args@ == Seq::<char>::empty()
                } else {
                    outcome == RouteOutcome::Denied
                }
            },
    {
        match self.lookup_slash_command(command_name) {
            None => RouteOutcome::Ignored,
            Some(i) => {
                let c = &self.commands[i];
                if (c.owner_only && !author_is_owner) || !has_all_permissions(
                    author_permissions,
                    c.required_permissions,
                ) {
                    RouteOutcome::Denied
                } else {
                    RouteOutcome::Run { command_index: i, args: String::new() }
                }
            },
        }
    }
}

/// One command table entry without aliases.
fn command(
    name: &str,
    slash_enabled: bool,
    prefix_enabled: bool,
    required_permissions: u64,
    owner_only: bool,
) -> (c: CommandDescriptor)
    ensures
        c.name@ == name@,
        c.aliases@.len() == 0,
        c.slash_enabled == slash_enabled,
        c.prefix_enabled == prefix_enabled,
        c.required_permissions == required_permissions,
        c.owner_only == owner_only,
{
    CommandDescriptor {
        name: String::from_str(name),
        aliases: Vec::new(),
        slash_enabled,
        prefix_enabled,
        required_permissions,
        owner_only,
    }
}

/// The bot's command surface, built once at startup: the prefix-setting
/// admin command, the help menu, the fun commands, the relay commands
/// (owner-only where noted), and the moderation commands with their
/// required permission bits. `solve` answers to `calc` and
/// `calculator`; `purge` to `clean`, `clear` and `bulkdel`.
pub fn standard_command_table() -> (table: CommandTable)
    ensures
        table.commands@.len() == 18,
        table.commands@[0].name@ == "set_prefix"@,
        table.commands@[0].required_permissions == ADMINISTRATOR,
        table.commands@[0].prefix_enabled && !table.commands@[0].slash_enabled,
        table.commands@[4].name@ == "echo"@ && table.commands@[4].owner_only,
        table.commands@[5].name@ == "ban"@ && table.commands@[5].required_permissions
            == BAN_MEMBERS,
        table.commands@[6].name@ == "unban"@ && table.commands@[6].required_permissions
            == BAN_MEMBERS,
        table.commands@[7].name@ == "say"@ && !table.commands@[7].prefix_enabled
            && table.commands@[7].slash_enabled,
        table.commands@[8].name@ == "kick"@ && table.commands@[8].required_permissions
            == KICK_MEMBERS,
        table.commands@[16].name@ == "purge"@ && table.commands@[16].required_permissions
            == MANAGE_MESSAGES,
        table.commands@[17].name@ == "sync"@ && table.commands@[17].owner_only,
{
    let mut commands: Vec<CommandDescriptor> = Vec::new();
    commands.push(command("set_prefix", false, true, ADMINISTRATOR, false));
    commands.push(command("help", true, true, 0, false));
    commands.push(command("hello", true, true, 0, false));
    commands.push(command("ping", true, true, 0, false));
    commands.push(command("echo", true, true, 0, true));
    commands.push(command("ban", true, true, BAN_MEMBERS, false));
    commands.push(command("unban", true, true, BAN_MEMBERS, false));
    commands.push(command("say", true, false, 0, false));
    commands.push(command("kick", true, true, KICK_MEMBERS, false));
    commands.push(command("facts", true, true, 0, false));
    commands.push(command("roll", true, true, 0, false));
    let mut solve = command("solve", true, true, 0, false);
    solve.aliases.push(String::from_str("calc"));
    solve.aliases.push(String::from_str("calculator"));
    commands.push(solve);
    commands.push(command("about", true, true, 0, false));
    commands.push(command("joryu", true, true, 0, false));
    commands.push(command("fly", true, true, 0, false));
    commands.push(command("meme", true, true, 0, false));
    let mut purge = command("purge", true, true, MANAGE_MESSAGES, false);
    purge.aliases.push(String::from_str("clean"));
    purge.aliases.push(String::from_str("clear"));
    purge.aliases.push(String::from_str("bulkdel"));
    commands.push(purge);
    commands.push(command("sync", true, true, 0, true));
    CommandTable { commands }
}

/// The guild-only, administrator-only prefix-setting command. Rejects a
/// direct (non-guild) invocation, rejects a non-administrator before
/// touching storage, rejects an over-long prefix, and otherwise upserts
/// the guild's prefix. The store changes exactly on success.
pub fn handle_set_prefix(
    store: &mut ConfigStore,
    guild: Option<u64>,
    author_permissions: u64,
    new_prefix: String,
) -> (result: Result<(), BotError>)
    requires
        old(store).wf(),
    ensures
        final(store).wf(),
        guild is None ==> {
            &&& result == Result::<(), BotError>::Err(BotError::Validation)
            &&& final(store)@ == old(store)@
        },
        guild matches Some(g) ==> {
            if author_permissions & ADMINISTRATOR != ADMINISTRATOR {
                &&& result == Result::<(), BotError>::Err(BotError::PermissionDenied)
                &&& final(store)@ == old(store)@
            } else if new_prefix@.len() > crate::config::MAX_PREFIX_CHARS {
                &&& result == Result::<(), BotError>::Err(BotError::Validation)
                &&& final(store)@ == old(store)@
            } else {
                &&& result == Result::<(), BotError>::Ok(())
                &&& final(store)@ == old(store)@.insert(g, new_prefix@)
            }
        },
{
    let g = match guild {
        Some(g) => g,
        None => {
            return Err(BotError::Validation);
        },
    };
    if !is_administrator(author_permissions) {
        return Err(BotError::PermissionDenied);
    }
    store.set_prefix(g, new_prefix)
}

} // verus!
