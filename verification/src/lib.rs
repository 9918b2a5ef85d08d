//! A command-dispatch core for chat-platform bots.
//!
//! A bot is a registry of named commands in two visibility tiers (public
//! and admin-only) together with a set of caller identities granted
//! admin access. Inbound chat events are classified by the event router;
//! a posted message that mentions the bot is parsed into a command name
//! and raw arguments, resolved against the registry, authorized against
//! the admin set, and answered with a single reply string.
//!
//! The transport itself — the persistent connection, wire-level event
//! decoding, and the posting of replies — is an external collaborator:
//! this crate decides, the collaborator performs.

use vstd::prelude::*;

pub mod command;
pub mod error;
pub mod handler;
pub mod parser;
pub mod response;

verus! {

pub use crate::command::Command;
pub use crate::command::CommandHandler;
pub use crate::command::IntoCommand;
pub use crate::error::Error;

/// The name-to-command mapping that a registration list denotes: later
/// entries overwrite earlier ones with the same name.
pub open spec fn map_of(entries: Seq<(String, Command)>) -> Map<Seq<char>, Command>
    decreases entries.len(),
{
    if entries.len() == 0 {
        Map::empty()
    } else {
        map_of(entries.drop_last()).insert(entries.last().0@, entries.last().1)
    }
}

/// Find the command registered under `name`: the latest entry with that
/// name wins, matching the mapping that `map_of` denotes.
pub(crate) fn lookup<'a>(entries: &'a Vec<(String, Command)>, name: &String) -> (r: Option<
    &'a Command,
>)
    ensures
        match r {
            Option::Some(c) => map_of(entries@).contains_key(name@) && *c == map_of(entries@)[name@],
            Option::None => !map_of(entries@).contains_key(name@),
        },
{
    let mut i: usize = entries.len();
    proof {
        assert(entries@.take(entries@.len() as int) =~= entries@);
    }
    while i > 0
        invariant
            i <= entries.len(),
            map_of(entries@).contains_key(name@) <==> map_of(
                entries@.take(i as int),
            ).contains_key(name@),
            map_of(entries@.take(i as int)).contains_key(name@) ==> map_of(entries@)[name@]
                == map_of(entries@.take(i as int))[name@],
        decreases i,
    {
        let i2 = i - 1;
        proof {
            assert(entries@.take(i as int).drop_last() =~= entries@.take(i2 as int));
            assert(entries@.take(i as int).last() == entries@[i2 as int]);
        }
        if entries[i2].0 == *name {
            return Option::Some(&entries[i2].1);
        }
        i = i2;
    }
    proof {
        assert(entries@.take(0) =~= Seq::<(String, Command)>::empty());
    }
    Option::None
}

/// A chat bot's dispatch core: the command registry, in its two tiers,
/// and the admin set. Built once through the fluent registration
/// methods, read-only during dispatch.
pub struct MattermostBot {
    /// The public-tier registry, in registration order.
    pub commands: Vec<(String, Command)>,
    /// The admin-tier registry, in registration order.
    pub admin_commands: Vec<(String, Command)>,
    /// The caller identities granted admin-tier access.
    pub admins: Vec<String>,
}

impl MattermostBot {
    /// The public-tier mapping from command name to command.
    pub open spec fn commands_map(&self) -> Map<Seq<char>, Command> {
        map_of(self.commands@)
    }

    /// The admin-tier mapping from command name to command.
    pub open spec fn admin_commands_map(&self) -> Map<Seq<char>, Command> {
        map_of(self.admin_commands@)
    }

    /// The registered admin identities, in registration order.
    pub open spec fn admin_names(&self) -> Seq<Seq<char>> {
        self.admins.deep_view()
    }

    /// Whether `user` belongs to the admin set.
    pub open spec fn spec_is_admin(&self, user: Seq<char>) -> bool {
        self.admin_names().contains(user)
    }

    /// A bot with no commands and no admins.
    pub fn empty() -> (r: Self)
        ensures
            r.commands_map() == Map::<Seq<char>, Command>::empty(),
            r.admin_commands_map() == Map::<Seq<char>, Command>::empty(),
            r.admin_names() == Seq::<Seq<char>>::empty(),
    {
        let r = MattermostBot { commands: Vec::new(), admin_commands: Vec::new(), admins: Vec::new() };
        proof {
            assert(r.admin_names() =~= Seq::<Seq<char>>::empty());
        }
        r
    }

    /// Register a public command under `name`, overwriting any public
    /// command already registered under that name.
    pub fn add_command<H: IntoCommand>(self, name: &str, handler: H) -> (r: Self)
        ensures
            r.commands_map() == self.commands_map().insert(name@, handler.spec_into_command()),
            r.admin_commands_map() == self.admin_commands_map(),
            r.admin_names() == self.admin_names(),
    {
        let ghost orig = self;
        let mut bot = self;
        let cmd = handler.into_command();
        bot.commands.push((name.to_owned(), cmd));
        proof {
            assert(bot.commands@.drop_last() =~= orig.commands@);
        }
        bot
    }

    /// Register an admin-only command under `name`, overwriting any
    /// admin command already registered under that name.
    pub fn add_admin_command<H: IntoCommand>(self, name: &str, handler: H) -> (r: Self)
        ensures
            r.admin_commands_map() == self.admin_commands_map().insert(
                name@,
                handler.spec_into_command(),
            ),
            r.commands_map() == self.commands_map(),
            r.admin_names() == self.admin_names(),
    {
        let ghost orig = self;
        let mut bot = self;
        let cmd = handler.into_command();
        bot.admin_commands.push((name.to_owned(), cmd));
        proof {
            assert(bot.admin_commands@.drop_last() =~= orig.admin_commands@);
        }
        bot
    }

    /// Grant `name` admin-tier access.
    pub fn add_admin(self, name: &str) -> (r: Self)
        ensures
            r.admin_names() == self.admin_names().push(name@),
            r.commands_map() == self.commands_map(),
            r.admin_commands_map() == self.admin_commands_map(),
    {
        let ghost orig = self;
        let mut bot = self;
        bot.admins.push(name.to_owned());
        proof {
            assert(bot.admin_names() =~= orig.admin_names().push(name@));
        }
        bot
    }

    /// The authorization policy: a membership test against the admin
    /// set.
    pub fn is_admin(&self, user: &String) -> (r: bool)
        ensures
            r == self.spec_is_admin(user@),
    {
        let mut k: usize = 0;
        while k < self.admins.len()
            invariant
                k <= self.admins.len(),
                forall|m: int| 0 <= m < k ==> self.admin_names()[m] != user@,
            decreases self.admins.len() - k,
        {
            if self.admins[k] == *user {
                proof {
                    assert(self.admin_names()[k as int] == user@);
                }
                return true;
            }
            k += 1;
        }
        false
    }
}

} // verus!
