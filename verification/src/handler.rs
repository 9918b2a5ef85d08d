//! The dispatch engine and the event router.
//!
//! Dispatch resolves a command name against the registry — the public
//! tier first, then the admin tier — authorizes the caller when the
//! command is admin-only, invokes the handler, and normalizes the
//! outcome into one reply string. The router classifies an inbound
//! event, drops everything that is not a posted message mentioning the
//! bot, and drives the parser and the dispatch engine for the rest.

use vstd::prelude::*;

use crate::command::Command;
use crate::lookup;
use crate::parser::parse;
use crate::parser::parsed_args_of;
use crate::parser::parsed_command_of;
use crate::parser::tokens_of;
use crate::MattermostBot;

verus! {

/// The visibility class of a registered command.
pub enum Tier {
    Public,
    Admin,
}

/// What the dispatch engine decides for one request: the name is
/// unknown, a public handler runs, an admin handler runs for an
/// authorized caller, or an admin-only command is refused.
pub enum DispatchDecision {
    Unsupported,
    RunPublic,
    RunAdmin,
    Unauthorized,
}

/// The fixed reply for a command name found in neither tier.
pub open spec fn unsupported_reply_text(name: Seq<char>) -> Seq<char> {
    "Unsupported command '"@ + name + "'"@
}

/// The fixed reply for an admin-only command invoked by a caller outside
/// the admin set.
pub open spec fn unauthorized_reply_text() -> Seq<char> {
    "You are not allowed to run this command."@
}

impl MattermostBot {
    /// Which command, if any, the registry yields for `name`: the public
    /// tier is searched first, so a name present in both tiers resolves
    /// to its public command.
    pub open spec fn spec_resolve(&self, name: Seq<char>) -> Option<(Tier, Command)> {
        if self.commands_map().contains_key(name) {
            Option::Some((Tier::Public, self.commands_map()[name]))
        } else if self.admin_commands_map().contains_key(name) {
            Option::Some((Tier::Admin, self.admin_commands_map()[name]))
        } else {
            Option::None
        }
    }

    /// The dispatch engine's decision for one caller and one command
    /// name.
    pub open spec fn spec_decision(&self, user: Seq<char>, name: Seq<char>) -> DispatchDecision {
        match self.spec_resolve(name) {
            Option::None => DispatchDecision::Unsupported,
            Option::Some((Tier::Public, _)) => DispatchDecision::RunPublic,
            Option::Some((Tier::Admin, _)) => if self.spec_is_admin(user) {
                DispatchDecision::RunAdmin
            } else {
                DispatchDecision::Unauthorized
            },
        }
    }

    /// The reply text that dispatching produces: the resolved handler's
    /// output, or one of the two fixed refusal texts.
    pub open spec fn spec_dispatch(
        &self,
        user: Seq<char>,
        name: Seq<char>,
        args: Option<Seq<char>>,
    ) -> Seq<char> {
        match self.spec_decision(user, name) {
            DispatchDecision::Unsupported => unsupported_reply_text(name),
            DispatchDecision::RunPublic => self.commands_map()[name].spec_invoke(args),
            DispatchDecision::RunAdmin => self.admin_commands_map()[name].spec_invoke(args),
            DispatchDecision::Unauthorized => unauthorized_reply_text(),
        }
    }

    /// Look `name` up in the registry: the public mapping first, then
    /// the admin mapping, with the matched command and its tier.
    pub fn resolve<'a>(&'a self, name: &String) -> (r: Option<(Tier, &'a Command)>)
        ensures
            match r {
                Option::Some(tc) => self.spec_resolve(name@) matches Option::Some(stc) && stc.0
                    == tc.0 && stc.1 == *tc.1,
                Option::None => self.spec_resolve(name@) is None,
            },
    {
        match lookup(&self.commands, name) {
            Option::Some(c) => Option::Some((Tier::Public, c)),
            Option::None => match lookup(&self.admin_commands, name) {
                Option::Some(c) => Option::Some((Tier::Admin, c)),
                Option::None => Option::None,
            },
        }
    }

    /// Dispatch one parsed invocation: resolve `name`, authorize `user`
    /// when the command is admin-only, invoke the handler on `arg`, and
    /// return the reply text.
    pub fn run_command(&self, user: &String, name: &str, arg: Option<String>) -> (r: String)
        ensures
            r@ == self.spec_dispatch(
                user@,
                name@,
                match arg {
                    Option::Some(a) => Option::Some(a@),
                    Option::None => Option::None::<Seq<char>>,
                },
            ),
    {
        let name_owned = name.to_owned();
        match self.resolve(&name_owned) {
            Option::None => {
                let mut r = "Unsupported command '".to_owned();
                r.append(name);
                r.append("'");
                r
            },
            Option::Some((Tier::Public, c)) => c.invoke(arg),
            Option::Some((Tier::Admin, c)) => {
                if self.is_admin(user) {
                    c.invoke(arg)
                } else {
                    "You are not allowed to run this command.".to_owned()
                }
            },
        }
    }
}

/// What arrived on the transport: the connection handshake, a posted
/// chat message, or anything else. Only posted messages can concern the
/// dispatch core.
pub enum InboundEvent {
    /// The connection handshake; ignored.
    Hello,
    /// A chat message was posted.
    Posted(PostedEvent),
    /// Any other event type; ignored.
    Other,
}

/// The decoded payload of a posted chat message.
pub struct PostedEvent {
    /// The identity of the message's sender.
    pub sender_name: String,
    /// The free text of the message.
    pub message: String,
    /// The channel the message was posted in.
    pub channel_id: String,
    /// The id of the message itself, for threading the reply.
    pub post_id: String,
    /// The transport's record of who the message addresses; absent or
    /// empty when the bot is not among them.
    pub mentions: Option<String>,
}

/// A reply to be posted in `channel_id`, threaded under the post
/// `root_id`.
pub struct Reply {
    pub channel_id: String,
    pub root_id: String,
    pub message: String,
}

/// Whether a posted message's mention record addresses the bot: the
/// record is present and non-empty.
pub open spec fn spec_mentioned(m: Option<String>) -> bool {
    match m {
        Option::Some(s) => s@.len() > 0,
        Option::None => false,
    }
}

impl MattermostBot {
    /// Route one inbound event. The handshake, foreign event types,
    /// posted messages that do not mention the bot, and messages without
    /// a single token are all dropped without a reply; any other posted
    /// message is parsed and dispatched, and the reply is addressed to
    /// the originating channel, threaded under the originating post.
    pub fn handle_event(&self, event: InboundEvent) -> (r: Option<Reply>)
        ensures
            match event {
                InboundEvent::Posted(p) => {
                    if spec_mentioned(p.mentions) && tokens_of(p.message@).len() > 0 {
                        r matches Option::Some(rep) && rep.channel_id@ == p.channel_id@
                            && rep.root_id@ == p.post_id@ && rep.message@ == self.spec_dispatch(
                            p.sender_name@,
                            parsed_command_of(p.message@),
                            Option::Some(parsed_args_of(p.message@)),
                        )
                    } else {
                        r is None
                    }
                },
                _ => r is None,
            },
    {
        match event {
            InboundEvent::Hello => Option::None,
            InboundEvent::Other => Option::None,
            InboundEvent::Posted(p) => {
                let mentioned = match &p.mentions {
                    Option::Some(m) => !m.as_str().is_empty(),
                    Option::None => false,
                };
                if !mentioned {
                    return Option::None;
                }
                match parse(p.message.as_str()) {
                    Option::None => Option::None,
                    Option::Some(inv) => {
                        let out = self.run_command(
                            &p.sender_name,
                            inv.command_name.as_str(),
                            Option::Some(inv.raw_args),
                        );
                        Option::Some(
                            Reply { channel_id: p.channel_id, root_id: p.post_id, message: out },
                        )
                    },
                }
            },
        }
    }
}

/// For every registered public command name, dispatch runs that public
/// handler, whoever the caller is: the decision is never the
/// unauthorized rejection, and the reply is exactly the handler's own
/// output for the given arguments.
pub proof fn lemma_public_command_never_unauthorized(
    bot: MattermostBot,
    user: Seq<char>,
    name: Seq<char>,
    args: Option<Seq<char>>,
)
    requires
        bot.commands_map().contains_key(name),
    ensures
        bot.spec_decision(user, name) is RunPublic,
        bot.spec_dispatch(user, name, args) == bot.commands_map()[name].spec_invoke(args),
{
}

/// An admin-only command invoked by an identity outside the admin set is
/// refused with exactly the fixed unauthorized reply.
pub proof fn lemma_admin_command_unauthorized(
    bot: MattermostBot,
    user: Seq<char>,
    name: Seq<char>,
    args: Option<Seq<char>>,
)
    requires
        bot.admin_commands_map().contains_key(name),
        !bot.commands_map().contains_key(name),
        !bot.spec_is_admin(user),
    ensures
        bot.spec_decision(user, name) is Unauthorized,
        bot.spec_dispatch(user, name, args) == "You are not allowed to run this command."@,
{
}

/// A name registered in neither tier draws exactly the fixed
/// unsupported-command reply, which names the command.
pub proof fn lemma_unknown_command_reply(
    bot: MattermostBot,
    user: Seq<char>,
    name: Seq<char>,
    args: Option<Seq<char>>,
)
    requires
        !bot.commands_map().contains_key(name),
        !bot.admin_commands_map().contains_key(name),
    ensures
        bot.spec_dispatch(user, name, args) == "Unsupported command '"@ + name + "'"@,
{
}

/// Round trip: once a command is registered under a name in the public
/// tier, resolving that name yields exactly that command, and
/// dispatching it invokes exactly that handler — for every caller and
/// every argument string.
pub proof fn lemma_register_round_trip(
    before: MattermostBot,
    after: MattermostBot,
    name: Seq<char>,
    c: Command,
    user: Seq<char>,
    args: Option<Seq<char>>,
)
    requires
        after.commands_map() == before.commands_map().insert(name, c),
    ensures
        after.spec_resolve(name) == Option::Some((Tier::Public, c)),
        after.spec_dispatch(user, name, args) == c.spec_invoke(args),
{
}

} // verus!
