use mattermost_bot::command::Command;
use mattermost_bot::command::PrefixResponder;
use mattermost_bot::command::StaticResponder;
use mattermost_bot::error::Error;
use mattermost_bot::handler::InboundEvent;
use mattermost_bot::handler::PostedEvent;
use mattermost_bot::handler::Tier;
use mattermost_bot::parser::parse;
use mattermost_bot::response::IntoResponse;
use mattermost_bot::MattermostBot;

fn fixed(text: &str) -> Command {
    Command::NoArgs(Box::new(StaticResponder { text: text.to_string() }))
}

fn echo_arg() -> Command {
    Command::OneArg(Box::new(PrefixResponder { prefix: "arg:".to_string() }))
}

fn posted(sender: &str, message: &str, mentions: Option<&str>) -> InboundEvent {
    InboundEvent::Posted(PostedEvent {
        sender_name: sender.to_string(),
        message: message.to_string(),
        channel_id: "chan-1".to_string(),
        post_id: "post-1".to_string(),
        mentions: mentions.map(str::to_string),
    })
}

#[test]
fn parse_strips_leading_mention() {
    let a = parse("@bot status").unwrap();
    let b = parse("status").unwrap();
    assert_eq!(a.command_name, "status");
    assert_eq!(a.raw_args, "");
    assert_eq!(a.command_name, b.command_name);
    assert_eq!(a.raw_args, b.raw_args);
}

#[test]
fn parse_joins_arguments() {
    let p = parse("list 2 extra").unwrap();
    assert_eq!(p.command_name, "list");
    assert_eq!(p.raw_args, "2 extra");
}

#[test]
fn parse_rejoins_with_single_spaces() {
    let p = parse("list   2 \t extra").unwrap();
    assert_eq!(p.command_name, "list");
    assert_eq!(p.raw_args, "2 extra");
}

#[test]
fn parse_empty_message_yields_nothing() {
    assert!(parse("").is_none());
    assert!(parse("   \t  ").is_none());
}

#[test]
fn parse_mention_without_command_uses_sentinel() {
    let p = parse("@bot").unwrap();
    assert_eq!(p.command_name, "missing command name");
    assert_eq!(p.raw_args, "");
}

#[test]
fn parse_mention_with_args() {
    let p = parse("@bot list 1").unwrap();
    assert_eq!(p.command_name, "list");
    assert_eq!(p.raw_args, "1");
}

#[test]
fn unknown_command_reply_names_the_command() {
    let bot = MattermostBot::empty();
    let out = bot.run_command(&"anyone".to_string(), "frobnicate", None);
    assert_eq!(out, "Unsupported command 'frobnicate'");
}

#[test]
fn public_command_runs_for_any_identity() {
    let bot = MattermostBot::empty().add_command("status", fixed("The status is OK"));
    let out = bot.run_command(&"nobody-special".to_string(), "status", Some(String::new()));
    assert_eq!(out, "The status is OK");
    let out = bot.run_command(&"someone-else".to_string(), "status", None);
    assert_eq!(out, "The status is OK");
}

#[test]
fn admin_command_refused_outside_admin_set() {
    let bot = MattermostBot::empty()
        .add_admin_command("list", echo_arg())
        .add_admin("alice");
    let out = bot.run_command(&"bob".to_string(), "list", Some("1".to_string()));
    assert_eq!(out, "You are not allowed to run this command.");
}

#[test]
fn admin_command_runs_for_admin() {
    let bot = MattermostBot::empty()
        .add_admin_command("list", echo_arg())
        .add_admin("alice");
    let out = bot.run_command(&"alice".to_string(), "list", Some("1".to_string()));
    assert_eq!(out, "arg:1");
}

#[test]
fn no_args_handler_ignores_arguments() {
    let bot = MattermostBot::empty().add_command("status", fixed("The status is OK"));
    let out = bot.run_command(&"u".to_string(), "status", Some("ignored words".to_string()));
    assert_eq!(out, "The status is OK");
}

#[test]
fn one_arg_handler_gets_empty_string_for_missing_args() {
    let bot = MattermostBot::empty().add_command("echo", echo_arg());
    let out = bot.run_command(&"u".to_string(), "echo", None);
    assert_eq!(out, "arg:");
}

#[test]
fn last_registration_wins_within_a_tier() {
    let bot = MattermostBot::empty()
        .add_command("status", fixed("first"))
        .add_command("status", fixed("second"));
    let out = bot.run_command(&"u".to_string(), "status", None);
    assert_eq!(out, "second");
}

#[test]
fn public_tier_wins_over_admin_tier() {
    let bot = MattermostBot::empty()
        .add_command("both", fixed("public answer"))
        .add_admin_command("both", fixed("admin answer"));
    let out = bot.run_command(&"not-an-admin".to_string(), "both", None);
    assert_eq!(out, "public answer");
}

#[test]
fn resolve_finds_registered_command() {
    let bot = MattermostBot::empty()
        .add_command("status", fixed("ok"))
        .add_admin_command("list", echo_arg());
    match bot.resolve(&"status".to_string()) {
        Some((Tier::Public, c)) => assert_eq!(c.invoke(None), "ok"),
        _ => panic!("expected a public command"),
    }
    match bot.resolve(&"list".to_string()) {
        Some((Tier::Admin, c)) => assert_eq!(c.invoke(Some("7".to_string())), "arg:7"),
        _ => panic!("expected an admin command"),
    }
    assert!(bot.resolve(&"absent".to_string()).is_none());
}

#[test]
fn register_then_resolve_matches_direct_invocation() {
    let direct = echo_arg().invoke(Some("42".to_string()));
    let bot = MattermostBot::empty().add_command("echo", echo_arg());
    match bot.resolve(&"echo".to_string()) {
        Some((Tier::Public, c)) => assert_eq!(c.invoke(Some("42".to_string())), direct),
        _ => panic!("expected a public command"),
    }
}

#[test]
fn is_admin_checks_membership() {
    let bot = MattermostBot::empty().add_admin("alice").add_admin("carol");
    assert!(bot.is_admin(&"alice".to_string()));
    assert!(bot.is_admin(&"carol".to_string()));
    assert!(!bot.is_admin(&"bob".to_string()));
}

#[test]
fn end_to_end_public_status() {
    let bot = MattermostBot::empty().add_command("status", fixed("The status is OK"));
    let reply = bot
        .handle_event(posted("someone", "@bot status", Some("[\"bot-id\"]")))
        .expect("a mentioned post draws a reply");
    assert_eq!(reply.message, "The status is OK");
    assert_eq!(reply.channel_id, "chan-1");
    assert_eq!(reply.root_id, "post-1");
}

#[test]
fn end_to_end_admin_authorization() {
    let bot = MattermostBot::empty()
        .add_admin_command("list", echo_arg())
        .add_admin("alice");
    let refused = bot
        .handle_event(posted("bob", "@bot list 1", Some("[\"bot-id\"]")))
        .expect("a mentioned post draws a reply");
    assert_eq!(refused.message, "You are not allowed to run this command.");
    let allowed = bot
        .handle_event(posted("alice", "@bot list 1", Some("[\"bot-id\"]")))
        .expect("a mentioned post draws a reply");
    assert_eq!(allowed.message, "arg:1");
}

#[test]
fn end_to_end_unmentioned_post_is_ignored() {
    let bot = MattermostBot::empty().add_command("status", fixed("The status is OK"));
    assert!(bot.handle_event(posted("someone", "status", None)).is_none());
    assert!(bot.handle_event(posted("someone", "status", Some(""))).is_none());
}

#[test]
fn hello_and_foreign_events_are_ignored() {
    let bot = MattermostBot::empty().add_command("status", fixed("The status is OK"));
    assert!(bot.handle_event(InboundEvent::Hello).is_none());
    assert!(bot.handle_event(InboundEvent::Other).is_none());
}

#[test]
fn whitespace_only_mentioned_post_is_skipped() {
    let bot = MattermostBot::empty();
    assert!(bot.handle_event(posted("someone", "   ", Some("[\"bot-id\"]"))).is_none());
}

#[test]
fn command_describe_names_the_arity() {
    assert_eq!(fixed("x").describe(), "NoArgs(<handler>)");
    assert_eq!(echo_arg().describe(), "OneArg(<handler>)");
}

#[test]
fn error_messages() {
    let e = Error::EnvVarMissing("MATTERMOST_URL");
    assert_eq!(e.message(), "Please set the 'MATTERMOST_URL' environment variable");
    let e = Error::MattermostApi("connection refused".to_string());
    assert_eq!(e.message(), "problem with mattermost api");
}

#[test]
fn into_response_normalizes() {
    assert_eq!("plain".into_response(), "plain");
    assert_eq!("owned".to_string().into_response(), "owned");
    let ok: Result<String, &str> = Ok("fine".to_string());
    assert_eq!(ok.into_response(), "fine");
    let err: Result<String, &str> = Err("sanitized failure");
    assert_eq!(err.into_response(), "sanitized failure");
}
