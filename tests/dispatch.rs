use chimera::definition::{CommandDefinition, CommandRegistry, RegistryError};
use chimera::dispatcher::PrefixDispatch;
use chimera::music::PlayCommand;
use chimera::commands::{HelpCommand, PingCommand};
use chimera::prefix_parser::parse;

fn registry() -> CommandRegistry<&'static str> {
    let mut reg = CommandRegistry::new();
    reg.register(CommandDefinition::new(PingCommand::schema(), vec![], "ping-exec")).unwrap();
    reg.register(CommandDefinition::new(
        PlayCommand::schema(),
        vec!["p".to_string(), "play".to_string()],
        "play-exec",
    ))
    .unwrap();
    reg
}

#[test]
fn alias_and_name_route_to_same_executor() {
    let reg = registry();
    let a = match reg.route_prefix(";p foo", ";", false) {
        PrefixDispatch::Run(i, pc) => {
            assert_eq!(pc.command, "p");
            assert_eq!(pc.arguments().remainder(), "foo");
            i
        }
        _ => panic!("alias not routed"),
    };
    let b = match reg.route_prefix(";play foo", ";", false) {
        PrefixDispatch::Run(i, pc) => {
            assert_eq!(pc.command, "play");
            i
        }
        _ => panic!("name not routed"),
    };
    assert_eq!(a, b);
    assert_eq!(reg.get(a).executor, "play-exec");
}

#[test]
fn slash_matches_name_only() {
    let reg = registry();
    assert_eq!(reg.route_slash("play"), Some(1));
    assert_eq!(reg.route_slash("ping"), Some(0));
    assert_eq!(reg.route_slash("p"), None);
}

#[test]
fn unknown_command_is_silent() {
    let reg = registry();
    match reg.route_prefix(";dance now", ";", false) {
        PrefixDispatch::Unknown(name) => assert_eq!(name, "dance"),
        _ => panic!("expected unknown"),
    }
}

#[test]
fn bot_authors_and_plain_chat_are_ignored() {
    let reg = registry();
    assert!(matches!(reg.route_prefix(";play foo", ";", true), PrefixDispatch::Ignored));
    assert!(matches!(reg.route_prefix("hello there", ";", false), PrefixDispatch::Ignored));
    assert!(matches!(reg.route_prefix(";   ", ";", false), PrefixDispatch::Ignored));
}

#[test]
fn duplicate_alias_is_rejected() {
    let mut reg = registry();
    let err = reg
        .register(CommandDefinition::new(HelpCommand::schema(), vec!["p".to_string()], "help-exec"))
        .unwrap_err();
    match err {
        RegistryError::DuplicateKey(k) => assert_eq!(k, "p"),
    }
    assert_eq!(reg.len(), 2);
    let err = reg
        .register(CommandDefinition::new(PingCommand::schema(), vec![], "again"))
        .unwrap_err();
    match err {
        RegistryError::DuplicateKey(k) => assert_eq!(k, "ping"),
    }
    assert!(reg.register(CommandDefinition::new(HelpCommand::schema(), vec!["h".to_string()], "help-exec")).is_ok());
    assert_eq!(reg.route_slash("help"), Some(2));
}

#[test]
fn scenario_echo_tokens() {
    let parsed = parse(";echo hello world", ";").unwrap();
    assert_eq!(parsed.command, "echo");
    let mut args = parsed.arguments();
    assert_eq!(args.next(), Some("hello"));
    assert_eq!(args.remainder(), "world");
}

#[test]
fn scenario_kick_without_arguments() {
    let parsed = parse(";kick  ", ";").unwrap();
    assert_eq!(parsed.command, "kick");
    let mut args = parsed.arguments();
    assert_eq!(args.remainder(), "");
    assert_eq!(args.next(), None);
    assert_eq!(args.remainder(), "");
}

#[test]
fn scenario_bare_prefix() {
    assert!(parse("!", "!").is_none());
}

#[test]
fn remainder_read_twice_is_the_same() {
    let parsed = parse("!cmd a  b c ", "!").unwrap();
    let mut args = parsed.arguments();
    assert_eq!(args.remainder(), "a  b c");
    assert_eq!(args.remainder(), "a  b c");
    args.next();
    assert_eq!(args.remainder(), "b c");
    assert_eq!(args.remainder(), "b c");
}

#[test]
fn tokens_then_remainder_rebuild_normalized_text() {
    let parsed = parse("!cmd  a \t b c", "!").unwrap();
    let mut args = parsed.arguments();
    let mut taken = Vec::new();
    taken.push(args.next().unwrap());
    taken.push(args.next().unwrap());
    let rem = args.remainder();
    assert_eq!(rem, "c");
    assert_eq!(format!("{} {}", taken.join(" "), rem), "a b c");
}

#[test]
fn multibyte_text_splits_on_unicode_whitespace() {
    let parsed = parse("→play\u{3000}héllo wörld", "→").unwrap();
    assert_eq!(parsed.command, "play");
    let mut args = parsed.arguments();
    assert_eq!(args.next(), Some("héllo"));
    assert_eq!(args.remainder(), "wörld");
}
