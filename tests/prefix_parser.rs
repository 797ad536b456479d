use chimera::prefix_parser::parse;

#[test]
fn test_parse_simple_command() {
    let result = parse("!echo hello world", "!").unwrap();
    assert_eq!(result.command, "echo");

    let mut args = result.arguments();
    assert_eq!(args.next(), Some("hello"));
    assert_eq!(args.remainder(), "world");
    assert_eq!(args.next(), Some("world"));
    assert_eq!(args.remainder(), "");
    assert_eq!(args.next(), None);
    assert_eq!(args.remainder(), "");
}

#[test]
fn test_parse_command_with_extra_spaces() {
    let result = parse("!play  song  title with spaces  ", "!").unwrap();
    assert_eq!(result.command, "play");

    let mut args = result.arguments();
    assert_eq!(args.next(), Some("song"));
    assert_eq!(args.remainder(), "title with spaces");
    assert_eq!(args.next(), Some("title"));
    assert_eq!(args.remainder(), "with spaces");
    assert_eq!(args.next(), Some("with"));
    assert_eq!(args.remainder(), "spaces");
    assert_eq!(args.next(), Some("spaces"));
    assert_eq!(args.remainder(), "");
    assert_eq!(args.next(), None);
}

#[test]
fn test_parse_command_prefix_with_spaces_after() {
    let result = parse("!  spaced_cmd arg1 arg2", "!").unwrap();
    assert_eq!(result.command, "spaced_cmd");
    let mut args = result.arguments();
    assert_eq!(args.next(), Some("arg1"));
    assert_eq!(args.remainder(), "arg2");
    assert_eq!(args.next(), Some("arg2"));
    assert_eq!(args.remainder(), "");
    assert_eq!(args.next(), None);
}

#[test]
fn test_parse_no_args() {
    let result = parse("!kick", "!").unwrap();
    assert_eq!(result.command, "kick");
    let mut args = result.arguments();
    assert_eq!(args.next(), None);
    assert_eq!(args.remainder(), "");
}

#[test]
fn test_parse_no_args_with_spaces() {
    let result = parse("!kick  ", "!").unwrap();
    assert_eq!(result.command, "kick");
    let mut args = result.arguments();
    assert_eq!(args.next(), None);
    assert_eq!(args.remainder(), "");
}

#[test]
fn test_no_prefix() {
    assert!(parse("echo hello world", "!").is_none());
}

#[test]
fn test_wrong_prefix() {
    assert!(parse("$echo hello world", "!").is_none());
}

#[test]
fn test_only_prefix() {
    assert!(parse("!", "!").is_none());
}

#[test]
fn test_prefix_and_spaces() {
    assert!(parse("!   ", "!").is_none());
}

#[test]
fn test_empty_message() {
    assert!(parse("", "!").is_none());
}

#[test]
fn test_arguments_iterator_multiple_calls() {
    let parsed = parse("!cmd arg1 arg2 arg3", "!").unwrap();

    let mut args1 = parsed.arguments();
    assert_eq!(args1.next(), Some("arg1"));
    assert_eq!(args1.remainder(), "arg2 arg3");
    assert_eq!(args1.next(), Some("arg2"));
    assert_eq!(args1.remainder(), "arg3");

    let mut args2 = parsed.arguments();
    assert_eq!(args2.next(), Some("arg1"));
    assert_eq!(args2.remainder(), "arg2 arg3");
    assert_eq!(args2.next(), Some("arg2"));
    assert_eq!(args2.remainder(), "arg3");
    assert_eq!(args2.next(), Some("arg3"));
    assert_eq!(args2.remainder(), "");
    assert_eq!(args2.next(), None);
}

#[test]
fn test_remainder_before_next() {
    let parsed = parse("!cmd arg1 arg2 arg3", "!").unwrap();
    let args = parsed.arguments();
    assert_eq!(args.remainder(), "arg1 arg2 arg3");
}

#[test]
fn test_remainder_after_all_next() {
    let parsed = parse("!cmd arg1", "!").unwrap();
    let mut args = parsed.arguments();
    assert_eq!(args.next(), Some("arg1"));
    assert_eq!(args.remainder(), "");
    assert_eq!(args.next(), None);
    assert_eq!(args.remainder(), "");
}

#[test]
fn test_user_example() {
    let parsed = parse("!echo hello im here!", "!").unwrap();
    assert_eq!(parsed.command, "echo");
    let mut args = parsed.arguments();
    assert_eq!(args.next(), Some("hello"));
    assert_eq!(args.remainder(), "im here!");
    assert_eq!(args.next(), Some("im"));
    assert_eq!(args.remainder(), "here!");
    assert_eq!(args.next(), Some("here!"));
    assert_eq!(args.remainder(), "");
    assert_eq!(args.next(), None);
}

#[test]
fn test_args_str_with_internal_multiple_spaces() {
    let parsed = parse("!cmd  first   second  ", "!").unwrap();
    assert_eq!(parsed.command, "cmd");
    let mut args = parsed.arguments();
    assert_eq!(args.next(), Some("first"));
    assert_eq!(args.remainder(), "second");
    assert_eq!(args.next(), Some("second"));
    assert_eq!(args.remainder(), "");
    assert_eq!(args.next(), None);
}
