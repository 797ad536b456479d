use chimera::context::{
    CommandContext, CommandData, CommandOption, OptionValue, PrefixContext, SlashContext, User,
};
use chimera::prefix_parser::parse;

fn slash(options: Vec<CommandOption>) -> CommandContext<'static> {
    CommandContext::Slash(SlashContext {
        interaction_id: 1,
        application_id: 2,
        user: None,
        guild_id: Some(7),
        channel_id: None,
        data: CommandData { name: "jump".to_string(), options },
    })
}

fn opt(name: &str, value: OptionValue) -> CommandOption {
    CommandOption { name: name.to_string(), value }
}

fn prefix_ctx(args: &str) -> CommandContext<'_> {
    CommandContext::Prefix(PrefixContext {
        message_id: 10,
        channel_id: 20,
        guild_id: None,
        author: User { id: 5, name: "ana".to_string(), bot: false },
        parsed: chimera::prefix_parser::Arguments::new(args),
        prefix: ";".to_string(),
    })
}

#[test]
fn scenario_integer_option_read_as_i64() {
    let mut ctx = slash(vec![opt("position", OptionValue::Integer(3))]);
    assert_eq!(ctx.get_arg::<i64>("position"), Some(3));
}

#[test]
fn missing_option_is_none() {
    let mut ctx = slash(vec![opt("position", OptionValue::Integer(3))]);
    assert_eq!(ctx.get_arg::<i64>("volume"), None);
}

#[test]
fn string_option_falls_back_to_parsing() {
    let mut ctx = slash(vec![opt("n", OptionValue::String("42".to_string()))]);
    assert_eq!(ctx.get_arg::<i64>("n"), Some(42));
    assert_eq!(ctx.get_arg::<usize>("n"), Some(42));
    assert_eq!(ctx.get_arg::<u64>("n"), Some(42));
    assert_eq!(ctx.get_arg::<bool>("n"), None);
}

#[test]
fn integer_option_read_as_text() {
    let mut ctx = slash(vec![opt("n", OptionValue::Integer(-3))]);
    assert_eq!(ctx.get_arg::<String>("n"), Some("-3".to_string()));
    assert_eq!(ctx.get_arg::<u64>("n"), None);
    assert_eq!(ctx.get_arg::<usize>("n"), None);
}

#[test]
fn ids_and_booleans_and_numbers() {
    let mut ctx = slash(vec![
        opt("who", OptionValue::User(123456789012345678)),
        opt("flag", OptionValue::Boolean(true)),
        opt("x", OptionValue::Number("2.5".to_string())),
        opt("file", OptionValue::Other),
    ]);
    assert_eq!(ctx.get_arg::<u64>("who"), Some(123456789012345678));
    assert_eq!(ctx.get_arg::<String>("who"), Some("123456789012345678".to_string()));
    assert_eq!(ctx.get_arg::<bool>("flag"), Some(true));
    assert_eq!(ctx.get_arg::<String>("flag"), Some("true".to_string()));
    assert_eq!(ctx.get_arg::<String>("x"), Some("2.5".to_string()));
    assert_eq!(ctx.get_arg::<i64>("x"), None);
    assert_eq!(ctx.get_arg::<String>("file"), None);
}

#[test]
fn first_option_of_a_name_wins() {
    let mut ctx = slash(vec![opt("a", OptionValue::Integer(1)), opt("a", OptionValue::Integer(2))]);
    assert_eq!(ctx.get_arg::<i64>("a"), Some(1));
}

#[test]
fn prefix_arguments_are_read_in_order() {
    let mut ctx = prefix_ctx(" 5  -7 x 18446744073709551616");
    assert_eq!(ctx.get_arg::<u64>("first"), Some(5));
    assert_eq!(ctx.get_arg::<i64>("second"), Some(-7));
    assert_eq!(ctx.get_arg::<i64>("third"), None);
    assert_eq!(ctx.get_arg::<u64>("fourth"), None);
    assert_eq!(ctx.get_arg::<i64>("fifth"), None);
}

#[test]
fn number_edges() {
    let mut ctx = prefix_ctx("-9223372036854775808 9223372036854775808 +12 -0 + 18446744073709551615");
    assert_eq!(ctx.get_arg::<i64>("a"), Some(i64::MIN));
    assert_eq!(ctx.get_arg::<i64>("b"), None);
    assert_eq!(ctx.get_arg::<u64>("c"), Some(12));
    assert_eq!(ctx.get_arg::<u64>("d"), None);
    assert_eq!(ctx.get_arg::<i64>("e"), None);
    assert_eq!(ctx.get_arg::<u64>("f"), Some(u64::MAX));
}

#[test]
fn remainder_arg_drains_the_cursor() {
    let mut ctx = prefix_ctx("  never gonna   give  ");
    assert_eq!(ctx.get_remainder_arg("song"), Some("never gonna   give  ".to_string()));
    assert_eq!(ctx.get_arg::<String>("next"), None);
    assert_eq!(ctx.get_remainder_arg("song"), None);
}

#[test]
fn remainder_arg_from_a_parsed_message() {
    let parsed = parse(";play  never gonna   give  ", ";").unwrap();
    let mut ctx = CommandContext::Prefix(PrefixContext {
        message_id: 1,
        channel_id: 2,
        guild_id: Some(3),
        author: User { id: 4, name: "b".to_string(), bot: false },
        parsed: parsed.arguments(),
        prefix: ";".to_string(),
    });
    assert_eq!(ctx.get_remainder_arg("song"), Some("never gonna   give".to_string()));
}

#[test]
fn remainder_arg_on_structured_invocation() {
    let mut ctx = slash(vec![opt("song", OptionValue::String("a b".to_string()))]);
    assert_eq!(ctx.get_remainder_arg("song"), Some("a b".to_string()));
    assert_eq!(ctx.get_remainder_arg("other"), None);
}

#[test]
fn envelope_accessors() {
    let ctx = prefix_ctx("x");
    assert_eq!(ctx.author().map(|u| u.id), Some(5));
    assert_eq!(ctx.guild_id(), None);
    assert_eq!(ctx.channel_id(), Some(20));
    let ctx = slash(vec![]);
    assert!(ctx.author().is_none());
    assert_eq!(ctx.guild_id(), Some(7));
    assert_eq!(ctx.channel_id(), None);
}
