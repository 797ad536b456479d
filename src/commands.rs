//! The general commands, their published schemas, and what they decide.

use vstd::prelude::*;
use vstd::string::*;

use crate::definition::{CommandRegistry, CommandSchema, OptionKind, OptionSchema};
use crate::number::{nat_text, u128_to_text};
use crate::response::{
    CommandError, CommandResponse, CommandResponseBuilder, Embed, EmbedField,
};

verus! {

/// Colour of the bot's informational cards.
pub const ACCENT_COLOR: u32 = 0x1DB954;

/// A schema with no options.
pub fn bare_schema(name: &str, description: &str) -> (r: CommandSchema)
    ensures
        r.name@ == name@,
        r.description@ == description@,
        r.options@.len() == 0,
{
    CommandSchema {
        name: String::from_str(name),
        description: String::from_str(description),
        options: Vec::new(),
    }
}

/// A schema with one option.
pub fn schema_with_option(
    name: &str,
    description: &str,
    option_name: &str,
    option_description: &str,
    kind: OptionKind,
    required: bool,
) -> (r: CommandSchema)
    ensures
        r.name@ == name@,
        r.description@ == description@,
        r.options@.len() == 1,
        r.options@[0].name@ == option_name@,
        r.options@[0].description@ == option_description@,
        r.options@[0].kind == kind,
        r.options@[0].required == required,
{
    let mut options = Vec::new();
    options.push(
        OptionSchema {
            name: String::from_str(option_name),
            description: String::from_str(option_description),
            kind,
            required,
        },
    );
    CommandSchema {
        name: String::from_str(name),
        description: String::from_str(description),
        options,
    }
}

/// The guild an invocation must come from, for commands that need one.
pub fn require_guild(guild_id: Option<u64>) -> (r: Result<u64, CommandError>)
    ensures
        match guild_id {
            Some(g) => r == Ok::<u64, CommandError>(g),
            None => r matches Err(e) && e.message@ == "This command must be used in a guild."@,
        },
{
    match guild_id {
        Some(g) => Ok(g),
        None => Err(CommandError::new("This command must be used in a guild.")),
    }
}

/// Replies with the gateway latency.
pub struct PingCommand;

impl PingCommand {
    pub fn schema() -> (r: CommandSchema)
        ensures
            r.name@ == "ping"@,
            r.description@ == "Check if the bot is responsive."@,
            r.options@.len() == 0,
    {
        bare_schema("ping", "Check if the bot is responsive.")
    }

    /// The reply for the latest measured latency, or the failure when none
    /// has been measured yet.
    pub fn response(latency_ms: Option<u128>) -> (r: Result<CommandResponse, CommandError>)
        ensures
            match latency_ms {
                None => r matches Err(e) && e.message@
                    == "Latency is not available; Not enough data collected yet."@,
                Some(ms) => r matches Ok(resp) && resp.content@ == "🏓 Pong! `("@ + nat_text(
                    ms as nat,
                ) + "ms)`"@ && resp.embeds@.len() == 0 && resp.components@.len() == 0,
            },
    {
        match latency_ms {
            None => Err(CommandError::new("Latency is not available; Not enough data collected yet.")),
            Some(ms) => {
                let mut text = String::from_str("🏓 Pong! `(");
                text.append(u128_to_text(ms).as_str());
                text.append("ms)`");
                Ok(CommandResponseBuilder::new().content(text.as_str()).build())
            },
        }
    }
}

/// One line of the help text for an option.
pub open spec fn option_line(o: OptionSchema) -> Seq<char> {
    "\n"@ + o.name@ + " ("@ + (if o.required {
        "required"@
    } else {
        "optional"@
    }) + "): "@ + o.description@
}

/// The help lines of `opts`, in order.
pub open spec fn options_text(opts: Seq<OptionSchema>) -> Seq<char>
    decreases opts.len(),
{
    if opts.len() == 0 {
        seq![]
    } else {
        options_text(opts.drop_last()) + option_line(opts.last())
    }
}

/// The help text of a command: its description and its options, in a code
/// block.
pub open spec fn help_text(s: CommandSchema) -> Seq<char> {
    "```"@ + s.description@ + (if s.options@.len() == 0 {
        Seq::<char>::empty()
    } else {
        "\n\nArguments:"@ + options_text(s.options@)
    }) + "```"@
}

/// Lists every command with its description and options.
pub struct HelpCommand;

impl HelpCommand {
    pub fn schema() -> (r: CommandSchema)
        ensures
            r.name@ == "help"@,
            r.description@ == "Show the help menu for commands."@,
            r.options@.len() == 0,
    {
        bare_schema("help", "Show the help menu for commands.")
    }

    /// The help text of one command.
    pub fn command_help(s: &CommandSchema) -> (r: String)
        ensures
            r@ == help_text(*s),
    {
        let mut text = String::from_str("```");
        text.append(s.description.as_str());
        if s.options.len() > 0 {
            text.append("\n\nArguments:");
            let mut i: usize = 0;
            while i < s.options.len()
                invariant
                    i <= s.options@.len(),
                    s.options@.len() > 0,
                    text@ == "```"@ + s.description@ + "\n\nArguments:"@ + options_text(
                        s.options@.take(i as int),
                    ),
                decreases s.options@.len() - i,
            {
                let o = &s.options[i];
                let ghost before = text@;
                text.append("\n");
                text.append(o.name.as_str());
                text.append(" (");
                if o.required {
                    text.append("required");
                } else {
                    text.append("optional");
                }
                text.append("): ");
                text.append(o.description.as_str());
                proof {
                    let t = s.options@.take(i + 1);
                    assert(t.drop_last() =~= s.options@.take(i as int));
                    assert(t.last() == *o);
                    assert(text@ =~= before + option_line(*o));
                }
                i = i + 1;
            }
            assert(s.options@.take(s.options@.len() as int) =~= s.options@);
        }
        text.append("```");
        text
    }

    /// The help card: one field per registered command, in registration
    /// order, titled with the command's slash name.
    pub fn help_embed<E>(registry: &CommandRegistry<E>) -> (r: Embed)
        ensures
            r.title matches Some(t) && t@ == "Chimera Help"@,
            r.description matches Some(d) && d@ == "Here is a list of all available commands."@,
            r.color == Some(ACCENT_COLOR),
            r.fields@.len() == registry@.len(),
            forall|i: int|
                0 <= i < registry@.len() ==> {
                    &&& (#[trigger] r.fields@[i]).name@ == "/"@ + registry@[i].schema.name@
                    &&& r.fields@[i].value@ == help_text(registry@[i].schema)
                    &&& !r.fields@[i].inline
                },
    {
        let mut embed = Embed::new();
        embed.title = Some(String::from_str("Chimera Help"));
        embed.description = Some(String::from_str("Here is a list of all available commands."));
        embed.color = Some(ACCENT_COLOR);
        let n = registry.len();
        let mut fields: Vec<EmbedField> = Vec::new();
        let mut i: usize = 0;
        while i < n
            invariant
                n == registry@.len(),
                i <= n,
                fields@.len() == i,
                forall|j: int|
                    0 <= j < i ==> {
                        &&& (#[trigger] fields@[j]).name@ == "/"@ + registry@[j].schema.name@
                        &&& fields@[j].value@ == help_text(registry@[j].schema)
                        &&& !fields@[j].inline
                    },
            decreases n - i,
        {
            let s = &registry.get(i).schema;
            let mut name = String::from_str("/");
            name.append(s.name.as_str());
            let value = HelpCommand::command_help(s);
            fields.push(EmbedField { name, value, inline: false });
            i = i + 1;
        }
        embed.fields = fields;
        embed
    }

    /// The reply: the help card alone.
    pub fn response<E>(registry: &CommandRegistry<E>) -> (r: CommandResponse)
        ensures
            r.embeds@.len() == 1,
            r.content@.len() == 0,
            r.components@.len() == 0,
            r.embeds@[0].fields@.len() == registry@.len(),
            forall|i: int|
                0 <= i < registry@.len() ==> {
                    &&& (#[trigger] r.embeds@[0].fields@[i]).name@ == "/"@
                        + registry@[i].schema.name@
                    &&& r.embeds@[0].fields@[i].value@ == help_text(registry@[i].schema)
                },
    {
        CommandResponseBuilder::new().embed(HelpCommand::help_embed(registry)).build()
    }
}

} // verus!
