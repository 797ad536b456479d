//! The invocation context: one uniform surface over a free-text
//! invocation and a structured one, with typed argument extraction.

use vstd::prelude::*;
use vstd::string::*;

use crate::number::{
    bool_of_text, bool_text, bool_to_text, i64_of_text, i64_to_text, int_text, nat_text,
    parse_bool, parse_i64, parse_u64, parse_usize, u64_of_text, u64_to_text, usize_of_text,
};
use crate::prefix_parser::Arguments;
use crate::text::{lemma_next_token, next_token, str_eq, trim_start};

verus! {

/// The value of a structured option, as the platform sent it.
#[derive(Debug, Clone)]
pub enum OptionValue {
    String(String),
    Integer(i64),
    Boolean(bool),
    /// A floating-point number, held as the decimal text it displays as.
    Number(String),
    User(u64),
    Channel(u64),
    Role(u64),
    Mentionable(u64),
    /// A kind that has no text form (attachments, subcommands, partial
    /// input).
    Other,
}

/// A named option of a structured invocation.
#[derive(Debug, Clone)]
pub struct CommandOption {
    pub name: String,
    pub value: OptionValue,
}

/// The text that an option value stands for, used when no direct
/// conversion applies; `None` for kinds without one.
pub open spec fn option_text(v: OptionValue) -> Option<Seq<char>> {
    match v {
        OptionValue::String(s) => Some(s@),
        OptionValue::Integer(i) => Some(int_text(i as int)),
        OptionValue::Boolean(b) => Some(bool_text(b)),
        OptionValue::Number(t) => Some(t@),
        OptionValue::User(id) => Some(nat_text(id as nat)),
        OptionValue::Channel(id) => Some(nat_text(id as nat)),
        OptionValue::Role(id) => Some(nat_text(id as nat)),
        OptionValue::Mentionable(id) => Some(nat_text(id as nat)),
        OptionValue::Other => None,
    }
}

/// The text form of an option value.
pub fn option_value_text(v: &OptionValue) -> (r: Option<String>)
    ensures
        r is Some == option_text(*v) is Some,
        r is Some ==> r->0@ == option_text(*v)->0,
{
    match v {
        OptionValue::String(s) => Some(s.clone()),
        OptionValue::Integer(i) => Some(i64_to_text(*i)),
        OptionValue::Boolean(b) => Some(bool_to_text(*b)),
        OptionValue::Number(t) => Some(t.clone()),
        OptionValue::User(id) => Some(u64_to_text(*id)),
        OptionValue::Channel(id) => Some(u64_to_text(*id)),
        OptionValue::Role(id) => Some(u64_to_text(*id)),
        OptionValue::Mentionable(id) => Some(u64_to_text(*id)),
        OptionValue::Other => None,
    }
}

/// A type that an argument can be read as: straight from an option value
/// of a matching kind, or from text.
pub trait FromCommandOptionValue: Sized {
    /// The value taken straight from `value`, when its kind matches.
    spec fn projection(value: OptionValue) -> Option<Self>;

    /// Whether `r` is what reading `text` gives.
    spec fn parsed(text: Seq<char>, r: Option<Self>) -> bool;

    fn from_option_value(value: &OptionValue) -> (r: Option<Self>)
        ensures
            r == Self::projection(*value),
    ;

    fn from_text(text: &str) -> (r: Option<Self>)
        ensures
            Self::parsed(text@, r),
    ;
}

impl FromCommandOptionValue for String {
    open spec fn projection(value: OptionValue) -> Option<String> {
        match value {
            OptionValue::String(s) => Some(s),
            _ => None,
        }
    }

    open spec fn parsed(text: Seq<char>, r: Option<String>) -> bool {
        r is Some && r->0@ == text
    }

    fn from_option_value(value: &OptionValue) -> (r: Option<String>) {
        match value {
            OptionValue::String(s) => Some(s.clone()),
            _ => None,
        }
    }

    fn from_text(text: &str) -> (r: Option<String>) {
        Some(String::from_str(text))
    }
}

impl FromCommandOptionValue for i64 {
    open spec fn projection(value: OptionValue) -> Option<i64> {
        match value {
            OptionValue::Integer(i) => Some(i),
            _ => None,
        }
    }

    open spec fn parsed(text: Seq<char>, r: Option<i64>) -> bool {
        r == i64_of_text(text)
    }

    fn from_option_value(value: &OptionValue) -> (r: Option<i64>) {
        match value {
            OptionValue::Integer(i) => Some(*i),
            _ => None,
        }
    }

    fn from_text(text: &str) -> (r: Option<i64>) {
        parse_i64(text)
    }
}

impl FromCommandOptionValue for u64 {
    open spec fn projection(value: OptionValue) -> Option<u64> {
        match value {
            OptionValue::Integer(i) => if i >= 0 {
                Some(i as u64)
            } else {
                None
            },
            OptionValue::User(id) => Some(id),
            OptionValue::Channel(id) => Some(id),
            OptionValue::Role(id) => Some(id),
            OptionValue::Mentionable(id) => Some(id),
            OptionValue::String(s) => u64_of_text(s@),
            _ => None,
        }
    }

    open spec fn parsed(text: Seq<char>, r: Option<u64>) -> bool {
        r == u64_of_text(text)
    }

    fn from_option_value(value: &OptionValue) -> (r: Option<u64>) {
        match value {
            OptionValue::Integer(i) => if *i >= 0 {
                Some(*i as u64)
            } else {
                None
            },
            OptionValue::User(id) => Some(*id),
            OptionValue::Channel(id) => Some(*id),
            OptionValue::Role(id) => Some(*id),
            OptionValue::Mentionable(id) => Some(*id),
            OptionValue::String(s) => parse_u64(s.as_str()),
            _ => None,
        }
    }

    fn from_text(text: &str) -> (r: Option<u64>) {
        parse_u64(text)
    }
}

impl FromCommandOptionValue for usize {
    open spec fn projection(value: OptionValue) -> Option<usize> {
        match value {
            OptionValue::Integer(i) => if 0 <= i <= usize::MAX {
                Some(i as usize)
            } else {
                None
            },
            _ => None,
        }
    }

    open spec fn parsed(text: Seq<char>, r: Option<usize>) -> bool {
        r == usize_of_text(text)
    }

    fn from_option_value(value: &OptionValue) -> (r: Option<usize>) {
        match value {
            OptionValue::Integer(i) => if *i >= 0 && (*i as u64) <= (usize::MAX as u64) {
                Some(*i as usize)
            } else {
                None
            },
            _ => None,
        }
    }

    fn from_text(text: &str) -> (r: Option<usize>) {
        parse_usize(text)
    }
}

impl FromCommandOptionValue for bool {
    open spec fn projection(value: OptionValue) -> Option<bool> {
        match value {
            OptionValue::Boolean(b) => Some(b),
            _ => None,
        }
    }

    open spec fn parsed(text: Seq<char>, r: Option<bool>) -> bool {
        r == bool_of_text(text)
    }

    fn from_option_value(value: &OptionValue) -> (r: Option<bool>) {
        match value {
            OptionValue::Boolean(b) => Some(*b),
            _ => None,
        }
    }

    fn from_text(text: &str) -> (r: Option<bool>) {
        parse_bool(text)
    }
}

/// Whether `r` is what an argument of type `T` reads as from option value
/// `v`: the direct conversion when the kind matches, else the value's text
/// read as `T`.
pub open spec fn value_arg<T: FromCommandOptionValue>(v: OptionValue, r: Option<T>) -> bool {
    match T::projection(v) {
        Some(x) => r == Some(x),
        None => match option_text(v) {
            Some(t) => T::parsed(t, r),
            None => r is None,
        },
    }
}

/// Reads option value `v` as a `T`: directly when its kind matches, else by
/// reading its text.
pub fn arg_from_value<T: FromCommandOptionValue>(v: &OptionValue) -> (r: Option<T>)
    ensures
        value_arg(*v, r),
{
    match T::from_option_value(v) {
        Some(x) => Some(x),
        None => match option_value_text(v) {
            Some(t) => T::from_text(t.as_str()),
            None => None,
        },
    }
}

/// Whether option `i` is the first one named `name`.
pub open spec fn is_first_named(options: Seq<CommandOption>, name: Seq<char>, i: int) -> bool {
    &&& 0 <= i < options.len()
    &&& options[i].name@ == name
    &&& forall|j: int| 0 <= j < i ==> (#[trigger] options[j]).name@ != name
}

/// Index of the first option named `name`.
pub open spec fn option_index(options: Seq<CommandOption>, name: Seq<char>) -> Option<int> {
    if exists|i: int| is_first_named(options, name, i) {
        Some(choose|i: int| is_first_named(options, name, i))
    } else {
        None
    }
}

/// Whether `r` is what `get_arg` gives for `name` on options `options`.
pub open spec fn slash_arg<T: FromCommandOptionValue>(
    options: Seq<CommandOption>,
    name: Seq<char>,
    r: Option<T>,
) -> bool {
    match option_index(options, name) {
        None => r is None,
        Some(i) => value_arg(options[i].value, r),
    }
}

/// Index of the first option named `name`, if any.
pub fn find_option(options: &Vec<CommandOption>, name: &str) -> (r: Option<usize>)
    ensures
        match r {
            None => option_index(options@, name@) is None,
            Some(i) => option_index(options@, name@) == Some(i as int),
        },
{
    let mut i: usize = 0;
    while i < options.len()
        invariant
            i <= options@.len(),
            forall|j: int| 0 <= j < i ==> (#[trigger] options@[j]).name@ != name@,
        decreases options@.len() - i,
    {
        if str_eq(options[i].name.as_str(), name) {
            assert(is_first_named(options@, name@, i as int));
            proof {
                let c = choose|k: int| is_first_named(options@, name@, k);
                if c < i {
                    assert(options@[c].name@ != name@);
                } else if c > i {
                    assert(options@[i as int].name@ != name@);
                }
            }
            return Some(i);
        }
        i = i + 1;
    }
    assert forall|k: int| !is_first_named(options@, name@, k) by {
        if 0 <= k < options@.len() {
            assert(options@[k].name@ != name@);
        }
    }
    None
}

/// The author of a message or interaction.
#[derive(Debug, Clone)]
pub struct User {
    pub id: u64,
    pub name: String,
    /// Whether the account is automated.
    pub bot: bool,
}

/// A free-text invocation: where the message came from and a cursor over
/// its argument text.
pub struct PrefixContext<'a> {
    pub message_id: u64,
    pub channel_id: u64,
    pub guild_id: Option<u64>,
    pub author: User,
    pub parsed: Arguments<'a>,
    pub prefix: String,
}

/// The name and options of a structured invocation.
#[derive(Debug, Clone)]
pub struct CommandData {
    pub name: String,
    pub options: Vec<CommandOption>,
}

/// A structured invocation: its envelope and its typed options.
pub struct SlashContext {
    pub interaction_id: u64,
    pub application_id: u64,
    pub user: Option<User>,
    pub guild_id: Option<u64>,
    pub channel_id: Option<u64>,
    pub data: CommandData,
}

/// An invocation of either surface.
pub enum CommandContext<'a> {
    Prefix(PrefixContext<'a>),
    Slash(SlashContext),
}

/// Whether `f` is `o` with only its cursor moved.
pub open spec fn same_origin(o: PrefixContext, f: PrefixContext) -> bool {
    &&& f.message_id == o.message_id
    &&& f.channel_id == o.channel_id
    &&& f.guild_id == o.guild_id
    &&& f.author == o.author
    &&& f.prefix == o.prefix
}

/// Whether `r` and the cursor `after` are what reading one argument of type
/// `T` from the cursor `before` gives: the next token read as `T`, or
/// `None` with the cursor unmoved when no token is left.
pub open spec fn prefix_arg<T: FromCommandOptionValue>(
    before: Seq<char>,
    after: Seq<char>,
    r: Option<T>,
) -> bool {
    match next_token(before) {
        None => r is None && after == before,
        Some(p) => T::parsed(p.0, r) && after == p.1,
    }
}

impl<'a> PrefixContext<'a> {
    /// Reads the next token as a `T`, moving the cursor past it.
    pub fn next_arg<T: FromCommandOptionValue>(&mut self) -> (r: Option<T>)
        ensures
            same_origin(*old(self), *final(self)),
            prefix_arg(old(self).parsed@, final(self).parsed@, r),
    {
        match self.parsed.next() {
            Some(s) => T::from_text(s),
            None => None,
        }
    }

    /// The untouched remainder, `None` when empty; no token is left after.
    pub fn take_remainder(&mut self) -> (r: Option<String>)
        ensures
            same_origin(*old(self), *final(self)),
            next_token(final(self).parsed@) is None,
            if trim_start(old(self).parsed@).len() == 0 {
                r is None
            } else {
                r is Some && r->0@ == trim_start(old(self).parsed@)
            },
    {
        let remainder = self.parsed.remainder();
        let empty = remainder.unicode_len() == 0;
        let text = String::from_str(remainder);
        loop
            invariant_except_break
                same_origin(*old(self), *self),
            ensures
                same_origin(*old(self), *self),
                next_token(self.parsed@) is None,
            decreases self.parsed@.len(),
        {
            proof {
                lemma_next_token(self.parsed@);
            }
            if self.parsed.next().is_none() {
                break;
            }
        }
        if empty {
            None
        } else {
            Some(text)
        }
    }
}

impl SlashContext {
    /// Reads the first option named `name` as a `T`.
    pub fn option_arg<T: FromCommandOptionValue>(&self, name: &str) -> (r: Option<T>)
        ensures
            slash_arg(self.data.options@, name@, r),
    {
        match find_option(&self.data.options, name) {
            Some(i) => {
                arg_from_value(&self.data.options[i].value)
            },
            None => None,
        }
    }
}

impl<'a> CommandContext<'a> {
    /// Reads the argument `name` as a `T`. A free-text invocation reads its
    /// next token, whatever the name; a structured one reads the first
    /// option of that name, directly or through its text. `None` when the
    /// argument is missing or does not read as a `T`.
    pub fn get_arg<T: FromCommandOptionValue>(&mut self, name: &str) -> (r: Option<T>)
        ensures
            match (*old(self), *final(self)) {
                (CommandContext::Prefix(o), CommandContext::Prefix(f)) => same_origin(o, f)
                    && prefix_arg(o.parsed@, f.parsed@, r),
                (CommandContext::Slash(o), CommandContext::Slash(f)) => f == o && slash_arg(
                    o.data.options@,
                    name@,
                    r,
                ),
                _ => false,
            },
    {
        match self {
            CommandContext::Prefix(p) => p.next_arg(),
            CommandContext::Slash(s) => s.option_arg(name),
        }
    }

    /// The rest of the argument text as one argument. A free-text
    /// invocation hands back its untouched remainder, `None` when empty, and
    /// leaves no token behind; a structured one reads option `name` as text.
    pub fn get_remainder_arg(&mut self, name: &str) -> (r: Option<String>)
        ensures
            match (*old(self), *final(self)) {
                (CommandContext::Prefix(o), CommandContext::Prefix(f)) => {
                    let rem = trim_start(o.parsed@);
                    &&& same_origin(o, f)
                    &&& next_token(f.parsed@) is None
                    &&& if rem.len() == 0 {
                        r is None
                    } else {
                        r is Some && r->0@ == rem
                    }
                },
                (CommandContext::Slash(o), CommandContext::Slash(f)) => f == o && slash_arg(
                    o.data.options@,
                    name@,
                    r,
                ),
                _ => false,
            },
    {
        match self {
            CommandContext::Prefix(p) => p.take_remainder(),
            CommandContext::Slash(s) => s.option_arg(name),
        }
    }

    /// The author, when the platform names one.
    pub fn author(&self) -> (r: Option<&User>)
        ensures
            match self {
                CommandContext::Prefix(p) => r == Some(&p.author),
                CommandContext::Slash(s) => match s.user {
                    Some(u) => r == Some(&u),
                    None => r is None,
                },
            },
    {
        match self {
            CommandContext::Prefix(p) => Some(&p.author),
            CommandContext::Slash(s) => s.user.as_ref(),
        }
    }

    /// The community (guild) the invocation came from, if any.
    pub fn guild_id(&self) -> (r: Option<u64>)
        ensures
            r == match self {
                CommandContext::Prefix(p) => p.guild_id,
                CommandContext::Slash(s) => s.guild_id,
            },
    {
        match self {
            CommandContext::Prefix(p) => p.guild_id,
            CommandContext::Slash(s) => s.guild_id,
        }
    }

    /// The channel the invocation came from, if the platform gives one.
    pub fn channel_id(&self) -> (r: Option<u64>)
        ensures
            r == match self {
                CommandContext::Prefix(p) => Some(p.channel_id),
                CommandContext::Slash(s) => s.channel_id,
            },
    {
        match self {
            CommandContext::Prefix(p) => Some(p.channel_id),
            CommandContext::Slash(s) => s.channel_id,
        }
    }
}

} // verus!
