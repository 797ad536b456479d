//! Replies built independently of the surface that delivers them: rich
//! cards, interactive buttons, plain text, and the formatted error reply.

use vstd::prelude::*;
use vstd::string::*;

verus! {

/// One name/value line of a rich card.
#[derive(Debug, Clone)]
pub struct EmbedField {
    pub name: String,
    pub value: String,
    pub inline: bool,
}

/// A rich card.
#[derive(Debug, Clone)]
pub struct Embed {
    pub title: Option<String>,
    pub description: Option<String>,
    pub color: Option<u32>,
    pub fields: Vec<EmbedField>,
    pub thumbnail: Option<String>,
    pub url: Option<String>,
    /// The card's time, in seconds since the Unix epoch.
    pub timestamp: Option<i64>,
}

impl Embed {
    /// A card with nothing set.
    pub fn new() -> (r: Embed)
        ensures
            r.title is None,
            r.description is None,
            r.color is None,
            r.fields@.len() == 0,
            r.thumbnail is None,
            r.url is None,
            r.timestamp is None,
    {
        Embed {
            title: None,
            description: None,
            color: None,
            fields: Vec::new(),
            thumbnail: None,
            url: None,
            timestamp: None,
        }
    }
}

#[derive(Debug, Clone, Copy, PartialEq, Eq, Structural)]
pub enum ButtonStyle {
    Primary,
    Secondary,
    Success,
    Danger,
    Link,
}

/// A clickable button; `custom_id` is the identifier a click is routed by.
#[derive(Debug, Clone)]
pub struct Button {
    pub custom_id: Option<String>,
    pub label: Option<String>,
    pub style: ButtonStyle,
    pub url: Option<String>,
    pub disabled: bool,
}

/// A row of buttons.
#[derive(Debug, Clone)]
pub struct ActionRow {
    pub components: Vec<Button>,
}

/// An interactive element of a reply.
#[derive(Debug, Clone)]
pub enum Component {
    ActionRow(ActionRow),
    Button(Button),
}

/// A composite reply: text, rich cards and interactive elements, each
/// possibly empty.
#[derive(Debug, Clone)]
pub struct CommandResponse {
    pub embeds: Vec<Embed>,
    pub content: String,
    pub components: Vec<Component>,
}

/// What goes on the wire for a reply: every empty part is left out rather
/// than sent empty.
#[derive(Debug, Clone)]
pub struct ResponsePayload {
    pub content: Option<String>,
    pub embeds: Option<Vec<Embed>>,
    pub components: Option<Vec<Component>>,
}

impl CommandResponse {
    /// The parts to send, with each empty part omitted.
    pub fn into_payload(self) -> (r: ResponsePayload)
        ensures
            r.content == (if self.content@.len() == 0 {
                None
            } else {
                Some(self.content)
            }),
            r.embeds == (if self.embeds@.len() == 0 {
                None
            } else {
                Some(self.embeds)
            }),
            r.components == (if self.components@.len() == 0 {
                None
            } else {
                Some(self.components)
            }),
    {
        let content = if self.content.as_str().is_empty() {
            None
        } else {
            Some(self.content)
        };
        let embeds = if self.embeds.len() == 0 {
            None
        } else {
            Some(self.embeds)
        };
        let components = if self.components.len() == 0 {
            None
        } else {
            Some(self.components)
        };
        ResponsePayload { content, embeds, components }
    }
}

/// Accumulates the parts of a reply.
pub struct CommandResponseBuilder {
    embeds: Vec<Embed>,
    content: String,
    components: Vec<Component>,
}

impl View for CommandResponseBuilder {
    type V = (Seq<Embed>, Seq<char>, Seq<Component>);

    /// The cards, the text and the interactive elements gathered so far.
    closed spec fn view(&self) -> Self::V {
        (self.embeds@, self.content@, self.components@)
    }
}

impl CommandResponseBuilder {
    pub fn new() -> (r: Self)
        ensures
            r@.0.len() == 0,
            r@.1.len() == 0,
            r@.2.len() == 0,
    {
        CommandResponseBuilder { embeds: Vec::new(), content: String::new(), components: Vec::new() }
    }

    /// Adds a rich card after those already there.
    pub fn embed(self, embed: Embed) -> (r: Self)
        ensures
            r@ == (self@.0.push(embed), self@.1, self@.2),
    {
        let mut b = self;
        b.embeds.push(embed);
        b
    }

    /// Sets the text, replacing any set before.
    pub fn content(self, content: &str) -> (r: Self)
        ensures
            r@ == (self@.0, content@, self@.2),
    {
        let mut b = self;
        b.content = String::from_str(content);
        b
    }

    /// Adds an interactive element after those already there.
    pub fn component(self, component: Component) -> (r: Self)
        ensures
            r@ == (self@.0, self@.1, self@.2.push(component)),
    {
        let mut b = self;
        b.components.push(component);
        b
    }

    pub fn build(self) -> (r: CommandResponse)
        ensures
            r.embeds@ == self@.0,
            r.content@ == self@.1,
            r.components@ == self@.2,
    {
        CommandResponse { embeds: self.embeds, content: self.content, components: self.components }
    }
}

/// A failure of a command, with the text shown to the user.
#[derive(Debug, Clone)]
pub struct CommandError {
    pub message: String,
}

impl CommandError {
    pub fn new(message: &str) -> (r: CommandError)
        ensures
            r.message@ == message@,
    {
        CommandError { message: String::from_str(message) }
    }

    /// The text of the failure.
    pub fn to_string(&self) -> (r: String)
        ensures
            r@ == self.message@,
    {
        self.message.clone()
    }
}

/// Colour of the error card.
pub const ERROR_COLOR: u32 = 0xdd7878;

/// Text of the error card for a failure whose message is `message`.
pub open spec fn error_description(message: Seq<char>) -> Seq<char> {
    "I ran into a problem trying to do that:\n```\n"@ + message + "```"@
}

/// The error reply for `message`, apart from its time: no text, no
/// interactive element, and one card titled "Command Error" in the error
/// colour whose description quotes the message.
pub open spec fn is_error_response(r: CommandResponse, message: Seq<char>) -> bool {
    &&& r.content@.len() == 0
    &&& r.components@.len() == 0
    &&& r.embeds@.len() == 1
    &&& r.embeds@[0].title matches Some(t) && t@ == "Command Error"@
    &&& r.embeds@[0].description matches Some(d) && d@ == error_description(message)
    &&& r.embeds@[0].color == Some(ERROR_COLOR)
    &&& r.embeds@[0].fields@.len() == 0
    &&& r.embeds@[0].thumbnail is None
    &&& r.embeds@[0].url is None
}

/// The error reply for `error`, stamped with `timestamp`.
pub fn error_response_at(error: &CommandError, timestamp: Option<i64>) -> (r: CommandResponse)
    ensures
        is_error_response(r, error.message@),
        r.embeds@[0].timestamp == timestamp,
{
    let mut description = String::from_str("I ran into a problem trying to do that:\n```\n");
    description.append(error.message.as_str());
    description.append("```");
    let mut embed = Embed::new();
    embed.title = Some(String::from_str("Command Error"));
    embed.description = Some(description);
    embed.color = Some(ERROR_COLOR);
    embed.timestamp = timestamp;
    let mut embeds = Vec::new();
    embeds.push(embed);
    CommandResponse { embeds, content: String::new(), components: Vec::new() }
}

/// Relies on chrono's `Utc::now` and `DateTime::timestamp`: the current
/// time in seconds since the Unix epoch. Nothing is promised of which time
/// it is.
#[verifier::external_body]
pub(crate) fn utc_now_secs() -> (r: i64) {
    chrono::Utc::now().timestamp()
}

/// The error reply for `error`, stamped with the current time.
pub fn create_error_response(error: &CommandError) -> (r: CommandResponse)
    ensures
        is_error_response(r, error.message@),
        r.embeds@[0].timestamp is Some,
{
    let now = utc_now_secs();
    error_response_at(error, Some(now))
}

} // verus!
