//! The music commands: their schemas and the decisions they make around
//! the playback node's answers.

use twilight_mention::Mention;
use vstd::prelude::*;
use vstd::string::*;

use crate::commands::{ACCENT_COLOR, bare_schema, schema_with_option};
use crate::components::{action_menu, is_button};
use crate::definition::{CommandSchema, OptionKind};
use crate::number::{int_text, i64_to_text, nat_text, u128_to_text, u64_to_text};
use crate::response::{
    ButtonStyle, CommandError, CommandResponse, CommandResponseBuilder, Component, Embed,
    EmbedField, utc_now_secs,
};
use crate::text::{
    char_count, contains, contains_text, count_char, has_prefix, join_lines, starts_with,
};

verus! {

/// What the bot shows of a track.
#[derive(Debug, Clone)]
pub struct TrackInfo {
    pub title: String,
    pub author: String,
    pub uri: Option<String>,
    pub artwork_url: Option<String>,
    /// Length in milliseconds.
    pub length_ms: u64,
}

/// The ids a voice command needs: the author's and the guild's.
pub fn voice_ids(author: Option<u64>, guild_id: Option<u64>) -> (r: Result<(u64, u64), CommandError>)
    ensures
        match (author, guild_id) {
            (Some(a), Some(g)) => r == Ok::<(u64, u64), CommandError>((a, g)),
            (None, _) => r matches Err(e) && e.message@ == "Interaction is missing author information."@,
            (Some(_), None) => r matches Err(e) && e.message@ == "This command must be used in a guild."@,
        },
{
    match author {
        None => Err(CommandError::new("Interaction is missing author information.")),
        Some(a) => match guild_id {
            None => Err(CommandError::new("This command must be used in a guild.")),
            Some(g) => Ok((a, g)),
        },
    }
}

/// The voice channel the author is in, which voice commands require.
pub fn require_voice_channel(channel: Option<u64>) -> (r: Result<u64, CommandError>)
    ensures
        match channel {
            Some(c) => r == Ok::<u64, CommandError>(c),
            None => r matches Err(e) && e.message@
                == "You must be in a voice channel to use this command."@,
        },
{
    match channel {
        Some(c) => Ok(c),
        None => Err(CommandError::new("You must be in a voice channel to use this command.")),
    }
}

/// Relies on twilight-mention's `Mention` for channel ids, which writes
/// `<#`, the id in decimal, and `>`. `Id::new` panics on zero.
#[verifier::external_body]
fn channel_mention(channel_id: u64) -> (r: String)
    requires
        channel_id != 0,
    ensures
        r@ == "<#"@ + nat_text(channel_id as nat) + ">"@,
{
    twilight_model::id::Id::<twilight_model::id::marker::ChannelMarker>::new(channel_id).mention().to_string()
}

/// The notice sent after joining the voice channel `channel_id`.
pub fn joined_message(channel_id: u64) -> (r: String)
    requires
        channel_id != 0,
    ensures
        r@ == "🎙\u{fe0f} Joined <#"@ + nat_text(channel_id as nat) + ">"@,
{
    let mut s = String::from_str("🎙\u{fe0f} Joined ");
    s.append(channel_mention(channel_id).as_str());
    proof {
        reveal_strlit("🎙\u{fe0f} Joined ");
        reveal_strlit("🎙\u{fe0f} Joined <#");
        reveal_strlit("<#");
        assert(s@ =~= "🎙\u{fe0f} Joined <#"@ + nat_text(channel_id as nat) + ">"@);
    }
    s
}

/// Relies on lavalink-rs `SearchEngines::to_query`, which for Spotify is
/// `"spsearch:"` followed by the query, and never an error.
#[verifier::external_body]
fn spotify_query(query: &str) -> (r: Option<String>)
    ensures
        r is Some,
        r.unwrap()@ == "spsearch:"@ + query@,
{
    lavalink_rs::model::search::SearchEngines::Spotify.to_query(query).ok()
}

/// What is sent to the node for a song query: links, `source:id` forms and
/// `artist - title` forms as they are, anything else as a Spotify search.
pub open spec fn query_term_spec(song: Seq<char>) -> Seq<char> {
    if has_prefix(song, "http"@) || count_char(song, ':') == 1 || contains_text(song, " - "@) {
        song
    } else {
        "spsearch:"@ + song
    }
}

/// The result of loading a query on the playback node.
#[derive(Debug, Clone)]
pub enum TrackLoad {
    Track(TrackInfo),
    Search(Vec<TrackInfo>),
    Playlist(String, Vec<TrackInfo>),
    Error(String),
    /// The node sent no data.
    Empty,
}

/// What to do with loaded tracks.
#[derive(Debug, Clone)]
pub enum PlayPlan {
    /// Queue the first `count` loaded tracks and reply with `message`.
    Queue { count: usize, message: String },
    /// Queue nothing; reply with the text.
    Reply(String),
}

/// The reply after queueing one track.
pub open spec fn queued_track_text(t: TrackInfo) -> Seq<char> {
    match t.uri {
        Some(u) => "`＋` Queued [`"@ + t.title@ + "`](<"@ + u@ + ">)"@,
        None => "`＋` Queued: `"@ + t.title@ + "`"@,
    }
}

/// The reply after queueing a playlist of `n` tracks.
pub open spec fn queued_playlist_text(name: Seq<char>, n: nat) -> Seq<char> {
    "`＋`Queued playlist: ["@ + name + "] ("@ + nat_text(n) + " tracks)"@
}

/// Plays a song or playlist.
pub struct PlayCommand {
    pub song: String,
}

impl PlayCommand {
    pub fn schema() -> (r: CommandSchema)
        ensures
            r.name@ == "play"@,
            r.description@ == "Play a song from YouTube or other sources."@,
            r.options@.len() == 1,
            r.options@[0].name@ == "song"@,
            r.options@[0].kind == OptionKind::String,
            r.options@[0].required,
    {
        schema_with_option(
            "play",
            "Play a song from YouTube or other sources.",
            "song",
            "The song to play",
            OptionKind::String,
            true,
        )
    }

    /// The failure when no song was given.
    pub fn missing_song() -> (r: CommandError)
        ensures
            r.message@ == "You must provide a song name or URL to play."@,
    {
        CommandError::new("You must provide a song name or URL to play.")
    }

    /// The query to load for `song`.
    pub fn query_term(song: &str) -> (r: String)
        ensures
            r@ == query_term_spec(song@),
    {
        if starts_with(song, "http") || char_count(song, ':') == 1 || contains(song, " - ") {
            String::from_str(song)
        } else {
            match spotify_query(song) {
                Some(q) => q,
                None => String::from_str(song),
            }
        }
    }

    /// The reply after queueing the track `t`.
    pub fn queued_track_message(t: &TrackInfo) -> (r: String)
        ensures
            r@ == queued_track_text(*t),
    {
        match &t.uri {
            Some(u) => {
                let mut s = String::from_str("`＋` Queued [`");
                s.append(t.title.as_str());
                s.append("`](<");
                s.append(u.as_str());
                s.append(">)");
                s
            },
            None => {
                let mut s = String::from_str("`＋` Queued: `");
                s.append(t.title.as_str());
                s.append("`");
                s
            },
        }
    }

    /// What to queue and reply for what the node loaded: one track for a
    /// track or a search, every track of a playlist, none for an error or
    /// no data. A search without results fails.
    pub fn plan(load: &TrackLoad) -> (r: Result<PlayPlan, CommandError>)
        ensures
            match *load {
                TrackLoad::Track(t) => r matches Ok(PlayPlan::Queue { count, message }) && count
                    == 1 && message@ == queued_track_text(t),
                TrackLoad::Search(v) => if v@.len() == 0 {
                    r matches Err(e) && e.message@ == "No tracks found from search."@
                } else {
                    r matches Ok(PlayPlan::Queue { count, message }) && count == 1 && message@
                        == queued_track_text(v@[0])
                },
                TrackLoad::Playlist(name, v) => if v@.len() == 0 {
                    r matches Ok(PlayPlan::Reply(m)) && m@ == "No tracks were loaded to queue."@
                } else {
                    r matches Ok(PlayPlan::Queue { count, message }) && count == v@.len()
                        && message@ == queued_playlist_text(name@, v@.len())
                },
                TrackLoad::Error(m) => r matches Ok(PlayPlan::Reply(t)) && t@
                    == "Error loading tracks: "@ + m@,
                TrackLoad::Empty => r matches Ok(PlayPlan::Reply(t)) && t@
                    == "Failed to load tracks: received no data from Lavalink."@,
            },
    {
        match load {
            TrackLoad::Track(t) => Ok(
                PlayPlan::Queue { count: 1, message: PlayCommand::queued_track_message(t) },
            ),
            TrackLoad::Search(v) => {
                if v.len() == 0 {
                    Err(CommandError::new("No tracks found from search."))
                } else {
                    Ok(PlayPlan::Queue { count: 1, message: PlayCommand::queued_track_message(&v[0]) })
                }
            },
            TrackLoad::Playlist(name, v) => {
                if v.len() == 0 {
                    Ok(PlayPlan::Reply(String::from_str("No tracks were loaded to queue.")))
                } else {
                    let mut s = String::from_str("`＋`Queued playlist: [");
                    s.append(name.as_str());
                    s.append("] (");
                    s.append(u64_to_text(v.len() as u64).as_str());
                    s.append(" tracks)");
                    Ok(PlayPlan::Queue { count: v.len(), message: s })
                }
            },
            TrackLoad::Error(m) => {
                let mut s = String::from_str("Error loading tracks: ");
                s.append(m.as_str());
                Ok(PlayPlan::Reply(s))
            },
            TrackLoad::Empty => Ok(
                PlayPlan::Reply(
                    String::from_str("Failed to load tracks: received no data from Lavalink."),
                ),
            ),
        }
    }
}

/// Stops playback and leaves the voice channel.
pub struct StopCommand;

impl StopCommand {
    pub fn schema() -> (r: CommandSchema)
        ensures
            r.name@ == "stop"@,
            r.description@ == "Stop the current music playback."@,
            r.options@.len() == 0,
    {
        bare_schema("stop", "Stop the current music playback.")
    }

    pub fn response() -> (r: CommandResponse)
        ensures
            r.content@ == "⏹\u{fe0f} Stopped"@,
            r.embeds@.len() == 0,
            r.components@.len() == 0,
    {
        CommandResponseBuilder::new().content("⏹\u{fe0f} Stopped").build()
    }
}

/// The line of the queue card for one track.
pub open spec fn queue_line(t: TrackInfo) -> Seq<char> {
    t.title@ + " - "@ + t.author@
}

/// The queue card's lines, one per track.
pub open spec fn queue_lines(ts: Seq<TrackInfo>) -> Seq<Seq<char>> {
    ts.map_values(|t: TrackInfo| queue_line(t))
}

/// Shows the queue.
pub struct QueueCommand;

impl QueueCommand {
    pub fn schema() -> (r: CommandSchema)
        ensures
            r.name@ == "queue"@,
            r.description@ == "Show the current music queue."@,
            r.options@.len() == 0,
    {
        bare_schema("queue", "Show the current music queue.")
    }
}

/// The queue card: one line per queued track, or a note that the queue
/// is empty.
pub fn build_queue_embed(tracks: &Vec<TrackInfo>) -> (r: Embed)
    ensures
        r.title matches Some(t) && t@ == "🎶 Current Queue"@,
        r.color == Some(ACCENT_COLOR),
        r.description matches Some(d) && d@ == if tracks@.len() == 0 {
            "The queue is currently empty."@
        } else {
            join_lines(queue_lines(tracks@)) + "\n"@
        },
        r.fields@.len() == 0,
{
    let mut embed = Embed::new();
    embed.title = Some(String::from_str("🎶 Current Queue"));
    embed.color = Some(ACCENT_COLOR);
    if tracks.len() == 0 {
        embed.description = Some(String::from_str("The queue is currently empty."));
        return embed;
    }
    let mut text = String::new();
    let mut i: usize = 0;
    while i < tracks.len()
        invariant
            i <= tracks@.len(),
            text@ == join_lines(queue_lines(tracks@.take(i as int))),
        decreases tracks@.len() - i,
    {
        let ghost before = text@;
        proof {
            reveal_strlit("\n");
        }
        if i > 0 {
            text.append("\n");
        }
        text.append(tracks[i].title.as_str());
        text.append(" - ");
        text.append(tracks[i].author.as_str());
        proof {
            let ls = queue_lines(tracks@.take(i + 1));
            assert(ls.drop_last() =~= queue_lines(tracks@.take(i as int)));
            assert(ls.last() == queue_line(tracks@[i as int]));
            if i == 0 {
                assert(text@ =~= ls[0]);
            } else {
                assert(text@ =~= before + seq!['\n'] + ls.last());
            }
        }
        i = i + 1;
    }
    assert(tracks@.take(tracks@.len() as int) =~= tracks@);
    text.append("\n");
    embed.description = Some(text);
    embed
}

/// Relies on humantime's `format_duration`: its text depends on the
/// duration alone.
pub uninterp spec fn duration_text(secs: u64) -> Seq<char>;

/// Relies on humantime's `format_duration` to write `secs` seconds as
/// text such as `2h 37m`.
#[verifier::external_body]
fn format_duration_secs(secs: u64) -> (r: String)
    ensures
        r@ == duration_text(secs),
{
    humantime::format_duration(std::time::Duration::from_secs(secs)).to_string()
}

/// The second at which a track of `length_ms` milliseconds, `position`
/// seconds in at second `now`, ends.
pub open spec fn finish_time(now: u64, position: u64, length_ms: u64) -> nat {
    (now + position + length_ms / 1000) as nat
}

/// Shows the playing track.
pub struct NowPlayingCommand;

impl NowPlayingCommand {
    pub fn schema() -> (r: CommandSchema)
        ensures
            r.name@ == "now_playing"@,
            r.description@ == "Show the currently playing song."@,
            r.options@.len() == 0,
    {
        bare_schema("now_playing", "Show the currently playing song.")
    }

    /// The failure when nothing plays.
    pub fn nothing_playing() -> (r: CommandError)
        ensures
            r.message@ == "No track is currently playing."@,
    {
        CommandError::new("No track is currently playing.")
    }

    /// The reply: the card and the player buttons.
    pub fn response(embed: Embed) -> (r: CommandResponse)
        ensures
            r.embeds@ == seq![embed],
            r.components@.len() == 1,
            r.components@[0] matches Component::ActionRow(row) && row.components@.len() == 3
                && is_button(row.components@[0], "⏸\u{fe0f} Pause"@, "pause"@, ButtonStyle::Secondary)
                && is_button(row.components@[1], "🎤 Lyrics"@, "lyrics"@, ButtonStyle::Secondary)
                && is_button(row.components@[2], "⏩ Skip"@, "skip"@, ButtonStyle::Danger),
            r.content@.len() == 0,
    {
        CommandResponseBuilder::new().embed(embed).component(action_menu(false)).build()
    }
}

/// The now-playing card for `track` at `position` seconds and `volume`
/// percent, at second `now`, with the two durations already written
/// out.
pub fn now_playing_embed_at(
    track: &TrackInfo,
    volume: u16,
    position: u64,
    now: u64,
    position_text: &str,
    length_text: &str,
) -> (r: Embed)
    ensures
        r.title matches Some(t) && t@ == "🎶 Now Playing"@,
        r.description matches Some(d) && d@ == "**"@ + track.title@ + "** by **"@
            + track.author@ + "**"@,
        r.color == Some(ACCENT_COLOR),
        r.thumbnail == track.artwork_url,
        r.url == track.uri,
        r.fields@.len() == 3,
        r.fields@[0].name@ == "Duration"@,
        r.fields@[0].value@ == position_text@ + " / "@ + length_text@,
        r.fields@[1].name@ == "Finished in"@,
        r.fields@[1].value@ == "<t:"@ + nat_text(finish_time(now, position, track.length_ms))
            + ":R>"@,
        r.fields@[2].name@ == "Volume"@,
        r.fields@[2].value@ == nat_text(volume as nat) + "%"@,
        r.fields@[0].inline && r.fields@[1].inline && r.fields@[2].inline,
{
    let mut embed = Embed::new();
    embed.title = Some(String::from_str("🎶 Now Playing"));
    let mut d = String::from_str("**");
    d.append(track.title.as_str());
    d.append("** by **");
    d.append(track.author.as_str());
    d.append("**");
    embed.description = Some(d);
    embed.color = Some(ACCENT_COLOR);
    embed.thumbnail = track.artwork_url.clone();
    embed.url = track.uri.clone();
    let mut duration = String::from_str(position_text);
    duration.append(" / ");
    duration.append(length_text);
    let finish = now as u128 + position as u128 + (track.length_ms / 1000) as u128;
    let mut finished = String::from_str("<t:");
    finished.append(u128_to_text(finish).as_str());
    finished.append(":R>");
    let mut vol = u64_to_text(volume as u64);
    vol.append("%");
    let mut fields = Vec::new();
    fields.push(EmbedField { name: String::from_str("Duration"), value: duration, inline: true });
    fields.push(
        EmbedField { name: String::from_str("Finished in"), value: finished, inline: true },
    );
    fields.push(EmbedField { name: String::from_str("Volume"), value: vol, inline: true });
    embed.fields = fields;
    embed
}

/// The now-playing card, stamped with the current time, with the
/// durations written by humantime.
pub fn build_now_playing_embed(track: &TrackInfo, volume: u16, position: u64) -> (r: Embed)
    ensures
        r.title matches Some(t) && t@ == "🎶 Now Playing"@,
        r.description matches Some(d) && d@ == "**"@ + track.title@ + "** by **"@
            + track.author@ + "**"@,
        r.color == Some(ACCENT_COLOR),
        r.thumbnail == track.artwork_url,
        r.url == track.uri,
        r.fields@.len() == 3,
        r.fields@[0].name@ == "Duration"@,
        r.fields@[0].value@ == duration_text(position) + " / "@ + duration_text(
            track.length_ms / 1000,
        ),
        r.fields@[1].name@ == "Finished in"@,
        exists|now: u64|
            r.fields@[1].value@ == "<t:"@ + nat_text(
                #[trigger] finish_time(now, position, track.length_ms),
            ) + ":R>"@,
        r.fields@[2].name@ == "Volume"@,
        r.fields@[2].value@ == nat_text(volume as nat) + "%"@,
        r.fields@[0].inline && r.fields@[1].inline && r.fields@[2].inline,
{
    let now = utc_now_secs();
    let now = if now < 0 {
        0
    } else {
        now as u64
    };
    let position_text = format_duration_secs(position);
    let length_text = format_duration_secs(track.length_ms / 1000);
    let r = now_playing_embed_at(
        track,
        volume,
        position,
        now,
        position_text.as_str(),
        length_text.as_str(),
    );
    assert(r.fields@[1].value@ == "<t:"@ + nat_text(finish_time(now, position, track.length_ms))
        + ":R>"@);
    r
}

/// Skips the playing track.
pub struct SkipCommand;

impl SkipCommand {
    pub fn schema() -> (r: CommandSchema)
        ensures
            r.name@ == "skip"@,
            r.description@ == "Skip the currently playing song."@,
            r.options@.len() == 0,
    {
        bare_schema("skip", "Skip the currently playing song.")
    }

    /// The reply after skipping the track titled `title`.
    pub fn skipped_message(title: &str) -> (r: String)
        ensures
            r@ == "\u{fe0f}⏩ Skipped "@ + title@ + " to the next track."@,
    {
        let mut s = String::from_str("\u{fe0f}⏩ Skipped ");
        s.append(title);
        s.append(" to the next track.");
        s
    }
}

/// Sets the player's volume.
pub struct VolumeCommand {
    pub volume: i64,
}

impl VolumeCommand {
    pub fn schema() -> (r: CommandSchema)
        ensures
            r.name@ == "volume"@,
            r.description@ == "Change the volume of the player."@,
            r.options@.len() == 1,
            r.options@[0].name@ == "volume"@,
            r.options@[0].kind == OptionKind::Integer,
            r.options@[0].required,
    {
        schema_with_option(
            "volume",
            "Change the volume of the player.",
            "volume",
            "Volume level (0-150)",
            OptionKind::Integer,
            true,
        )
    }

    /// The volume to set: the argument, which must be given and lie in
    /// `0..=150`.
    pub fn check_volume(volume: Option<i64>) -> (r: Result<u16, CommandError>)
        ensures
            match volume {
                None => r matches Err(e) && e.message@
                    == "Volume argument is required and must be a number between 0 and 150."@,
                Some(v) => if 0 <= v <= 150 {
                    r == Ok::<u16, CommandError>(v as u16)
                } else {
                    r matches Err(e) && e.message@ == "Volume must be between 0 and 150."@
                },
            },
    {
        match volume {
            None => Err(
                CommandError::new(
                    "Volume argument is required and must be a number between 0 and 150.",
                ),
            ),
            Some(v) => if 0 <= v && v <= 150 {
                Ok(v as u16)
            } else {
                Err(CommandError::new("Volume must be between 0 and 150."))
            },
        }
    }

    pub fn volume_message(volume: u16) -> (r: String)
        ensures
            r@ == "Volume set to "@ + nat_text(volume as nat) + "."@,
    {
        let mut s = String::from_str("Volume set to ");
        s.append(u64_to_text(volume as u64).as_str());
        s.append(".");
        s
    }
}

/// Shows the lyrics of the playing track.
pub struct LyricsCommand;

impl LyricsCommand {
    pub fn schema() -> (r: CommandSchema)
        ensures
            r.name@ == "lyrics"@,
            r.description@ == "Get the lyrics for the current song."@,
            r.options@.len() == 0,
    {
        bare_schema("lyrics", "Get the lyrics for the current song.")
    }

    /// The lyrics card.
    pub fn lyrics_embed(lyrics: &str) -> (r: Embed)
        ensures
            r.title matches Some(t) && t@ == "🎶 Lyrics"@,
            r.description matches Some(d) && d@ == lyrics@,
            r.color == Some(ACCENT_COLOR),
            r.fields@.len() == 0,
    {
        let mut embed = Embed::new();
        embed.title = Some(String::from_str("🎶 Lyrics"));
        embed.description = Some(String::from_str(lyrics));
        embed.color = Some(ACCENT_COLOR);
        embed
    }
}

/// Jumps to a position in the queue, dropping the tracks before it.
pub struct JumpCommand {
    pub position: i64,
}

impl JumpCommand {
    pub fn schema() -> (r: CommandSchema)
        ensures
            r.name@ == "jump"@,
            r.description@ == "Jump to a specific track in the queue."@,
            r.options@.len() == 1,
            r.options@[0].name@ == "position"@,
            r.options@[0].kind == OptionKind::Integer,
            r.options@[0].required,
    {
        schema_with_option(
            "jump",
            "Jump to a specific track in the queue.",
            "position",
            "The queue position to jump to (0 for the first song, 1 for the second, etc.).",
            OptionKind::Integer,
            true,
        )
    }

    /// The queue index to jump to: the argument, which must be given and
    /// not negative.
    pub fn target(position: Option<i64>) -> (r: Result<usize, CommandError>)
        ensures
            match position {
                None => r matches Err(e) && e.message@
                    == "Position argument is missing or invalid. Please provide a number (e.g., 0 for the first song)."@,
                Some(p) => if p < 0 {
                    r matches Err(e) && e.message@
                        == "Position to jump to cannot be negative. Use 0 for the first song."@
                } else if p <= usize::MAX {
                    r == Ok::<usize, CommandError>(p as usize)
                } else {
                    r is Err
                },
            },
    {
        match position {
            None => Err(
                CommandError::new(
                    "Position argument is missing or invalid. Please provide a number (e.g., 0 for the first song).",
                ),
            ),
            Some(p) => if p < 0 {
                Err(
                    CommandError::new(
                        "Position to jump to cannot be negative. Use 0 for the first song.",
                    ),
                )
            } else if (p as u64) <= (usize::MAX as u64) {
                Ok(p as usize)
            } else {
                Err(CommandError::new("Position is too large."))
            },
        }
    }

    /// Whether a queue of `count` tracks has index `target`; the failure
    /// says why not.
    pub fn check_target(target: usize, count: usize) -> (r: Result<(), CommandError>)
        ensures
            count == 0 ==> (r matches Err(e) && e.message@
                == "The queue is currently empty. Cannot jump."@),
            count > 0 && target >= count ==> (r matches Err(e) && e.message@
                == "Cannot jump to position "@ + nat_text(target as nat) + ". The queue only has "@
                + nat_text(count as nat) + " tracks (indexed 0 to "@ + nat_text(
                (count - 1) as nat,
            ) + ")."@),
            count > 0 && target < count ==> r is Ok,
    {
        if count == 0 {
            return Err(CommandError::new("The queue is currently empty. Cannot jump."));
        }
        if target >= count {
            let mut s = String::from_str("Cannot jump to position ");
            s.append(u64_to_text(target as u64).as_str());
            s.append(". The queue only has ");
            s.append(u64_to_text(count as u64).as_str());
            s.append(" tracks (indexed 0 to ");
            s.append(u64_to_text((count - 1) as u64).as_str());
            s.append(").");
            return Err(CommandError { message: s });
        }
        Ok(())
    }

    pub fn jumped_message(position: i64) -> (r: String)
        ensures
            r@ == "⬆\u{fe0f} Jumped to track at position "@ + int_text(position as int)
                + " in the queue."@,
    {
        let mut s = String::from_str("⬆\u{fe0f} Jumped to track at position ");
        s.append(i64_to_text(position).as_str());
        s.append(" in the queue.");
        s
    }
}

} // verus!
