use chimera::commands::{require_guild, HelpCommand, PingCommand, ACCENT_COLOR};
use chimera::components::{action_menu, register_buttons, ComponentRegistry};
use chimera::config::{Config, ConfigError};
use chimera::definition::{CommandDefinition, CommandRegistry};
use chimera::lyrics::{lyrics_url, LyricLine, LyricsApiResponse};
use chimera::music::{
    build_now_playing_embed, build_queue_embed, now_playing_embed_at, JumpCommand, NowPlayingCommand,
    PlayCommand, PlayPlan, SkipCommand, StopCommand,
    TrackInfo, TrackLoad, VolumeCommand,
};
use chimera::recovery::{recovery_step, RecoveryAction, RecoveryEvent, RecoveryState};
use chimera::response::{
    create_error_response, error_response_at, CommandError, CommandResponseBuilder, Component,
    Embed, ERROR_COLOR,
};

fn track(title: &str, uri: Option<&str>) -> TrackInfo {
    TrackInfo {
        title: title.to_string(),
        author: "Rick".to_string(),
        uri: uri.map(|u| u.to_string()),
        artwork_url: None,
        length_ms: 213_000,
    }
}

#[test]
fn builder_keeps_order_and_payload_omits_empty_parts() {
    let mut e1 = Embed::new();
    e1.title = Some("one".to_string());
    let mut e2 = Embed::new();
    e2.title = Some("two".to_string());
    let r = CommandResponseBuilder::new().embed(e1).content("hi").embed(e2).build();
    assert_eq!(r.content, "hi");
    assert_eq!(r.embeds.len(), 2);
    assert_eq!(r.embeds[1].title.as_deref(), Some("two"));
    let p = r.into_payload();
    assert_eq!(p.content.as_deref(), Some("hi"));
    assert_eq!(p.embeds.map(|e| e.len()), Some(2));
    assert!(p.components.is_none());
    let empty = CommandResponseBuilder::new().build().into_payload();
    assert!(empty.content.is_none() && empty.embeds.is_none() && empty.components.is_none());
}

#[test]
fn error_reply_quotes_the_message() {
    let r = error_response_at(&CommandError::new("boom"), Some(5));
    assert_eq!(r.embeds.len(), 1);
    assert!(r.content.is_empty());
    let e = &r.embeds[0];
    assert_eq!(e.title.as_deref(), Some("Command Error"));
    assert_eq!(
        e.description.as_deref(),
        Some("I ran into a problem trying to do that:\n```\nboom```")
    );
    assert_eq!(e.color, Some(0xdd7878));
    assert_eq!(ERROR_COLOR, 0xdd7878);
    assert_eq!(e.timestamp, Some(5));
}

#[test]
fn error_reply_is_stamped_with_the_current_time() {
    let r = create_error_response(&CommandError::new("x"));
    let t = r.embeds[0].timestamp.unwrap();
    assert!(t > 1_600_000_000);
}

#[test]
fn scenario_precondition_failure_gives_one_error_reply() {
    let err = require_guild(None).unwrap_err();
    let (s, a) = recovery_step(RecoveryState::Executing, RecoveryEvent::Finished(Err(err)));
    assert_eq!(s, RecoveryState::Reporting);
    match a {
        RecoveryAction::SendErrorReply(r) => assert_eq!(
            r.embeds[0].description.as_deref(),
            Some("I ran into a problem trying to do that:\n```\nThis command must be used in a guild.```")
        ),
        _ => panic!("expected an error reply"),
    }
    let (s, a) = recovery_step(s, RecoveryEvent::ReplyDelivered(Ok(())));
    assert_eq!(s, RecoveryState::Done);
    assert!(matches!(a, RecoveryAction::Nothing));
    let (s, a) = recovery_step(s, RecoveryEvent::Finished(Err(CommandError::new("again"))));
    assert_eq!(s, RecoveryState::Done);
    assert!(matches!(a, RecoveryAction::Nothing));
    let (s2, a2) = recovery_step(RecoveryState::Executing, RecoveryEvent::Finished(Ok(())));
    assert_eq!(s2, RecoveryState::Done);
    assert!(matches!(a2, RecoveryAction::Nothing));
}

#[test]
fn failed_error_reply_is_only_logged() {
    let (s, _) = recovery_step(
        RecoveryState::Executing,
        RecoveryEvent::Finished(Err(CommandError::new("a"))),
    );
    let (s, a) = recovery_step(s, RecoveryEvent::ReplyDelivered(Err(CommandError::new("closed"))));
    assert_eq!(s, RecoveryState::Done);
    match a {
        RecoveryAction::LogReplyFailure(e) => assert_eq!(e.to_string(), "closed"),
        _ => panic!("expected a log"),
    }
}

#[test]
fn ping_reply() {
    let r = PingCommand::response(Some(42)).ok().unwrap();
    assert_eq!(r.content, "🏓 Pong! `(42ms)`");
    let e = PingCommand::response(None).err().unwrap();
    assert_eq!(e.message, "Latency is not available; Not enough data collected yet.");
}

#[test]
fn help_lists_commands_with_arguments() {
    let mut reg = CommandRegistry::new();
    reg.register(CommandDefinition::new(PingCommand::schema(), vec![], ())).unwrap();
    reg.register(CommandDefinition::new(PlayCommand::schema(), vec!["p".to_string()], ())).unwrap();
    let e = HelpCommand::help_embed(&reg);
    assert_eq!(e.title.as_deref(), Some("Chimera Help"));
    assert_eq!(e.color, Some(ACCENT_COLOR));
    assert_eq!(e.fields.len(), 2);
    assert_eq!(e.fields[0].name, "/ping");
    assert_eq!(e.fields[0].value, "```Check if the bot is responsive.```");
    assert_eq!(e.fields[1].name, "/play");
    assert_eq!(
        e.fields[1].value,
        "```Play a song from YouTube or other sources.\n\nArguments:\nsong (required): The song to play```"
    );
}

#[test]
fn play_query_terms() {
    assert_eq!(PlayCommand::query_term("https://x.y/z"), "https://x.y/z");
    assert_eq!(PlayCommand::query_term("ytsearch:abc"), "ytsearch:abc");
    assert_eq!(PlayCommand::query_term("Artist - Song"), "Artist - Song");
    assert_eq!(PlayCommand::query_term("never gonna"), "spsearch:never gonna");
    assert_eq!(PlayCommand::query_term("a:b:c"), "spsearch:a:b:c");
}

#[test]
fn play_plans() {
    match PlayCommand::plan(&TrackLoad::Track(track("Song", Some("https://u")))).ok().unwrap() {
        PlayPlan::Queue { count, message } => {
            assert_eq!(count, 1);
            assert_eq!(message, "`＋` Queued [`Song`](<https://u>)");
        }
        _ => panic!(),
    }
    match PlayCommand::plan(&TrackLoad::Search(vec![track("A", None), track("B", None)])).ok().unwrap() {
        PlayPlan::Queue { count, message } => {
            assert_eq!(count, 1);
            assert_eq!(message, "`＋` Queued: `A`");
        }
        _ => panic!(),
    }
    assert_eq!(
        PlayCommand::plan(&TrackLoad::Search(vec![])).err().unwrap().message,
        "No tracks found from search."
    );
    match PlayCommand::plan(&TrackLoad::Playlist("Mix".to_string(), vec![track("A", None), track("B", None)])).ok().unwrap() {
        PlayPlan::Queue { count, message } => {
            assert_eq!(count, 2);
            assert_eq!(message, "`＋`Queued playlist: [Mix] (2 tracks)");
        }
        _ => panic!(),
    }
    match PlayCommand::plan(&TrackLoad::Playlist("Mix".to_string(), vec![])).ok().unwrap() {
        PlayPlan::Reply(m) => assert_eq!(m, "No tracks were loaded to queue."),
        _ => panic!(),
    }
    match PlayCommand::plan(&TrackLoad::Error("bad".to_string())).ok().unwrap() {
        PlayPlan::Reply(m) => assert_eq!(m, "Error loading tracks: bad"),
        _ => panic!(),
    }
    match PlayCommand::plan(&TrackLoad::Empty).ok().unwrap() {
        PlayPlan::Reply(m) => assert_eq!(m, "Failed to load tracks: received no data from Lavalink."),
        _ => panic!(),
    }
}

#[test]
fn queue_card() {
    let e = build_queue_embed(&vec![]);
    assert_eq!(e.description.as_deref(), Some("The queue is currently empty."));
    let e = build_queue_embed(&vec![track("A", None), track("B", None)]);
    assert_eq!(e.title.as_deref(), Some("🎶 Current Queue"));
    assert_eq!(e.description.as_deref(), Some("A - Rick\nB - Rick\n"));
}

#[test]
fn now_playing_card() {
    let t = track("Song", Some("https://u"));
    let e = now_playing_embed_at(&t, 80, 30, 1000, "30s", "3m 33s");
    assert_eq!(e.description.as_deref(), Some("**Song** by **Rick**"));
    assert_eq!(e.fields[0].value, "30s / 3m 33s");
    assert_eq!(e.fields[1].value, "<t:1243:R>");
    assert_eq!(e.fields[2].value, "80%");
    assert_eq!(e.url.as_deref(), Some("https://u"));
    let e = build_now_playing_embed(&t, 100, 9420);
    assert_eq!(e.fields[0].value, "2h 37m / 3m 33s");
    let r = NowPlayingCommand::response(e);
    assert_eq!(r.components.len(), 1);
}

#[test]
fn player_buttons() {
    match action_menu(true) {
        Component::ActionRow(row) => {
            assert_eq!(row.components.len(), 3);
            assert_eq!(row.components[0].label.as_deref(), Some("▶\u{fe0f} Resume"));
            assert_eq!(row.components[0].custom_id.as_deref(), Some("pause"));
            assert_eq!(row.components[2].custom_id.as_deref(), Some("skip"));
        }
        _ => panic!(),
    }
    match action_menu(false) {
        Component::ActionRow(row) => assert_eq!(row.components[0].label.as_deref(), Some("⏸\u{fe0f} Pause")),
        _ => panic!(),
    }
}

#[test]
fn button_handlers_by_identifier() {
    let mut reg = ComponentRegistry::new();
    register_buttons(&mut reg, 1, 2, 3);
    assert_eq!(reg.handler("skip"), Some(&1));
    assert_eq!(reg.handler("pause"), Some(&2));
    assert_eq!(reg.handler("lyrics"), Some(&3));
    assert_eq!(reg.handler("stop"), None);
    reg.register("skip", 9);
    assert_eq!(reg.handler("skip"), Some(&9));
}

#[test]
fn volume_checks() {
    assert_eq!(VolumeCommand::check_volume(Some(150)).ok(), Some(150));
    assert_eq!(VolumeCommand::check_volume(Some(0)).ok(), Some(0));
    assert_eq!(
        VolumeCommand::check_volume(Some(151)).err().unwrap().message,
        "Volume must be between 0 and 150."
    );
    assert_eq!(
        VolumeCommand::check_volume(None).err().unwrap().message,
        "Volume argument is required and must be a number between 0 and 150."
    );
    assert_eq!(VolumeCommand::volume_message(70), "Volume set to 70.");
}

#[test]
fn jump_checks() {
    assert_eq!(JumpCommand::target(Some(2)).ok(), Some(2));
    assert_eq!(
        JumpCommand::target(Some(-1)).err().unwrap().message,
        "Position to jump to cannot be negative. Use 0 for the first song."
    );
    assert!(JumpCommand::target(None).is_err());
    assert!(JumpCommand::check_target(1, 2).is_ok());
    assert_eq!(
        JumpCommand::check_target(0, 0).err().unwrap().message,
        "The queue is currently empty. Cannot jump."
    );
    assert_eq!(
        JumpCommand::check_target(5, 3).err().unwrap().message,
        "Cannot jump to position 5. The queue only has 3 tracks (indexed 0 to 2)."
    );
    assert_eq!(JumpCommand::jumped_message(2), "⬆\u{fe0f} Jumped to track at position 2 in the queue.");
}

#[test]
fn other_command_texts() {
    assert_eq!(StopCommand::response().content, "⏹\u{fe0f} Stopped");
    assert_eq!(SkipCommand::skipped_message("Song"), "\u{fe0f}⏩ Skipped Song to the next track.");
    assert_eq!(StopCommand::schema().name, "stop");
    assert_eq!(JumpCommand::schema().options[0].name, "position");
}

#[test]
fn config_from_values() {
    let ok = Config::from_values(
        None,
        Some("t".to_string()),
        Some("h".to_string()),
        Some("2333".to_string()),
        Some("p".to_string()),
    )
    .ok()
    .unwrap();
    assert_eq!(ok.configured_prefix, ";");
    assert_eq!(ok.lavalink_port, 2333);
    match Config::from_values(None, None, None, None, None).err().unwrap() {
        ConfigError::Missing(n) => assert_eq!(n, "DISCORD_TOKEN"),
        _ => panic!(),
    }
    match Config::from_values(
        Some("!".to_string()),
        Some("t".to_string()),
        Some("h".to_string()),
        Some("70000".to_string()),
        Some("p".to_string()),
    )
    .err()
    .unwrap()
    {
        ConfigError::InvalidPort(p) => assert_eq!(p, "70000"),
        _ => panic!(),
    }
}

#[test]
fn lyrics_text_and_url() {
    let r = LyricsApiResponse {
        lines: vec![LyricLine { line: "a".to_string() }, LyricLine { line: "b".to_string() }],
    };
    assert_eq!(r.text(), "a\nb");
    assert_eq!(LyricsApiResponse { lines: vec![] }.text(), "");
    assert_eq!(
        lyrics_url("http://n:2333", "s1", "99"),
        "http://n:2333/v4/sessions/s1/players/99/track/lyrics?skipTrackSource=false"
    );
}

#[test]
fn joined_notice_mentions_the_channel() {
    assert_eq!(chimera::music::joined_message(123), "🎙\u{fe0f} Joined <#123>");
}
