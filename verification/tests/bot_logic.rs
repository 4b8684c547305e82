use std::collections::HashMap;

use music_bot::commands::now_playing::now_playing_reply;
use music_bot::commands::play::{
    added_reply, fetched_track, is_url, join_step, option_label, play_step, search_menu,
    search_reply, search_tracks, selected_url, JoinAction, JoinEvent, PlayAction, PlayEvent,
    MAX_LABEL_BYTES,
};
use music_bot::commands::queue::queue_reply;
use music_bot::commands::skip::{skip_decide, skip_finish, SkipStep};
use music_bot::commands::stop::stop_finish;
use music_bot::commands::{all_commands, reg_err, require_call, CommandKind};
use music_bot::utils::decimal::to_decimal;
use music_bot::utils::musics::{
    error_reply, get_gid_and_match_vcid, get_gid_and_user_vcid, numbered_tracks, BotError,
    GuildVoice, TrackInfo, TrackMeta,
};
use music_bot::utils::replies::{say_error, say_text, Author, Reply, BRANDING_GREEN, BRANDING_RED};

fn track(title: &str, url: &str, thumb: &str, secs: u64) -> TrackMeta {
    TrackMeta { title: title.to_string(), url: url.to_string(), thumb: thumb.to_string(), secs }
}

fn info(title: Option<&str>, url: Option<&str>, thumb: Option<&str>, secs: Option<u64>) -> TrackInfo {
    TrackInfo {
        title: title.map(|s| s.to_string()),
        source_url: url.map(|s| s.to_string()),
        thumbnail: thumb.map(|s| s.to_string()),
        duration_secs: secs,
    }
}

fn author() -> Author {
    Author { name: "alice".to_string(), icon_url: "https://cdn/alice.png".to_string() }
}

fn assert_plain(r: &Reply, msg: &str, color: Option<u32>) {
    assert!(r.title.is_none());
    assert_eq!(r.description, msg);
    assert_eq!(r.color, color);
    assert!(r.footer.is_none());
    assert!(r.image.is_none());
    assert!(r.select_menu.is_none());
    assert!(!r.ephemeral);
}

fn guild(id: u64, states: &[(u64, Option<u64>)]) -> GuildVoice {
    let mut voice_states = HashMap::new();
    for (u, c) in states {
        voice_states.insert(*u, *c);
    }
    GuildVoice { id, voice_states }
}

/// The label that `play` built: `format!` then cut at the last char boundary
/// at or before byte 100.
fn reference_label(i: usize, title: &str) -> String {
    let mut label = format!("{}: {}", i + 1, title);
    let len = (0..=100).rfind(|&i| label.is_char_boundary(i)).unwrap_or(0);
    label.truncate(len);
    label
}

#[test]
fn registers_the_five_commands_in_order() {
    assert_eq!(
        all_commands(),
        vec![
            CommandKind::NowPlaying,
            CommandKind::Play,
            CommandKind::Queue,
            CommandKind::Stop,
            CommandKind::Skip,
        ]
    );
}

#[test]
fn decimal_rendering() {
    assert_eq!(to_decimal(0), "0");
    assert_eq!(to_decimal(7), "7");
    assert_eq!(to_decimal(10), "10");
    assert_eq!(to_decimal(12345), "12345");
    assert_eq!(to_decimal(u64::MAX), u64::MAX.to_string());
}

#[test]
fn track_line_matches_display_format() {
    let t = track("Song", "https://example.com/v", "https://img", 185);
    assert_eq!(t.to_display_string(), "[**Song**](https://example.com/v) - 03:05");
    assert_eq!(track("a", "u", "t", 0).to_display_string(), "[**a**](u) - 00:00");
    assert_eq!(track("a", "u", "t", 3600).to_display_string(), "[**a**](u) - 60:00");
    assert_eq!(track("a", "u", "t", 6059).to_display_string(), "[**a**](u) - 100:59");
    for secs in [0u64, 9, 59, 60, 61, 599, 600, 3599, 86399, 1_000_000] {
        let expected = format!("[**x**](y) - {:02}:{:02}", secs / 60, secs % 60);
        assert_eq!(track("x", "y", "z", secs).to_display_string(), expected);
    }
}

#[test]
fn displayed_length_reads_back() {
    for secs in [0u64, 5, 65, 599, 3600, 7325, 987654] {
        let line = track("t", "u", "i", secs).to_display_string();
        let time = line.rsplit(" - ").next().unwrap();
        let (m, s) = time.split_once(':').unwrap();
        assert_eq!(s.len(), 2);
        let back: u64 = m.parse::<u64>().unwrap() * 60 + s.parse::<u64>().unwrap();
        assert_eq!(back, secs);
    }
}

#[test]
fn track_from_complete_metadata() {
    let t = TrackMeta::from_info(info(Some("T"), Some("U"), Some("I"), Some(42))).ok().unwrap();
    assert_eq!(t.title, "T");
    assert_eq!(t.url, "U");
    assert_eq!(t.thumb, "I");
    assert_eq!(t.secs, 42);
}

#[test]
fn track_from_incomplete_metadata_is_refused() {
    let cases = [
        info(None, Some("U"), Some("I"), Some(1)),
        info(Some("T"), None, Some("I"), Some(1)),
        info(Some("T"), Some("U"), None, Some(1)),
        info(Some("T"), Some("U"), Some("I"), None),
        info(None, None, None, None),
    ];
    for c in cases {
        let e = TrackMeta::from_info(c).err().unwrap();
        assert!(matches!(e, BotError::ParseFailed));
        assert_eq!(e.message(), "Failed to parse track data");
    }
}

#[test]
fn embed_of_a_track() {
    let t = track("Song", "https://v", "https://thumb", 61);
    let r = t.to_embed(&author(), "Now playing");
    assert_eq!(r.title.as_deref(), Some("Now playing"));
    assert_eq!(r.description, "[**Song**](https://v) - 01:01");
    assert_eq!(r.color, Some(0x57F287));
    assert_eq!(BRANDING_GREEN, 0x57F287);
    let f = r.footer.unwrap();
    assert_eq!(f.text, "alice");
    assert_eq!(f.icon_url, "https://cdn/alice.png");
    assert_eq!(r.image.as_deref(), Some("https://thumb"));
    assert!(r.select_menu.is_none());
    assert!(!r.ephemeral);
}

#[test]
fn text_and_error_replies() {
    assert_plain(&say_text("hello".to_string()), "hello", None);
    assert_plain(&say_error("oops".to_string()), "oops", Some(0xED4245));
    assert_eq!(BRANDING_RED, 0xED4245);
}

#[test]
fn error_messages() {
    let cases = [
        (BotError::NoGuild, "No guild. How did this happen?"),
        (BotError::NotInVoiceChannel, "Join a voice channel to use this command"),
        (BotError::NotConnected, "Not connected to any channel"),
        (BotError::WrongChannel, "Join my voice channel to use this command"),
        (BotError::JoinFailed, "Failed to join the channel"),
        (BotError::AlreadyConnected { mention: "<#9>".to_string() }, "Already connected to <#9>"),
        (BotError::FetchFailed, "Failed to fetch track info"),
        (BotError::ParseFailed, "Failed to parse track data"),
        (BotError::NoSong, "No song"),
    ];
    for (e, msg) in cases {
        assert_eq!(e.message(), msg);
        assert_plain(&error_reply(&e), msg, Some(0xED4245));
    }
}

#[test]
fn reg_err_passes_values_and_reports_errors() {
    assert_eq!(reg_err::<u32>(Ok(5)).ok(), Some(5));
    let r = reg_err::<u32>(Err(BotError::WrongChannel)).err().unwrap();
    assert_plain(&r, "Join my voice channel to use this command", Some(0xED4245));
    assert!(require_call(true).is_ok());
    assert_plain(&require_call(false).err().unwrap(), "Not connected to any channel", Some(0xED4245));
}

#[test]
fn user_voice_channel() {
    assert!(matches!(get_gid_and_user_vcid(None, 1), Err(BotError::NoGuild)));
    let g = guild(77, &[(1, Some(500)), (2, None)]);
    assert_eq!(get_gid_and_user_vcid(Some(&g), 1).ok(), Some((77, 500)));
    assert!(matches!(get_gid_and_user_vcid(Some(&g), 2), Err(BotError::NotInVoiceChannel)));
    assert!(matches!(get_gid_and_user_vcid(Some(&g), 3), Err(BotError::NotInVoiceChannel)));
}

#[test]
fn matching_the_bot_channel() {
    let g = guild(77, &[(1, Some(500))]);
    assert!(matches!(get_gid_and_match_vcid(None, 1, Some(500)), Err(BotError::NoGuild)));
    assert!(matches!(get_gid_and_match_vcid(Some(&g), 2, Some(500)), Err(BotError::NotInVoiceChannel)));
    assert!(matches!(get_gid_and_match_vcid(Some(&g), 1, None), Err(BotError::NotConnected)));
    assert!(matches!(get_gid_and_match_vcid(Some(&g), 1, Some(501)), Err(BotError::WrongChannel)));
    assert_eq!(get_gid_and_match_vcid(Some(&g), 1, Some(500)).ok(), Some((77, 500)));
}

#[test]
fn joining_steps() {
    assert!(matches!(join_step(JoinEvent::Existing(Some(true)), 5), JoinAction::ReadChannel));
    assert!(matches!(join_step(JoinEvent::Existing(Some(false)), 5), JoinAction::Join));
    assert!(matches!(join_step(JoinEvent::Existing(None), 5), JoinAction::Join));
    assert!(matches!(join_step(JoinEvent::Joined(true), 5), JoinAction::ReadChannel));
    assert!(matches!(
        join_step(JoinEvent::Joined(false), 5),
        JoinAction::Finish(Err(BotError::JoinFailed))
    ));
    assert!(matches!(
        join_step(JoinEvent::Channel(None), 5),
        JoinAction::Finish(Err(BotError::JoinFailed))
    ));
    assert!(matches!(join_step(JoinEvent::Channel(Some(5)), 5), JoinAction::Finish(Ok(()))));
    match join_step(JoinEvent::Channel(Some(123456789012345678)), 5) {
        JoinAction::Finish(Err(e)) => {
            assert_eq!(e.message(), "Already connected to <#123456789012345678>");
        }
        _ => panic!("expected an error"),
    }
}

#[test]
fn urls_are_played_directly() {
    assert!(is_url("https://youtu.be/x"));
    assert!(is_url("http://example.com"));
    assert!(is_url("https://"));
    assert!(!is_url("never gonna give you up"));
    assert!(!is_url("ftp://example.com"));
    assert!(!is_url("HTTPS://example.com"));
    assert!(!is_url("http:/x"));
    assert!(!is_url(""));
    assert!(!is_url(" https://x"));
}

#[test]
fn option_labels_are_cut_at_100_bytes() {
    assert_eq!(MAX_LABEL_BYTES, 100);
    assert_eq!(option_label(0, &"Short".to_string()), "1: Short");
    let long = "a".repeat(200);
    let l = option_label(9, &long);
    assert_eq!(l.len(), 100);
    assert_eq!(l, reference_label(9, &long));
    let accents = "é".repeat(60);
    let l = option_label(0, &accents);
    assert_eq!(l.len(), 99);
    assert_eq!(l, reference_label(0, &accents));
    let mixed = "🎵 Ünïcödé title — with emoji 🎶🎶🎶 and more text to pass the limit of bytes here";
    for i in [0usize, 8, 99, 12345] {
        assert_eq!(option_label(i, &mixed.to_string()), reference_label(i, mixed));
        assert!(option_label(i, &mixed.to_string()).len() <= 100);
    }
    let exact = "b".repeat(97);
    assert_eq!(option_label(0, &exact), format!("1: {}", exact));
}

#[test]
fn search_keeps_complete_results_in_order() {
    let infos = vec![
        info(Some("A"), Some("ua"), Some("ta"), Some(1)),
        info(Some("B"), None, Some("tb"), Some(2)),
        info(Some("C"), Some("uc"), Some("tc"), Some(3)),
        info(None, Some("ud"), Some("td"), Some(4)),
        info(Some("E"), Some("ue"), Some("te"), Some(5)),
    ];
    let ts = search_tracks(infos);
    let titles: Vec<&str> = ts.iter().map(|t| t.title.as_str()).collect();
    assert_eq!(titles, vec!["A", "C", "E"]);
    assert_eq!(ts[1].url, "uc");
    assert_eq!(ts[2].secs, 5);
    assert!(search_tracks(vec![]).is_empty());
}

#[test]
fn numbered_listing_of_tracks() {
    let ts = vec![track("a", "ua", "ta", 1), track("b", "ub", "tb", 754)];
    assert_eq!(numbered_tracks(&ts), "1: [**a**](ua) - 00:01\n2: [**b**](ub) - 12:34");
    assert_eq!(numbered_tracks(&vec![]), "");
}

#[test]
fn search_results_menu() {
    let ts = vec![track("First", "u1", "t1", 60), track("Second", "u2", "t2", 125)];
    let r = search_menu(&ts);
    assert_eq!(r.title.as_deref(), Some("Search Results"));
    assert_eq!(r.description, "1: [**First**](u1) - 01:00\n2: [**Second**](u2) - 02:05");
    assert!(r.color.is_none());
    assert!(r.ephemeral);
    let menu = r.select_menu.unwrap();
    assert_eq!(menu.custom_id, "track");
    assert_eq!(menu.options.len(), 2);
    assert_eq!(menu.options[0].label, "1: First");
    assert_eq!(menu.options[0].value, "u1");
    assert_eq!(menu.options[1].label, "2: Second");
    assert_eq!(menu.options[1].value, "u2");
}

#[test]
fn search_reply_outcomes() {
    let e = search_reply(None).err().unwrap();
    assert_plain(&e, "No songs found", Some(0xED4245));
    let ok = search_reply(Some(vec![info(Some("A"), Some("ua"), Some("ta"), Some(1))])).ok().unwrap();
    assert_eq!(ok.description, "1: [**A**](ua) - 00:01");
    assert_eq!(ok.select_menu.unwrap().options.len(), 1);
}

#[test]
fn selection_outcomes() {
    assert_plain(&selected_url(None).err().unwrap(), "Timed out", Some(0xED4245));
    assert_plain(
        &selected_url(Some(None)).err().unwrap(),
        "Unknown data kind. How did this happen?",
        Some(0xED4245),
    );
    let url = selected_url(Some(Some(vec!["u1".to_string(), "u2".to_string()]))).ok().unwrap();
    assert_eq!(url, "u1");
}

#[test]
fn fetching_a_track() {
    assert!(matches!(fetched_track(None), Err(BotError::FetchFailed)));
    assert!(matches!(
        fetched_track(Some(info(Some("T"), None, Some("I"), Some(1)))),
        Err(BotError::ParseFailed)
    ));
    let t = fetched_track(Some(info(Some("T"), Some("U"), Some("I"), Some(9)))).ok().unwrap();
    assert_eq!(t.to_display_string(), "[**T**](U) - 00:09");
    let r = added_reply(&t, &author());
    assert_eq!(r.title.as_deref(), Some("Added Track"));
    assert_eq!(r.image.as_deref(), Some("I"));
}

#[test]
fn queue_listing() {
    assert_plain(&queue_reply(&vec![]), "Queue is empty", None);
    let ts = vec![track("x", "ux", "tx", 3), track("y", "uy", "ty", 4)];
    assert_plain(&queue_reply(&ts), "1: [**x**](ux) - 00:03\n2: [**y**](uy) - 00:04", None);
}

#[test]
fn now_playing_answers() {
    assert_plain(&now_playing_reply(None, &author()), "No song", Some(0xED4245));
    let t = track("Now", "un", "tn", 30);
    let r = now_playing_reply(Some(&t), &author());
    assert_eq!(r.title.as_deref(), Some("Now playing"));
    assert_eq!(r.description, "[**Now**](un) - 00:30");
    assert_eq!(r.color, Some(0x57F287));
}

#[test]
fn skip_steps() {
    match skip_decide(0) {
        SkipStep::Reply(r) => assert_plain(&r, "Nothing to skip", Some(0xED4245)),
        SkipStep::Skip => panic!("an empty queue has nothing to skip"),
    }
    assert!(matches!(skip_decide(3), SkipStep::Skip));
    assert_plain(&skip_finish(true), "Skipped", None);
    assert_plain(&skip_finish(false), "Failed to skip", Some(0xED4245));
}

#[test]
fn stop_answers() {
    assert_plain(&stop_finish(true, 123), "Stopped and disconnected from <#123>", None);
    assert_plain(&stop_finish(false, 123), "Failed to leave the call.", Some(0xED4245));
}

#[test]
fn search_reply_lists_every_complete_result() {
    let infos = vec![
        info(Some("A"), Some("ua"), Some("ta"), Some(61)),
        info(Some("B"), None, Some("tb"), Some(2)),
        info(Some("C"), Some("uc"), Some("tc"), Some(3)),
    ];
    let r = search_reply(Some(infos)).ok().unwrap();
    assert_eq!(r.title.as_deref(), Some("Search Results"));
    assert_eq!(r.description, "1: [**A**](ua) - 01:01\n2: [**C**](uc) - 00:03");
    assert!(r.ephemeral);
    let menu = r.select_menu.unwrap();
    assert_eq!(menu.custom_id, "track");
    let values: Vec<&str> = menu.options.iter().map(|o| o.value.as_str()).collect();
    assert_eq!(values, vec!["ua", "uc"]);
    assert_eq!(menu.options[1].label, "2: C");
}

#[test]
fn play_steps() {
    match play_step(PlayEvent::Requested("https://youtu.be/x".to_string())) {
        PlayAction::AddTrack(u) => assert_eq!(u, "https://youtu.be/x"),
        _ => panic!("a URL is added directly"),
    }
    match play_step(PlayEvent::Requested("lofi beats".to_string())) {
        PlayAction::Search { query, limit } => {
            assert_eq!(query, "lofi beats");
            assert_eq!(limit, 10);
        }
        _ => panic!("a query is searched"),
    }
    match play_step(PlayEvent::Searched(None)) {
        PlayAction::Finish(r) => assert_plain(&r, "No songs found", Some(0xED4245)),
        _ => panic!("a failed search ends the command"),
    }
    match play_step(PlayEvent::Searched(Some(vec![info(Some("A"), Some("ua"), Some("ta"), Some(1))]))) {
        PlayAction::ShowMenu { menu, timeout_secs } => {
            assert_eq!(menu.select_menu.unwrap().options[0].value, "ua");
            assert_eq!(timeout_secs, 60);
        }
        _ => panic!("results are offered"),
    }
    match play_step(PlayEvent::Picked(None)) {
        PlayAction::Finish(r) => assert_plain(&r, "Timed out", Some(0xED4245)),
        _ => panic!("nothing is added after a timeout"),
    }
    match play_step(PlayEvent::Picked(Some(None))) {
        PlayAction::Finish(r) => {
            assert_plain(&r, "Unknown data kind. How did this happen?", Some(0xED4245))
        }
        _ => panic!("an unknown answer ends the command"),
    }
    match play_step(PlayEvent::Picked(Some(Some(vec!["u9".to_string()])))) {
        PlayAction::AddTrack(u) => assert_eq!(u, "u9"),
        _ => panic!("the pick is added"),
    }
}

#[test]
fn tracks_clone_whole() {
    let t = track("T", "U", "I", 5);
    let c = t.clone();
    assert_eq!(c.to_display_string(), t.to_display_string());
    assert_eq!(c.thumb, "I");
}
