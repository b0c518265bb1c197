use now_playing::db::VoteCount;
use now_playing::music_manager::{FeedEvent, MusicManager, SongInfo};
use now_playing::songs::{
    classify_topic, feed_event, join_artists, reconnect_action, GuitarSongInfo, ReconnectAction,
    TopicKind, ARTIST_SEPARATOR, COVER_PLACEHOLDER, RECONNECT_ATTEMPTS, RECONNECT_DELAY_MS,
    TOPIC_PAUSED, TOPIC_SONG_INFO, TOPIC_STOPPED, TOPIC_VOTES,
};

fn names(list: &[&str]) -> Vec<String> {
    let mut out: Vec<String> = Vec::new();
    for name in list {
        out.push(String::from(*name));
    }
    out
}

fn announcement(image_url: Option<&str>, started_at_ms: u64) -> GuitarSongInfo {
    GuitarSongInfo {
        name: String::from("Blue in Green"),
        spotify_id: String::from("0aWMVrwxPNYkKmFthzmpRi"),
        image_url: image_url.map(String::from),
        artists: names(&["Miles Davis", "Bill Evans"]),
        started_at_ms,
    }
}

#[test]
fn topic_names() {
    assert_eq!(TOPIC_SONG_INFO, "music/current_song_info");
    assert_eq!(TOPIC_PAUSED, "music/events/paused");
    assert_eq!(TOPIC_STOPPED, "music/events/stopped");
    assert_eq!(TOPIC_VOTES, "music/votes");
    assert_eq!(COVER_PLACEHOLDER, "/static/assets/cover-placeholder.svg");
    assert_eq!(ARTIST_SEPARATOR, ", ");
}

#[test]
fn song_info_topic_is_a_song() {
    assert_eq!(classify_topic("music/current_song_info"), TopicKind::SongInfo);
    assert_eq!(classify_topic(TOPIC_SONG_INFO), TopicKind::SongInfo);
}

#[test]
fn paused_and_stopped_topics_are_a_pause() {
    assert_eq!(classify_topic("music/events/paused"), TopicKind::Pause);
    assert_eq!(classify_topic("music/events/stopped"), TopicKind::Pause);
}

#[test]
fn any_other_topic_is_ignored() {
    let others = [
        "",
        "music",
        "music/votes",
        "music/events",
        "music/events/",
        "music/events/paused/",
        "music/events/pause",
        "music/events/pausedd",
        "music/events/resumed",
        "music/current_song_inf",
        "music/current_song_info ",
        " music/current_song_info",
        "Music/Current_Song_Info",
        "MUSIC/EVENTS/STOPPED",
        "music/events/stoppe\u{0301}d",
        "music/events/pausé",
        "music\\events\\paused",
        "music/current_song_info\0",
    ];
    for topic in others {
        assert_eq!(classify_topic(topic), TopicKind::Other, "topic {:?}", topic);
    }
}

#[test]
fn topics_of_equal_length_are_told_apart() {
    // Same length as the stopped topic, differing in the last byte only.
    assert_eq!("music/events/stopped".len(), "music/events/stoppee".len());
    assert_eq!(classify_topic("music/events/stoppee"), TopicKind::Other);
    // Differing in the first byte only.
    assert_eq!(classify_topic("nusic/events/stopped"), TopicKind::Other);
}

#[test]
fn artists_are_joined_by_comma_and_space() {
    assert_eq!(join_artists(&names(&[])), "");
    assert_eq!(join_artists(&names(&["Nina Simone"])), "Nina Simone");
    assert_eq!(join_artists(&names(&["Simon", "Garfunkel"])), "Simon, Garfunkel");
    assert_eq!(
        join_artists(&names(&["Crosby", "Stills", "Nash", "Young"])),
        "Crosby, Stills, Nash, Young"
    );
}

#[test]
fn joining_keeps_empty_and_unusual_names() {
    assert_eq!(join_artists(&names(&[""])), "");
    assert_eq!(join_artists(&names(&["", ""])), ", ");
    assert_eq!(join_artists(&names(&["", "B"])), ", B");
    assert_eq!(join_artists(&names(&["A", ""])), "A, ");
    assert_eq!(join_artists(&names(&["A, B", "C"])), "A, B, C");
    assert_eq!(join_artists(&names(&["Björk", "坂本龍一", "🎸"])), "Björk, 坂本龍一, 🎸");
}

#[test]
fn joining_agrees_with_the_standard_join() {
    let lists: Vec<Vec<String>> = vec![
        names(&[]),
        names(&["a"]),
        names(&["a", "b"]),
        names(&["", "", ""]),
        names(&["x y", ",", " "]),
    ];
    for list in lists {
        assert_eq!(join_artists(&list), list.join(", "));
    }
}

#[test]
fn announcement_becomes_a_song() {
    let song = announcement(Some("https://img.example/cover.jpg"), 1_700_000_123_456)
        .into_song_info();
    assert_eq!(
        song,
        SongInfo {
            title: String::from("Blue in Green"),
            artist: String::from("Miles Davis, Bill Evans"),
            cover_img: String::from("https://img.example/cover.jpg"),
            song_id: String::from("0aWMVrwxPNYkKmFthzmpRi"),
            started_at: 1_700_000_123,
        }
    );
}

#[test]
fn announcement_without_image_gets_the_placeholder() {
    let song = announcement(None, 5000).into_song_info();
    assert_eq!(song.cover_img, "/static/assets/cover-placeholder.svg");
    assert_eq!(song.started_at, 5);
}

#[test]
fn announcement_with_empty_image_keeps_it() {
    let song = announcement(Some(""), 5000).into_song_info();
    assert_eq!(song.cover_img, "");
}

#[test]
fn start_time_is_cut_to_whole_seconds() {
    let cases: [(u64, u64); 8] = [
        (0, 0),
        (1, 0),
        (999, 0),
        (1000, 1),
        (1001, 1),
        (1999, 1),
        (2000, 2),
        (u64::MAX, 18_446_744_073_709_551),
    ];
    for (millis, seconds) in cases {
        assert_eq!(announcement(None, millis).into_song_info().started_at, seconds);
    }
}

#[test]
fn announcement_without_artists_has_an_empty_artist_line() {
    let mut payload = announcement(None, 0);
    payload.artists = Vec::new();
    assert_eq!(payload.into_song_info().artist, "");
}

#[test]
fn decoded_announcement_is_a_new_song_event() {
    let event = feed_event(TopicKind::SongInfo, Some(announcement(None, 42_000)));
    assert_eq!(event, Some(FeedEvent::NewSong(announcement(None, 42_000).into_song_info())));
}

#[test]
fn announcement_that_was_not_decoded_is_dropped() {
    assert_eq!(feed_event(TopicKind::SongInfo, None), None);
}

#[test]
fn pause_topics_give_a_pause_whatever_the_payload() {
    assert_eq!(feed_event(TopicKind::Pause, None), Some(FeedEvent::Pause));
    assert_eq!(
        feed_event(TopicKind::Pause, Some(announcement(None, 1))),
        Some(FeedEvent::Pause)
    );
}

#[test]
fn other_topics_give_no_event() {
    assert_eq!(feed_event(TopicKind::Other, None), None);
    assert_eq!(feed_event(TopicKind::Other, Some(announcement(None, 1))), None);
}

#[test]
fn messages_drive_the_manager() {
    let mut manager = MusicManager::new();
    let now: u64 = 1_700_000_000;

    // An announcement that could not be decoded leaves the state as it is.
    let before = manager.read_state();
    if let Some(event) = feed_event(classify_topic("music/current_song_info"), None) {
        manager.apply(event, now);
    }
    assert_eq!(manager.read_state(), before);

    let decoded = Some(announcement(None, 1_699_999_990_500));
    if let Some(event) = feed_event(classify_topic("music/current_song_info"), decoded) {
        manager.apply(event, now);
    }
    let state = manager.read_state();
    assert_eq!(state.current_song, Some(announcement(None, 1_699_999_990_500).into_song_info()));
    assert_eq!(state.current_song.map(|s| s.started_at), Some(1_699_999_990));
    assert_eq!(state.paused_at, None);

    if let Some(event) = feed_event(classify_topic("music/events/stopped"), None) {
        manager.apply(event, now + 10);
    }
    let state = manager.read_state();
    assert_eq!(state.current_song, None);
    assert_eq!(state.last_song, Some(announcement(None, 1_699_999_990_500).into_song_info()));
    assert_eq!(state.paused_at, Some(now + 10));

    let before = manager.read_state();
    if let Some(event) = feed_event(classify_topic("music/votes"), None) {
        manager.apply(event, now + 20);
    }
    assert_eq!(manager.read_state(), before);
}

#[test]
fn reconnect_goes_on_once_connected() {
    assert_eq!(reconnect_action(0, true), ReconnectAction::Resume);
    assert_eq!(reconnect_action(11, true), ReconnectAction::Resume);
    assert_eq!(reconnect_action(12, true), ReconnectAction::Resume);
    assert_eq!(reconnect_action(u32::MAX, true), ReconnectAction::Resume);
}

#[test]
fn reconnect_tries_twelve_times_five_seconds_apart() {
    assert_eq!(RECONNECT_ATTEMPTS, 12);
    assert_eq!(RECONNECT_DELAY_MS, 5000);
    let mut failed: u32 = 0;
    while failed < 12 {
        assert_eq!(reconnect_action(failed, false), ReconnectAction::RetryAfter(5000));
        failed += 1;
    }
    assert_eq!(reconnect_action(12, false), ReconnectAction::GiveUp);
    assert_eq!(reconnect_action(13, false), ReconnectAction::GiveUp);
    assert_eq!(reconnect_action(u32::MAX, false), ReconnectAction::GiveUp);
}

#[test]
fn reconnect_loop_runs_to_the_end() {
    // A connection that comes back at the fifth try.
    let mut failed: u32 = 0;
    let mut connected = false;
    let mut waited: u64 = 0;
    let outcome = loop {
        match reconnect_action(failed, connected) {
            ReconnectAction::RetryAfter(millis) => {
                waited += millis;
                if failed == 4 {
                    connected = true;
                } else {
                    failed += 1;
                }
            }
            other => break other,
        }
    };
    assert_eq!(outcome, ReconnectAction::Resume);
    assert_eq!(waited, 25_000);

    // A connection that never comes back.
    let mut failed: u32 = 0;
    let mut waited: u64 = 0;
    let outcome = loop {
        match reconnect_action(failed, false) {
            ReconnectAction::RetryAfter(millis) => {
                waited += millis;
                failed += 1;
            }
            other => break other,
        }
    };
    assert_eq!(outcome, ReconnectAction::GiveUp);
    assert_eq!(failed, 12);
    assert_eq!(waited, 60_000);
}

#[test]
fn vote_count_holds_what_it_was_given() {
    let count = VoteCount {
        song_id: String::from("0aWMVrwxPNYkKmFthzmpRi"),
        votes_for: 7,
        votes_against: 2,
    };
    assert_eq!(count.song_id, "0aWMVrwxPNYkKmFthzmpRi");
    assert_eq!(count.votes_for, 7);
    assert_eq!(count.votes_against, 2);
}
