//! Decisions of the feed consumer: which topic means what, and how a decoded
//! payload becomes a song.

use vstd::prelude::*;
use vstd::utf8::encode_utf8_decode_utf8;
use vstd::string::{StringExecFns, StringSliceAdditionalSpecFns};
use crate::model::{Event, SongRecord};
use crate::music_manager::{FeedEvent, SongInfo};

verus! {

/// Topic on which the feed announces the song that started.
pub const TOPIC_SONG_INFO: &'static str = "music/current_song_info";

/// Topic on which the feed reports that playback was paused.
pub const TOPIC_PAUSED: &'static str = "music/events/paused";

/// Topic on which the feed reports that playback was stopped.
pub const TOPIC_STOPPED: &'static str = "music/events/stopped";

/// Topic on which vote counts are published.
pub const TOPIC_VOTES: &'static str = "music/votes";

/// Cover shown for a song that came without an image.
pub const COVER_PLACEHOLDER: &'static str = "/static/assets/cover-placeholder.svg";

/// What stands between two artists' names in a song's artist line.
pub const ARTIST_SEPARATOR: &'static str = ", ";

/// How often the consumer tries to get a lost connection back.
pub const RECONNECT_ATTEMPTS: u32 = 12;

/// Milliseconds the consumer waits before each such try.
pub const RECONNECT_DELAY_MS: u64 = 5000;

/// What a message means, going by its topic.
#[derive(Debug, Clone, Copy, PartialEq, Eq, Structural)]
pub enum TopicKind {
    /// The payload describes the song that started.
    SongInfo,
    /// Playback was paused or stopped; the payload says nothing.
    Pause,
    /// Not a topic of this feed.
    Other,
}

/// The meaning of a topic name.
pub open spec fn topic_kind(topic: Seq<char>) -> TopicKind {
    if topic == TOPIC_SONG_INFO@ {
        TopicKind::SongInfo
    } else if topic == TOPIC_PAUSED@ || topic == TOPIC_STOPPED@ {
        TopicKind::Pause
    } else {
        TopicKind::Other
    }
}

/// Whether two strings hold the same characters.
fn same_text(a: &str, b: &str) -> (same: bool)
    ensures
        same == (a@ == b@),
{
    let x = a.as_bytes();
    let y = b.as_bytes();
    if x.len() != y.len() {
        return false;
    }
    let mut i: usize = 0;
    while i < x.len()
        invariant
            x@ == a.spec_bytes(),
            y@ == b.spec_bytes(),
            x.len() == y.len(),
            i <= x.len(),
            forall|j: int| 0 <= j < i ==> x@[j] == y@[j],
        decreases x.len() - i,
    {
        if x[i] != y[i] {
            return false;
        }
        i += 1;
    }
    proof {
        // Equal encodings decode to equal texts.
        assert(x@ =~= y@);
        encode_utf8_decode_utf8(a@);
        encode_utf8_decode_utf8(b@);
    }
    true
}

/// Says what a message on `topic` means.
pub fn classify_topic(topic: &str) -> (kind: TopicKind)
    ensures
        kind == topic_kind(topic@),
{
    if same_text(topic, TOPIC_SONG_INFO) {
        TopicKind::SongInfo
    } else if same_text(topic, TOPIC_PAUSED) || same_text(topic, TOPIC_STOPPED) {
        TopicKind::Pause
    } else {
        TopicKind::Other
    }
}

/// A song announcement as the feed sends it, decoded.
#[derive(Debug, PartialEq, Eq)]
pub struct GuitarSongInfo {
    pub name: String,
    pub spotify_id: String,
    pub image_url: Option<String>,
    pub artists: Vec<String>,
    pub started_at_ms: u64,
}

/// The texts of a list of strings.
pub open spec fn texts(names: Seq<String>) -> Seq<Seq<char>> {
    Seq::new(names.len(), |i: int| names[i]@)
}

/// `parts` written one after another, with `separator` between neighbours.
pub open spec fn joined(parts: Seq<Seq<char>>, separator: Seq<char>) -> Seq<char>
    decreases parts.len(),
{
    if parts.len() == 0 {
        Seq::empty()
    } else if parts.len() == 1 {
        parts[0]
    } else {
        joined(parts.drop_last(), separator) + separator + parts.last()
    }
}

/// The artist line of a song: the artists' names, separated by a comma and a
/// space.
pub fn join_artists(artists: &Vec<String>) -> (line: String)
    ensures
        line@ == joined(texts(artists@), ARTIST_SEPARATOR@),
{
    let mut line = String::new();
    let mut i: usize = 0;
    while i < artists.len()
        invariant
            i <= artists.len(),
            line@ == joined(texts(artists@).take(i as int), ARTIST_SEPARATOR@),
        decreases artists.len() - i,
    {
        proof {
            // One more name: the names so far are all but the last of them.
            let next = texts(artists@).take(i + 1);
            assert(next.drop_last() =~= texts(artists@).take(i as int));
            assert(next.last() == artists@[i as int]@);
        }
        if i > 0 {
            line.append(ARTIST_SEPARATOR);
        }
        line.append(artists[i].as_str());
        i += 1;
    }
    assert(texts(artists@).take(i as int) =~= texts(artists@));
    line
}

impl GuitarSongInfo {
    /// The record that an announcement stands for: its track id and name, the
    /// artist line, the image or the placeholder, and the start time in whole
    /// seconds.
    pub open spec fn record(self) -> SongRecord {
        SongRecord {
            song_id: self.spotify_id@,
            title: self.name@,
            artist: joined(texts(self.artists@), ARTIST_SEPARATOR@),
            cover_image: match self.image_url {
                Some(url) => url@,
                None => COVER_PLACEHOLDER@,
            },
            started_at: (self.started_at_ms / 1000) as nat,
        }
    }

    /// Turns the announcement into the song that the tracker stores.
    pub fn into_song_info(self) -> (song: SongInfo)
        ensures
            song@ == self.record(),
    {
        let artist = join_artists(&self.artists);
        let cover_img = match self.image_url {
            Some(url) => url,
            None => COVER_PLACEHOLDER.to_owned(),
        };
        SongInfo {
            title: self.name,
            artist,
            cover_img,
            song_id: self.spotify_id,
            started_at: self.started_at_ms / 1000,
        }
    }
}

/// The event that a message stands for, if any: a song announcement that
/// was decoded, or a pause. An announcement that could not be decoded and a
/// message on another topic stand for nothing.
pub open spec fn event_of(kind: TopicKind, payload: Option<GuitarSongInfo>) -> Option<Event> {
    match kind {
        TopicKind::SongInfo => match payload {
            Some(announcement) => Some(Event::NewSong(announcement.record())),
            None => None,
        },
        TopicKind::Pause => Some(Event::Pause),
        TopicKind::Other => None,
    }
}

/// Turns a message into the event to apply. `payload` is the decoded
/// announcement, or `None` where the message held none that could be decoded.
pub fn feed_event(kind: TopicKind, payload: Option<GuitarSongInfo>) -> (event: Option<FeedEvent>)
    ensures
        match event {
            Some(e) => event_of(kind, payload) == Some(e@),
            None => event_of(kind, payload) is None,
        },
{
    match kind {
        TopicKind::SongInfo => match payload {
            Some(announcement) => Some(FeedEvent::NewSong(announcement.into_song_info())),
            None => None,
        },
        TopicKind::Pause => Some(FeedEvent::Pause),
        TopicKind::Other => None,
    }
}

/// What the consumer does next about a lost connection.
#[derive(Debug, Clone, Copy, PartialEq, Eq, Structural)]
pub enum ReconnectAction {
    /// Wait this many milliseconds, then try to connect.
    RetryAfter(u64),
    /// The connection is back: subscribe again and go on.
    Resume,
    /// Every try failed: stop trying.
    GiveUp,
}

/// Decides the next step after `failed_attempts` tries that failed, the last
/// try having connected or not: go on once connected, try again after the
/// delay while tries are left, give up after the last.
pub fn reconnect_action(failed_attempts: u32, connected: bool) -> (action: ReconnectAction)
    ensures
        connected ==> action == ReconnectAction::Resume,
        !connected && failed_attempts < RECONNECT_ATTEMPTS ==> action
            == ReconnectAction::RetryAfter(RECONNECT_DELAY_MS),
        !connected && failed_attempts >= RECONNECT_ATTEMPTS ==> action == ReconnectAction::GiveUp,
{
    if connected {
        ReconnectAction::Resume
    } else if failed_attempts < RECONNECT_ATTEMPTS {
        ReconnectAction::RetryAfter(RECONNECT_DELAY_MS)
    } else {
        ReconnectAction::GiveUp
    }
}

} // verus!
