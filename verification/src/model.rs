//! Mathematical model of the now-playing state and of its transitions.
//!
//! The types and functions here are ghost: the executable types elsewhere in
//! the crate state their contracts over them. The one executable item is the
//! constant `PAUSE_TIMEOUT`, which the model and the code share.

use vstd::prelude::*;

verus! {

/// Seconds of silence after which the next song starts a new listening session.
pub const PAUSE_TIMEOUT: u64 = 900;

/// One broadcast instance of a track.
pub struct SongRecord {
    pub song_id: Seq<char>,
    pub title: Seq<char>,
    pub artist: Seq<char>,
    pub cover_image: Seq<char>,
    pub started_at: nat,
}

/// What the feed reports.
pub enum Event {
    Pause,
    NewSong(SongRecord),
}

/// Current track, the two before it, and the time playback stopped.
pub struct NowPlayingState {
    pub current: Option<SongRecord>,
    pub previous: Option<SongRecord>,
    pub previous_previous: Option<SongRecord>,
    pub paused_since: Option<nat>,
}

impl SongRecord {
    /// Same track, same start time: the same broadcast of it.
    pub open spec fn same_broadcast(self, other: SongRecord) -> bool {
        self.song_id == other.song_id && self.started_at == other.started_at
    }
}

impl NowPlayingState {
    /// Nothing played yet; silent since before the epoch.
    pub open spec fn initial() -> NowPlayingState {
        NowPlayingState {
            current: None,
            previous: None,
            previous_previous: None,
            paused_since: Some(0nat),
        }
    }

    /// Silence is always timestamped, and a playing state is never marked paused.
    pub open spec fn wf(self) -> bool {
        self.current is None <==> self.paused_since is Some
    }

    /// Pushes the history down one place, puts `next` on top and clears the
    /// pause mark. What was in `previous_previous` is dropped.
    pub open spec fn shift(self, next: Option<SongRecord>) -> NowPlayingState {
        NowPlayingState {
            current: next,
            previous: self.current,
            previous_previous: self.previous,
            paused_since: None,
        }
    }

    /// Pulls the history up one place: the previous track is current again,
    /// and the pause mark is cleared.
    pub open spec fn unshift(self) -> NowPlayingState {
        NowPlayingState {
            current: self.previous,
            previous: self.previous_previous,
            previous_previous: None,
            paused_since: None,
        }
    }

    /// Playback stopped at `now`.
    pub open spec fn pause(self, now: nat) -> NowPlayingState {
        NowPlayingState { paused_since: Some(now), ..self.shift(None) }
    }

    /// The pause that began at `since` has lasted the full timeout at `now`.
    /// A pause stamped later than `now` has lasted no time at all.
    pub open spec fn timed_out(since: nat, now: nat) -> bool {
        now - since >= PAUSE_TIMEOUT
    }

    /// The feed announced `song` at `now`.
    ///
    /// While paused: after the timeout the song opens a new session and the
    /// history is dropped; within it, the track from before the pause either
    /// repeats (nothing changes) or resumes (the stored record is current
    /// again), and any other track becomes current above an untouched history.
    /// While playing: a repeat of the current broadcast changes nothing, and
    /// anything else is a track change.
    pub open spec fn new_song(self, song: SongRecord, now: nat) -> NowPlayingState {
        match self.paused_since {
            Some(since) => {
                if Self::timed_out(since, now) {
                    NowPlayingState {
                        current: Some(song),
                        previous: None,
                        previous_previous: None,
                        paused_since: None,
                    }
                } else if self.previous is Some && self.previous->0.song_id == song.song_id {
                    if self.previous->0.started_at == song.started_at {
                        self
                    } else {
                        self.unshift()
                    }
                } else {
                    NowPlayingState { current: Some(song), paused_since: None, ..self }
                }
            },
            None => {
                if self.current is Some && self.current->0.same_broadcast(song) {
                    self
                } else {
                    self.shift(Some(song))
                }
            },
        }
    }

    /// `song` is the track that played before a pause that has not timed out,
    /// announced under another start time.
    pub open spec fn is_resume(self, song: SongRecord, now: nat) -> bool {
        &&& self.paused_since is Some
        &&& !Self::timed_out(self.paused_since->0, now)
        &&& self.previous is Some
        &&& self.previous->0.song_id == song.song_id
        &&& self.previous->0.started_at != song.started_at
    }

    /// `song` only repeats what the state already holds: the broadcast that is
    /// playing, or, during a pause that has not timed out, the broadcast that
    /// played before it.
    pub open spec fn is_duplicate(self, song: SongRecord, now: nat) -> bool {
        match self.paused_since {
            Some(since) => !Self::timed_out(since, now) && self.previous is Some
                && self.previous->0.same_broadcast(song),
            None => self.current is Some && self.current->0.same_broadcast(song),
        }
    }

    /// The state after `event` arrived at `now`.
    pub open spec fn transition(self, event: Event, now: nat) -> NowPlayingState {
        match event {
            Event::Pause => self.pause(now),
            Event::NewSong(song) => self.new_song(song, now),
        }
    }

    /// The state after `event` arrived once at each of `times`, in order.
    pub open spec fn replay(self, event: Event, times: Seq<nat>) -> NowPlayingState
        decreases times.len(),
    {
        if times.len() == 0 {
            self
        } else {
            self.replay(event, times.drop_last()).transition(event, times.last())
        }
    }
}

} // verus!
