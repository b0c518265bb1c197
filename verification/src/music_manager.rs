//! The executable now-playing state and the manager that owns it.

use vstd::prelude::*;
use crate::laws::lemma_transition_preserves_wf;
use crate::model::{Event, NowPlayingState, SongRecord, PAUSE_TIMEOUT};

verus! {

/// One broadcast instance of a track, as the feed described it.
#[derive(Debug, PartialEq, Eq)]
pub struct SongInfo {
    pub title: String,
    pub artist: String,
    pub cover_img: String,
    pub song_id: String,
    pub started_at: u64,
}

impl View for SongInfo {
    type V = SongRecord;

    open spec fn view(&self) -> SongRecord {
        SongRecord {
            song_id: self.song_id@,
            title: self.title@,
            artist: self.artist@,
            cover_image: self.cover_img@,
            started_at: self.started_at as nat,
        }
    }
}

impl Clone for SongInfo {
    fn clone(&self) -> (res: Self)
        ensures
            res == *self,
    {
        SongInfo {
            title: self.title.clone(),
            artist: self.artist.clone(),
            cover_img: self.cover_img.clone(),
            song_id: self.song_id.clone(),
            started_at: self.started_at,
        }
    }
}

/// The record behind an optional song.
pub open spec fn record_of(song: Option<SongInfo>) -> Option<SongRecord> {
    match song {
        Some(s) => Some(s@),
        None => None,
    }
}

/// The song that is playing, the two before it, and when playback stopped.
#[derive(Debug, PartialEq, Eq)]
pub struct MusicState {
    pub current_song: Option<SongInfo>,
    pub last_song: Option<SongInfo>,
    pub last_last_song: Option<SongInfo>,
    pub paused_at: Option<u64>,
}

impl View for MusicState {
    type V = NowPlayingState;

    open spec fn view(&self) -> NowPlayingState {
        NowPlayingState {
            current: record_of(self.current_song),
            previous: record_of(self.last_song),
            previous_previous: record_of(self.last_last_song),
            paused_since: match self.paused_at {
                Some(t) => Some(t as nat),
                None => None,
            },
        }
    }
}

impl Clone for MusicState {
    fn clone(&self) -> (res: Self)
        ensures
            res == *self,
    {
        MusicState {
            current_song: self.current_song.clone(),
            last_song: self.last_song.clone(),
            last_last_song: self.last_last_song.clone(),
            paused_at: self.paused_at,
        }
    }
}

impl MusicState {
    /// The state a tracker starts in: nothing played, paused since time 0.
    pub fn new() -> (state: Self)
        ensures
            state@ == NowPlayingState::initial(),
    {
        MusicState { current_song: None, last_song: None, last_last_song: None, paused_at: Some(0) }
    }

    /// Makes `new_song` the current song and moves the others down one place.
    /// The oldest is dropped and the pause mark is cleared.
    pub fn shift(&mut self, new_song: Option<SongInfo>)
        ensures
            final(self)@ == old(self)@.shift(record_of(new_song)),
    {
        self.last_last_song = self.last_song.take();
        self.last_song = self.current_song.take();
        self.current_song = new_song;
        self.paused_at = None;
    }

    /// Makes the last song current again, moves the one before it up and
    /// clears the pause mark.
    pub fn unshift(&mut self)
        ensures
            final(self)@ == old(self)@.unshift(),
    {
        self.current_song = self.last_song.take();
        self.last_song = self.last_last_song.take();
        self.paused_at = None;
    }

    /// Forgets every song and marks the state paused since time 0.
    pub fn clear(&mut self)
        ensures
            final(self)@ == NowPlayingState::initial(),
    {
        self.current_song = None;
        self.last_song = None;
        self.last_last_song = None;
        self.paused_at = Some(0);
    }

    /// Playback stopped at `now`: the history moves down and nothing is current.
    pub fn pause(&mut self, now: u64)
        ensures
            final(self)@ == old(self)@.pause(now as nat),
    {
        self.shift(None);
        self.paused_at = Some(now);
    }

    /// The feed announced `new_song` at `now`.
    ///
    /// A repeated announcement is ignored. After a pause that lasted the full
    /// timeout the song opens a new session; within the timeout the song from
    /// before the pause resumes as it was stored, and any other song becomes
    /// current above an untouched history. While a song is playing, a new one
    /// is a track change.
    pub fn new_song(&mut self, new_song: SongInfo, now: u64)
        ensures
            final(self)@ == old(self)@.new_song(new_song@, now as nat),
    {
        match self.paused_at {
            Some(paused_at) => {
                if now >= paused_at && now - paused_at >= PAUSE_TIMEOUT {
                    self.clear();
                    self.shift(Some(new_song));
                } else {
                    let (same_song, same_start) = match &self.last_song {
                        Some(last_song) => (
                            last_song.song_id == new_song.song_id,
                            last_song.started_at == new_song.started_at,
                        ),
                        None => (false, false),
                    };
                    if same_song {
                        if !same_start {
                            self.unshift();
                        }
                    } else {
                        self.current_song = Some(new_song);
                        self.paused_at = None;
                    }
                }
            },
            None => {
                let duplicate = match &self.current_song {
                    Some(current_song) => current_song.song_id == new_song.song_id
                        && current_song.started_at == new_song.started_at,
                    None => false,
                };
                if !duplicate {
                    self.shift(Some(new_song));
                }
            },
        }
    }

    /// Applies one feed event that arrived at `now`.
    pub fn transition(&mut self, event: FeedEvent, now: u64)
        ensures
            final(self)@ == old(self)@.transition(event@, now as nat),
    {
        match event {
            FeedEvent::Pause => self.pause(now),
            FeedEvent::NewSong(song) => self.new_song(song, now),
        }
    }
}

/// A decoded message of the feed.
#[derive(Debug, PartialEq, Eq)]
pub enum FeedEvent {
    /// Playback was paused or stopped.
    Pause,
    /// A song started.
    NewSong(SongInfo),
}

impl View for FeedEvent {
    type V = Event;

    open spec fn view(&self) -> Event {
        match self {
            FeedEvent::Pause => Event::Pause,
            FeedEvent::NewSong(song) => Event::NewSong(song@),
        }
    }
}

/// Owner of the one live now-playing state.
///
/// The state it holds is well-formed at all times: a song is current exactly
/// when the state is not paused.
pub struct MusicManager {
    music_state: MusicState,
}

impl View for MusicManager {
    type V = NowPlayingState;

    closed spec fn view(&self) -> NowPlayingState {
        self.music_state@
    }
}

impl MusicManager {
    #[verifier::type_invariant]
    spec fn well_formed(self) -> bool {
        self.music_state@.wf()
    }

    /// A manager in the initial state.
    pub fn new() -> (manager: Self)
        ensures
            manager@ == NowPlayingState::initial(),
    {
        MusicManager { music_state: MusicState::new() }
    }

    /// A copy of the state, independent of the manager.
    pub fn read_state(&self) -> (state: MusicState)
        ensures
            state@ == self@,
            state@.wf(),
    {
        proof {
            use_type_invariant(self);
        }
        self.music_state.clone()
    }

    /// Records that playback stopped at `now`.
    pub fn pause(&mut self, now: u64)
        ensures
            final(self)@ == old(self)@.pause(now as nat),
            final(self)@.wf(),
    {
        self.apply(FeedEvent::Pause, now);
    }

    /// Records that the feed announced `new_song` at `now`.
    pub fn new_song(&mut self, new_song: SongInfo, now: u64)
        ensures
            final(self)@ == old(self)@.new_song(new_song@, now as nat),
            final(self)@.wf(),
    {
        self.apply(FeedEvent::NewSong(new_song), now);
    }

    /// Applies one feed event that arrived at `now`.
    pub fn apply(&mut self, event: FeedEvent, now: u64)
        ensures
            final(self)@ == old(self)@.transition(event@, now as nat),
            final(self)@.wf(),
    {
        proof {
            use_type_invariant(&*self);
            lemma_transition_preserves_wf(self@, event@, now as nat);
        }
        // The state is moved out while it changes, so the manager never holds
        // a half-updated one.
        let mut state = MusicState::new();
        core::mem::swap(&mut self.music_state, &mut state);
        state.transition(event, now);
        self.music_state = state;
    }
}

} // verus!
