//! Laws of the now-playing transitions, proved over the model.

use vstd::prelude::*;
use crate::model::{Event, NowPlayingState, SongRecord, PAUSE_TIMEOUT};

verus! {

/// The invariant survives every event: after a transition from a well-formed
/// state, something is current exactly when the state is not paused.
pub proof fn lemma_transition_preserves_wf(state: NowPlayingState, event: Event, now: nat)
    requires
        state.wf(),
    ensures
        state.transition(event, now).wf(),
{
}

/// The first song ever announced becomes current over an empty history,
/// whatever the time.
pub proof fn lemma_first_song(song: SongRecord, now: nat)
    ensures
        NowPlayingState::initial().new_song(song, now) == (NowPlayingState {
            current: Some(song),
            previous: None,
            previous_previous: None,
            paused_since: None,
        }),
{
}

/// A pause moves the history down, leaves nothing current and stamps the time.
pub proof fn lemma_pause_shifts_history(state: NowPlayingState, now: nat)
    ensures
        state.pause(now) == (NowPlayingState {
            current: None,
            previous: state.current,
            previous_previous: state.previous,
            paused_since: Some(now),
        }),
{
}

/// Pulling the history up always leaves a state that is not paused, and one
/// that is well-formed wherever there was a previous track to pull up.
pub proof fn lemma_unshift_is_playing(state: NowPlayingState)
    ensures
        state.unshift().paused_since is None,
        state.unshift().current == state.previous,
        state.previous is Some ==> state.unshift().wf(),
{
}

/// Pulling the history up right after a pause gives back the song that was
/// playing and the one before it; only the oldest entry is lost.
pub proof fn lemma_unshift_undoes_pause(state: NowPlayingState, now: nat)
    ensures
        state.pause(now).unshift() == (NowPlayingState {
            current: state.current,
            previous: state.previous,
            previous_previous: None,
            paused_since: None,
        }),
{
}

/// A duplicate announcement changes nothing.
pub proof fn lemma_duplicate_changes_nothing(state: NowPlayingState, song: SongRecord, now: nat)
    requires
        state.is_duplicate(song, now),
    ensures
        state.new_song(song, now) == state,
{
}

/// While a song is playing, an announcement that is no duplicate is a track
/// change: it goes on top and the oldest entry is dropped.
pub proof fn lemma_track_change(state: NowPlayingState, song: SongRecord, now: nat)
    requires
        state.paused_since is None,
        !state.is_duplicate(song, now),
    ensures
        state.new_song(song, now) == (NowPlayingState {
            current: Some(song),
            previous: state.current,
            previous_previous: state.previous,
            paused_since: None,
        }),
{
}

/// After a pause that lasted the full timeout, the next song opens a new
/// session: the history is gone.
pub proof fn lemma_long_silence_resets(state: NowPlayingState, song: SongRecord, now: nat)
    requires
        state.paused_since is Some,
        now - state.paused_since->0 >= PAUSE_TIMEOUT,
    ensures
        state.new_song(song, now) == (NowPlayingState {
            current: Some(song),
            previous: None,
            previous_previous: None,
            paused_since: None,
        }),
{
}

/// A pause followed, within the timeout, by a repeat of the interrupted
/// broadcast leaves the paused state as it is.
pub proof fn lemma_pause_then_duplicate(
    state: NowPlayingState,
    paused_at: nat,
    song: SongRecord,
    now: nat,
)
    requires
        state.current is Some,
        state.current->0.same_broadcast(song),
        now - paused_at < PAUSE_TIMEOUT,
    ensures
        state.pause(paused_at).new_song(song, now) == state.pause(paused_at),
{
}

/// A pause followed, within the timeout, by the interrupted track under a new
/// start time resumes it: the stored record is current again, the one before
/// it is previous again, and the oldest entry is lost.
pub proof fn lemma_pause_then_resume(
    state: NowPlayingState,
    paused_at: nat,
    song: SongRecord,
    now: nat,
)
    requires
        state.current is Some,
        state.current->0.song_id == song.song_id,
        state.current->0.started_at != song.started_at,
        now - paused_at < PAUSE_TIMEOUT,
    ensures
        state.pause(paused_at).is_resume(song, now),
        state.pause(paused_at).new_song(song, now) == (NowPlayingState {
            current: state.current,
            previous: state.previous,
            previous_previous: None,
            paused_since: None,
        }),
{
}

/// A pause followed, within the timeout, by another track leaves the history
/// that a direct track change would have left.
pub proof fn lemma_pause_then_other_song(
    state: NowPlayingState,
    paused_at: nat,
    song: SongRecord,
    now: nat,
)
    requires
        state.current is Some,
        state.current->0.song_id != song.song_id,
        now - paused_at < PAUSE_TIMEOUT,
    ensures
        state.pause(paused_at).new_song(song, now) == state.shift(Some(song)),
{
}

/// An announcement that made its song current, or found it current, is
/// ignored when it is delivered again, at whatever time. The one announcement
/// that is not covered is one for the track from before a running pause.
pub proof fn lemma_redelivery_is_ignored(
    state: NowPlayingState,
    song: SongRecord,
    now: nat,
    later: nat,
)
    requires
        !state.is_resume(song, now),
        !(state.paused_since is Some && state.is_duplicate(song, now)),
    ensures
        state.new_song(song, now).new_song(song, later) == state.new_song(song, now),
{
}

/// Delivering one duplicate announcement any number of times, each time while
/// it is a duplicate, is the same as delivering it once.
pub proof fn lemma_duplicates_are_idempotent(
    state: NowPlayingState,
    song: SongRecord,
    times: Seq<nat>,
)
    requires
        times.len() >= 1,
        forall|i: int| 0 <= i < times.len() ==> state.is_duplicate(song, #[trigger] times[i]),
    ensures
        state.replay(Event::NewSong(song), times) == state.transition(
            Event::NewSong(song),
            times[0],
        ),
        state.replay(Event::NewSong(song), times) == state,
    decreases times.len(),
{
    if times.len() > 1 {
        let earlier = times.drop_last();
        assert forall|i: int| 0 <= i < earlier.len() implies state.is_duplicate(
            song,
            #[trigger] earlier[i],
        ) by {
            assert(earlier[i] == times[i]);
        }
        lemma_duplicates_are_idempotent(state, song, earlier);
    } else {
        assert(state.replay(Event::NewSong(song), times.drop_last()) == state);
    }
}

} // verus!
