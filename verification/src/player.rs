//! The track data the scrobbler works with, and how a query of Apple Music
//! becomes the track now playing.
use vstd::prelude::*;

use crate::error::AppError;

verus! {

/// Normalized track data we care about for scrobbling.
#[derive(Debug, Clone, PartialEq)]
pub struct Track {
    pub title: String,
    pub artist: String,
    pub album: String,
    /// Duration in nanoseconds.
    pub duration_ns: u64,
}

/// Two tracks are the same song when title, artist and album agree; the
/// duration does not take part.
pub open spec fn same_song(a: Track, b: Track) -> bool {
    &&& a.title@ == b.title@
    &&& a.artist@ == b.artist@
    &&& a.album@ == b.album@
}

/// How a track is displayed: `"Title" by Artist (Album)`.
pub open spec fn track_text(t: Track) -> Seq<char> {
    "\""@ + t.title@ + "\" by "@ + t.artist@ + " ("@ + t.album@ + ")"@
}

/// Being the same song is an equivalence (reflexive, symmetric, transitive)
/// that ignores the duration.
pub proof fn law_same_song_equivalence(a: Track, b: Track, c: Track, d: u64)
    ensures
        same_song(a, a),
        same_song(a, b) == same_song(b, a),
        same_song(a, b) && same_song(b, c) ==> same_song(a, c),
        same_song(a, Track { duration_ns: d, ..a }),
{
}

impl Track {
    /// Returns true if this track is the same song as another (ignoring play position).
    pub fn is_same_song(&self, other: &Track) -> (r: bool)
        ensures
            r == same_song(*self, *other),
    {
        self.title == other.title && self.artist == other.artist && self.album == other.album
    }

    /// A copy of this track.
    pub fn duplicate(&self) -> (r: Track)
        ensures
            r == *self,
    {
        Track {
            title: self.title.clone(),
            artist: self.artist.clone(),
            album: self.album.clone(),
            duration_ns: self.duration_ns,
        }
    }

    /// Renders the track as `"Title" by Artist (Album)`.
    pub fn display(&self) -> (s: String)
        ensures
            s@ == track_text(*self),
    {
        let mut s = String::from_str("\"");
        s.append(self.title.as_str());
        s.append("\" by ");
        s.append(self.artist.as_str());
        s.append(" (");
        s.append(self.album.as_str());
        s.append(")");
        s
    }
}

/// What asking Apple Music for its current track gave back.
#[derive(Debug)]
pub enum TrackFetch {
    /// A track is playing.
    Fetched(Track),
    /// The player reported that nothing is playing.
    NotPlaying,
    /// The query failed; the message describes the failure.
    Failed(String),
}

/// The current track as seen from the state of the player: nothing when Apple
/// Music is not running or not in the playing state, otherwise the result of
/// the track query.
pub open spec fn current_track_spec(running: bool, playing: bool, fetch: TrackFetch) -> Result<Option<Track>, AppError> {
    if !running || !playing {
        Ok(None)
    } else {
        match fetch {
            TrackFetch::Fetched(t) => Ok(Some(t)),
            TrackFetch::NotPlaying => Ok(None),
            TrackFetch::Failed(m) => Err(AppError::Player(m)),
        }
    }
}

/// A stopped, paused or closed player has nothing playing: whatever the
/// track query would give, the current track is none and no error arises.
pub proof fn law_nothing_plays_unless_playing(running: bool, playing: bool, fetch: TrackFetch)
    requires
        !(running && playing),
    ensures
        current_track_spec(running, playing, fetch) == Ok::<Option<Track>, AppError>(None),
{
}

/// A track is reported as playing only when the player runs, is in the
/// playing state, and the query returned that very track; an error only
/// when the query of a playing player failed, carrying its message.
pub proof fn law_reported_track_comes_from_a_playing_player(running: bool, playing: bool, fetch: TrackFetch)
    ensures
        current_track_spec(running, playing, fetch) matches Ok(Some(t)) ==> running && playing
            && fetch == TrackFetch::Fetched(t),
        current_track_spec(running, playing, fetch) matches Err(e) ==> running && playing && (
        fetch matches TrackFetch::Failed(m) && e == AppError::Player(m)),
        running && playing && fetch is NotPlaying ==> current_track_spec(running, playing, fetch)
            == Ok::<Option<Track>, AppError>(None),
{
}

/// Decides the current track from whether Apple Music runs, whether it is
/// playing, and what the track query returned (not consulted unless both hold).
pub fn current_track_from(running: bool, playing: bool, fetch: TrackFetch) -> (r: Result<Option<Track>, AppError>)
    ensures
        r == current_track_spec(running, playing, fetch),
        !running ==> r == Ok::<Option<Track>, AppError>(None),
        !playing ==> r == Ok::<Option<Track>, AppError>(None),
        r matches Ok(Some(t)) ==> running && playing && fetch == TrackFetch::Fetched(t),
        r is Err ==> running && playing && fetch is Failed,
{
    if !running || !playing {
        return Ok(None);
    }
    match fetch {
        TrackFetch::Fetched(t) => Ok(Some(t)),
        TrackFetch::NotPlaying => Ok(None),
        TrackFetch::Failed(m) => Err(AppError::Player(m)),
    }
}

/// What the poll loop scrobbles against: the current track when Apple Music
/// could be queried, nothing playing when the query failed.
pub fn track_or_nothing(polled: Result<Option<Track>, AppError>) -> (r: Option<Track>)
    ensures
        (match polled {
            Ok(t) => r == t,
            Err(_) => r is None,
        }),
{
    match polled {
        Ok(t) => t,
        Err(_) => None,
    }
}

} // verus!
