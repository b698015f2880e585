//! The scrobble state machine: given what is playing at each poll, it decides
//! when to announce a track as now playing and when a play has lasted long
//! enough to be scrobbled.
use vstd::prelude::*;

use std::time::Instant;

use crate::clock::{duration_nanos, elapsed_since, instant_now};

use crate::player::{same_song, Track};

verus! {

/// Minimum time played before a track is eligible to scrobble, in nanoseconds (30 s).
pub const MIN_SCROBBLE_NS: u64 = 30_000_000_000;

/// Actions the state machine wants the caller to perform.
#[derive(Debug, Clone)]
pub enum Action {
    SendNowPlaying(Track),
    Scrobble(Track),
}

/// Where the machine stands between two polls.
#[derive(Debug)]
pub enum State {
    /// Nothing is playing.
    Idle,
    /// `track` has been playing since `started_at_ns`; `scrobbled` tells
    /// whether this play has been scrobbled already.
    Tracking { track: Track, started_at_ns: u64, scrobbled: bool },
}

/// Time elapsed from `started` to `now`, zero if `now` is earlier.
pub open spec fn elapsed_ns(started: u64, now: u64) -> nat {
    if now >= started {
        (now - started) as nat
    } else {
        0
    }
}

/// A play of a track of `duration_ns` that has lasted `elapsed` nanoseconds
/// may be scrobbled: it has lasted at least 30 s and at least half the track.
pub open spec fn scrobble_eligible(duration_ns: u64, elapsed: nat) -> bool {
    elapsed >= MIN_SCROBBLE_NS && 2 * elapsed >= duration_ns
}

/// The track an optional reference points at.
pub open spec fn opt_track(current: Option<&Track>) -> Option<Track> {
    match current {
        Some(t) => Some(*t),
        None => None,
    }
}

/// One poll of the machine: from state `s`, with `current` playing (or
/// nothing) at time `now`, the next state and the actions to perform.
pub open spec fn step(s: State, current: Option<Track>, now: u64) -> (State, Seq<Action>) {
    match s {
        State::Idle => match current {
            None => (State::Idle, Seq::empty()),
            Some(t) => (
                State::Tracking { track: t, started_at_ns: now, scrobbled: false },
                seq![Action::SendNowPlaying(t)],
            ),
        },
        State::Tracking { track, started_at_ns, scrobbled } => match current {
            None => (State::Idle, Seq::empty()),
            Some(t) => if !same_song(t, track) {
                (
                    State::Tracking { track: t, started_at_ns: now, scrobbled: false },
                    seq![Action::SendNowPlaying(t)],
                )
            } else if !scrobbled && scrobble_eligible(track.duration_ns, elapsed_ns(started_at_ns, now)) {
                (
                    State::Tracking { track, started_at_ns, scrobbled: true },
                    seq![Action::Scrobble(track)],
                )
            } else {
                (s, Seq::empty())
            },
        },
    }
}

/// A clock reading in nanoseconds as the machine's time: readings beyond
/// `u64::MAX` (some 584 years) count as `u64::MAX`.
pub open spec fn clamp_nanos(ns: u128) -> u64 {
    if ns > 0xffff_ffff_ffff_ffffu128 {
        0xffff_ffff_ffff_ffffu64
    } else {
        ns as u64
    }
}

/// A clock reading in nanoseconds as the machine's time.
pub fn clock_nanos(ns: u128) -> (now: u64)
    ensures
        now == clamp_nanos(ns),
{
    if ns > 0xffff_ffff_ffff_ffffu128 {
        0xffff_ffff_ffff_ffffu64
    } else {
        ns as u64
    }
}

/// Tracks scrobble eligibility across poll ticks.
///
/// The caller drives the machine by calling [`tick`] with whatever Apple Music
/// is currently playing (or `None` if stopped/paused). The machine returns a
/// list of [`Action`]s that should be executed against the Last.fm API.
pub struct ScrobbleStateMachine {
    state: State,
    origin: Instant,
}

impl View for ScrobbleStateMachine {
    type V = State;

    closed spec fn view(&self) -> State {
        self.state
    }
}

impl ScrobbleStateMachine {
    pub fn new() -> (sm: Self)
        ensures
            sm@ == State::Idle,
    {
        ScrobbleStateMachine { state: State::Idle, origin: instant_now() }
    }

    /// Production tick: reads the monotonic clock (nanoseconds since the
    /// machine was made) and steps with that time.
    pub fn tick(&mut self, current: Option<&Track>) -> (actions: Vec<Action>)
        ensures
            exists|ns: u128| (final(self)@, actions@) == step(old(self)@, opt_track(current), clamp_nanos(ns)),
    {
        let elapsed = elapsed_since(&self.origin);
        let ns = duration_nanos(&elapsed);
        self.tick_at(current, clock_nanos(ns))
    }

    /// Core tick logic, accepting an explicit time in nanoseconds on a
    /// monotonic clock so tests can control time.
    pub fn tick_at(&mut self, current: Option<&Track>, now_ns: u64) -> (actions: Vec<Action>)
        ensures
            (final(self)@, actions@) == step(old(self)@, opt_track(current), now_ns),
    {
        let mut actions: Vec<Action> = Vec::new();
        let next: Option<State> = match &self.state {
            State::Idle => match current {
                None => None,
                Some(t) => {
                    actions.push(Action::SendNowPlaying(t.duplicate()));
                    Some(State::Tracking { track: t.duplicate(), started_at_ns: now_ns, scrobbled: false })
                },
            },
            State::Tracking { track, started_at_ns, scrobbled } => match current {
                None => Some(State::Idle),
                Some(new_track) => {
                    if !new_track.is_same_song(track) {
                        actions.push(Action::SendNowPlaying(new_track.duplicate()));
                        Some(
                            State::Tracking {
                                track: new_track.duplicate(),
                                started_at_ns: now_ns,
                                scrobbled: false,
                            },
                        )
                    } else if !*scrobbled {
                        let elapsed: u64 = if now_ns >= *started_at_ns {
                            now_ns - *started_at_ns
                        } else {
                            0
                        };
                        if elapsed >= MIN_SCROBBLE_NS && 2 * (elapsed as u128) >= track.duration_ns as u128 {
                            actions.push(Action::Scrobble(track.duplicate()));
                            Some(
                                State::Tracking {
                                    track: track.duplicate(),
                                    started_at_ns: *started_at_ns,
                                    scrobbled: true,
                                },
                            )
                        } else {
                            None
                        }
                    } else {
                        None
                    }
                },
            },
        };
        if let Some(n) = next {
            self.state = n;
        }
        proof {
            let ghost (ns, na) = step(old(self)@, opt_track(current), now_ns);
            assert(actions@ =~= na);
        }
        actions
    }
}

/// The machine run over a sequence of polls `(what is playing, time)`, from
/// state `s`: the final state and every action, in order.
pub open spec fn run(s: State, polls: Seq<(Option<Track>, u64)>) -> (State, Seq<Action>)
    decreases polls.len(),
{
    if polls.len() == 0 {
        (s, Seq::empty())
    } else {
        let (s1, a1) = step(s, polls[0].0, polls[0].1);
        let (s2, a2) = run(s1, polls.drop_first());
        (s2, a1 + a2)
    }
}

/// The number of scrobbles among `actions`.
pub open spec fn scrobble_count(actions: Seq<Action>) -> nat
    decreases actions.len(),
{
    if actions.len() == 0 {
        0
    } else {
        (if actions[0] is Scrobble { 1nat } else { 0nat }) + scrobble_count(actions.drop_first())
    }
}

/// Every poll yields at most one action.
pub proof fn law_at_most_one_action(s: State, current: Option<Track>, now: u64)
    ensures
        step(s, current, now).1.len() <= 1,
{
}

/// When nothing is playing the machine goes idle and does nothing.
pub proof fn law_stop_goes_idle(s: State, now: u64)
    ensures
        step(s, None, now) == (State::Idle, Seq::<Action>::empty()),
{
}

/// A track is announced as now playing exactly when the machine was idle or
/// was tracking another song; tracking then restarts on it, not yet scrobbled.
pub proof fn law_now_playing_on_new_song(s: State, t: Track, now: u64)
    ensures
        (step(s, Some(t), now).1 == seq![Action::SendNowPlaying(t)]) == (match s {
            State::Idle => true,
            State::Tracking { track, .. } => !same_song(t, track),
        }),
        (match s {
            State::Idle => true,
            State::Tracking { track, .. } => !same_song(t, track),
        }) ==> step(s, Some(t), now).0 == (State::Tracking { track: t, started_at_ns: now, scrobbled: false }),
{
    let r = step(s, Some(t), now);
    match s {
        State::Idle => {},
        State::Tracking { track, .. } => {
            if same_song(t, track) {
                assert(r.1.len() == 0 || r.1[0] is Scrobble);
                assert(r.1 != seq![Action::SendNowPlaying(t)]) by {
                    if r.1.len() == 1 {
                        assert(r.1[0] is Scrobble);
                        assert(seq![Action::SendNowPlaying(t)][0] is SendNowPlaying);
                    }
                }
            }
        },
    }
}

/// A scrobble is only ever sent for the song being tracked, when that play
/// has not been scrobbled yet, the same song is still playing, and it has
/// played for at least 30 s and at least half its duration.
pub proof fn law_scrobble_only_when_eligible(s: State, current: Option<Track>, now: u64)
    requires
        step(s, current, now).1.len() > 0,
        step(s, current, now).1[0] is Scrobble,
    ensures
        s matches State::Tracking { track, started_at_ns, scrobbled } && {
            &&& !scrobbled
            &&& step(s, current, now).1 == seq![Action::Scrobble(track)]
            &&& current matches Some(t) && same_song(t, track)
            &&& scrobble_eligible(track.duration_ns, elapsed_ns(started_at_ns, now))
        },
{
}

/// A play of the same song that is past the threshold and not yet scrobbled
/// is scrobbled on this poll, and marked as scrobbled.
pub proof fn law_scrobble_when_eligible(track: Track, started_at_ns: u64, t: Track, now: u64)
    requires
        same_song(t, track),
        scrobble_eligible(track.duration_ns, elapsed_ns(started_at_ns, now)),
    ensures
        step(State::Tracking { track, started_at_ns, scrobbled: false }, Some(t), now) == (
            State::Tracking { track, started_at_ns, scrobbled: true },
            seq![Action::Scrobble(track)],
        ),
{
}

/// Over any run of polls in which the same song keeps playing, the play is
/// scrobbled at most once: exactly once if it was not scrobbled before and
/// some poll found it past the threshold, never otherwise. Nothing else is
/// sent, and tracking keeps the song and its start time.
pub proof fn law_one_scrobble_per_play(
    track: Track,
    started_at_ns: u64,
    scrobbled: bool,
    polls: Seq<(Option<Track>, u64)>,
)
    requires
        forall|i: int| 0 <= i < polls.len() ==> ((#[trigger] polls[i]).0 matches Some(c) && same_song(c, track)),
    ensures
        ({
            let reached = exists|i: int| 0 <= i < polls.len()
                && scrobble_eligible(track.duration_ns, elapsed_ns(started_at_ns, (#[trigger] polls[i]).1));
            let r = run(State::Tracking { track, started_at_ns, scrobbled }, polls);
            &&& r.0 == State::Tracking { track, started_at_ns, scrobbled: scrobbled || reached }
            &&& scrobble_count(r.1) == (if !scrobbled && reached { 1nat } else { 0nat })
            &&& r.1.len() == scrobble_count(r.1)
        }),
    decreases polls.len(),
{
    let s = State::Tracking { track, started_at_ns, scrobbled };
    if polls.len() == 0 {
        return;
    }
    let p0 = polls[0];
    let rest = polls.drop_first();
    let e0 = scrobble_eligible(track.duration_ns, elapsed_ns(started_at_ns, p0.1));
    let sc1 = scrobbled || e0;
    assert(forall|i: int| 0 <= i < rest.len() ==> rest[i] == polls[i + 1]);
    law_one_scrobble_per_play(track, started_at_ns, sc1, rest);
    let (s1, a1) = step(s, p0.0, p0.1);
    assert(s1 == State::Tracking { track, started_at_ns, scrobbled: sc1 });
    let (s2, a2) = run(s1, rest);
    let reached = exists|i: int| 0 <= i < polls.len()
        && scrobble_eligible(track.duration_ns, elapsed_ns(started_at_ns, (#[trigger] polls[i]).1));
    let reached_rest = exists|i: int| 0 <= i < rest.len()
        && scrobble_eligible(track.duration_ns, elapsed_ns(started_at_ns, (#[trigger] rest[i]).1));
    assert(reached == (e0 || reached_rest)) by {
        if reached_rest {
            let i = choose|i: int| 0 <= i < rest.len()
                && scrobble_eligible(track.duration_ns, elapsed_ns(started_at_ns, (#[trigger] rest[i]).1));
            assert(polls[i + 1] == rest[i]);
        }
        if reached && !e0 {
            let i = choose|i: int| 0 <= i < polls.len()
                && scrobble_eligible(track.duration_ns, elapsed_ns(started_at_ns, (#[trigger] polls[i]).1));
            assert(i != 0);
            assert(rest[i - 1] == polls[i]);
        }
    }
    if !scrobbled && e0 {
        assert(a1 == seq![Action::Scrobble(track)]);
        assert((a1 + a2).drop_first() =~= a2);
        assert((a1 + a2)[0] is Scrobble);
    } else {
        assert(a1 =~= Seq::<Action>::empty());
        assert(a1 + a2 =~= a2);
    }
}

} // verus!
