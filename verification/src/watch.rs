//! The watch loop: follows the player and reports whenever the saved state
//! of what it plays has changed.
//!
//! One tick of the loop asks the player what it is playing, asks the library
//! whether that track is saved if the track is new to the loop, reports the
//! saved state if it differs from the last one reported, and rests. The loop
//! is written as a machine: [`poll`] takes what happened and says what to do
//! next. An event that does not answer the action that is pending, a failure
//! of the remote service among them, gives the tick up: nothing is recorded
//! and the loop rests until the next tick.
//!
//! A pause does not make the loop forget: while nothing or an episode is
//! playing, the track followed and its saved state stay as they were. A track
//! without an id cannot be followed, so on such a track the loop forgets the
//! track it followed and takes the saved state to be `false`.

use vstd::prelude::*;
use crate::playback::{ObservationView, PlaybackObservation, TrackRef};

verus! {

/// Seconds for which the loop rests between two ticks.
pub const WATCH_INTERVAL_SECS: u64 = 5;

/// What the loop remembers from tick to tick.
#[derive(Debug, PartialEq, Eq)]
pub struct WatchState {
    /// The track whose saved state is known.
    pub last_track: Option<TrackRef>,
    /// Whether that track was saved when the loop last asked.
    pub last_saved: bool,
    /// The saved state that was last reported, if any was.
    pub last_reported: Option<bool>,
}

pub struct WatchStateView {
    pub last_track: Option<Seq<char>>,
    pub last_saved: bool,
    pub last_reported: Option<bool>,
}

impl View for WatchState {
    type V = WatchStateView;

    open spec fn view(&self) -> WatchStateView {
        WatchStateView {
            last_track: match self.last_track {
                Some(track) => Some(track@),
                None => None,
            },
            last_saved: self.last_saved,
            last_reported: self.last_reported,
        }
    }
}

/// Where in a tick the loop stands: the answer it is waiting for.
#[derive(Debug, PartialEq, Eq)]
pub enum WatchPhase {
    /// Between two ticks.
    Resting,
    /// The player was asked what it is playing.
    Observing,
    /// The library was asked whether this track is saved.
    Checking(TrackRef),
    /// A change was handed out to be reported.
    Reporting,
}

pub enum WatchPhaseView {
    Resting,
    Observing,
    Checking(Seq<char>),
    Reporting,
}

impl View for WatchPhase {
    type V = WatchPhaseView;

    open spec fn view(&self) -> WatchPhaseView {
        match *self {
            WatchPhase::Resting => WatchPhaseView::Resting,
            WatchPhase::Observing => WatchPhaseView::Observing,
            WatchPhase::Checking(track) => WatchPhaseView::Checking(track@),
            WatchPhase::Reporting => WatchPhaseView::Reporting,
        }
    }
}

/// The watch loop between two events.
#[derive(Debug, PartialEq, Eq)]
pub struct Watcher {
    pub state: WatchState,
    pub phase: WatchPhase,
}

pub struct WatcherView {
    pub state: WatchStateView,
    pub phase: WatchPhaseView,
}

impl View for Watcher {
    type V = WatcherView;

    open spec fn view(&self) -> WatcherView {
        WatcherView { state: self.state@, phase: self.phase@ }
    }
}

/// What can happen to the loop.
#[derive(Debug, PartialEq, Eq)]
pub enum WatchEvent {
    /// The rest is over, or the loop has just been started.
    Woke,
    /// The player answered what it is playing.
    Observed(PlaybackObservation),
    /// The library answered whether the track asked about is saved.
    SavedIs(bool),
    /// The change handed out has been reported.
    Reported,
    /// The remote service could not be reached or refused to answer.
    RemoteUnavailable,
}

pub enum WatchEventView {
    Woke,
    Observed(ObservationView),
    SavedIs(bool),
    Reported,
    RemoteUnavailable,
}

impl View for WatchEvent {
    type V = WatchEventView;

    open spec fn view(&self) -> WatchEventView {
        match *self {
            WatchEvent::Woke => WatchEventView::Woke,
            WatchEvent::Observed(observation) => WatchEventView::Observed(observation@),
            WatchEvent::SavedIs(saved) => WatchEventView::SavedIs(saved),
            WatchEvent::Reported => WatchEventView::Reported,
            WatchEvent::RemoteUnavailable => WatchEventView::RemoteUnavailable,
        }
    }
}

/// What the loop asks its driver to do next.
#[derive(Debug, PartialEq, Eq)]
pub enum WatchAction {
    /// Ask the player what it is playing.
    Observe,
    /// Ask the library whether this track is saved.
    CheckSaved(TrackRef),
    /// Report that the saved state is now this.
    Report(bool),
    /// Rest for this many seconds, then start the next tick.
    Sleep(u64),
}

pub enum WatchActionView {
    Observe,
    CheckSaved(Seq<char>),
    Report(bool),
    Sleep(u64),
}

impl View for WatchAction {
    type V = WatchActionView;

    open spec fn view(&self) -> WatchActionView {
        match *self {
            WatchAction::Observe => WatchActionView::Observe,
            WatchAction::CheckSaved(track) => WatchActionView::CheckSaved(track@),
            WatchAction::Report(saved) => WatchActionView::Report(saved),
            WatchAction::Sleep(seconds) => WatchActionView::Sleep(seconds),
        }
    }
}

/// What a loop remembers that has seen nothing yet.
pub open spec fn unseen() -> WatchStateView {
    WatchStateView { last_track: None, last_saved: false, last_reported: None }
}

/// The loop rests, with nothing more recorded.
pub open spec fn rest(state: WatchStateView) -> (WatcherView, WatchActionView) {
    (WatcherView { state, phase: WatchPhaseView::Resting }, WatchActionView::Sleep(WATCH_INTERVAL_SECS))
}

/// The end of a tick's bookkeeping: a saved state that differs from the one
/// last reported is handed out and remembered as reported; otherwise the
/// loop rests.
pub open spec fn conclude(state: WatchStateView) -> (WatcherView, WatchActionView) {
    if state.last_reported != Some(state.last_saved) {
        (
            WatcherView {
                state: WatchStateView { last_reported: Some(state.last_saved), ..state },
                phase: WatchPhaseView::Reporting,
            },
            WatchActionView::Report(state.last_saved),
        )
    } else {
        rest(state)
    }
}

/// What an observation does to the loop.
pub open spec fn observe(state: WatchStateView, observation: ObservationView) -> (
    WatcherView,
    WatchActionView,
) {
    match observation {
        ObservationView::Track(track) => {
            if state.last_track == Some(track) {
                conclude(state)
            } else {
                (
                    WatcherView { state, phase: WatchPhaseView::Checking(track) },
                    WatchActionView::CheckSaved(track),
                )
            }
        },
        ObservationView::Unidentified => conclude(
            WatchStateView { last_track: None, last_saved: false, ..state },
        ),
        ObservationView::Nothing | ObservationView::Episode(_) => conclude(state),
    }
}

/// One step of the watch loop.
pub open spec fn watch_step(watcher: WatcherView, event: WatchEventView) -> (
    WatcherView,
    WatchActionView,
) {
    match (watcher.phase, event) {
        (WatchPhaseView::Resting, WatchEventView::Woke) => (
            WatcherView { state: watcher.state, phase: WatchPhaseView::Observing },
            WatchActionView::Observe,
        ),
        (WatchPhaseView::Observing, WatchEventView::Observed(observation)) => observe(
            watcher.state,
            observation,
        ),
        (WatchPhaseView::Checking(track), WatchEventView::SavedIs(saved)) => conclude(
            WatchStateView { last_track: Some(track), last_saved: saved, ..watcher.state },
        ),
        _ => rest(watcher.state),
    }
}

impl WatchState {
    /// The state of a loop that has seen nothing yet.
    pub fn new() -> (state: WatchState)
        ensures
            state@ == unseen(),
    {
        WatchState { last_track: None, last_saved: false, last_reported: None }
    }

    /// Whether the saved state of `track` is the one remembered.
    pub fn follows(&self, track: &TrackRef) -> (known: bool)
        ensures
            known == (self@.last_track == Some(track@)),
    {
        match &self.last_track {
            Some(last) => *last == *track,
            None => false,
        }
    }
}

impl Watcher {
    /// A loop that has seen nothing yet and waits to be woken.
    pub fn new() -> (watcher: Watcher)
        ensures
            watcher@ == (WatcherView { state: unseen(), phase: WatchPhaseView::Resting }),
    {
        Watcher { state: WatchState::new(), phase: WatchPhase::Resting }
    }
}

fn resting(state: WatchState) -> (next: (Watcher, WatchAction))
    ensures
        (next.0@, next.1@) == rest(state@),
{
    (Watcher { state, phase: WatchPhase::Resting }, WatchAction::Sleep(WATCH_INTERVAL_SECS))
}

fn concluding(state: WatchState) -> (next: (Watcher, WatchAction))
    ensures
        (next.0@, next.1@) == conclude(state@),
{
    let due = match state.last_reported {
        Some(reported) => reported != state.last_saved,
        None => true,
    };
    if due {
        let saved = state.last_saved;
        let state = WatchState {
            last_track: state.last_track,
            last_saved: saved,
            last_reported: Some(saved),
        };
        (Watcher { state, phase: WatchPhase::Reporting }, WatchAction::Report(saved))
    } else {
        resting(state)
    }
}

fn observing(state: WatchState, observation: PlaybackObservation) -> (next: (Watcher, WatchAction))
    ensures
        (next.0@, next.1@) == observe(state@, observation@),
{
    match observation {
        PlaybackObservation::Track(track) => {
            if state.follows(&track) {
                concluding(state)
            } else {
                let asked = track.clone();
                (Watcher { state, phase: WatchPhase::Checking(track) }, WatchAction::CheckSaved(asked))
            }
        },
        PlaybackObservation::Unidentified => concluding(
            WatchState { last_track: None, last_saved: false, last_reported: state.last_reported },
        ),
        PlaybackObservation::Nothing => concluding(state),
        PlaybackObservation::Episode(_) => concluding(state),
    }
}

/// Takes the watch loop one step on: records what `event` tells and says
/// what is to be done next.
pub fn poll(watcher: Watcher, event: WatchEvent) -> (next: (Watcher, WatchAction))
    ensures
        (next.0@, next.1@) == watch_step(watcher@, event@),
{
    let Watcher { state, phase } = watcher;
    match phase {
        WatchPhase::Resting => match event {
            WatchEvent::Woke => (Watcher { state, phase: WatchPhase::Observing }, WatchAction::Observe),
            _ => resting(state),
        },
        WatchPhase::Observing => match event {
            WatchEvent::Observed(observation) => observing(state, observation),
            _ => resting(state),
        },
        WatchPhase::Checking(track) => match event {
            WatchEvent::SavedIs(saved) => concluding(
                WatchState {
                    last_track: Some(track),
                    last_saved: saved,
                    last_reported: state.last_reported,
                },
            ),
            _ => resting(state),
        },
        WatchPhase::Reporting => resting(state),
    }
}

/// How often the loop asks whether a track is saved while it takes `events`
/// in turn.
pub open spec fn checks_issued(watcher: WatcherView, events: Seq<WatchEventView>) -> nat
    decreases events.len(),
{
    if events.len() == 0 {
        0
    } else {
        let (next, action) = watch_step(watcher, events.first());
        let asked: nat = if action is CheckSaved { 1 } else { 0 };
        asked + checks_issued(next, events.drop_first())
    }
}

/// While the loop takes `events` in turn, every question whether a track is
/// saved is followed by its answer.
pub open spec fn checks_answered(watcher: WatcherView, events: Seq<WatchEventView>) -> bool
    decreases events.len(),
{
    events.len() == 0 || {
        &&& watcher.phase is Checking ==> events.first() is SavedIs
        &&& checks_answered(watch_step(watcher, events.first()).0, events.drop_first())
    }
}

/// Whatever `events` show of the player, it is `track`, an episode or
/// silence: never another track, and never a track without an id.
pub open spec fn plays_only(events: Seq<WatchEventView>, track: Seq<char>) -> bool {
    forall|i: int|
        0 <= i < events.len() ==> match #[trigger] events[i] {
            WatchEventView::Observed(ObservationView::Track(other)) => other == track,
            WatchEventView::Observed(ObservationView::Unidentified) => false,
            _ => true,
        }
}

/// The loop knows the saved state of `track`, or is about to learn it.
pub open spec fn settled_on(watcher: WatcherView, track: Seq<char>) -> bool {
    match watcher.phase {
        WatchPhaseView::Checking(asked) => asked == track,
        _ => watcher.state.last_track == Some(track),
    }
}

/// While one and the same track is observed, tick after tick and through
/// pauses, the loop asks at most once whether it is saved, and not at all
/// if it knows the track already. This holds of every run in which the
/// questions asked are answered; a question that fails leaves the track
/// unknown, and is asked again on the next tick.
pub proof fn lemma_same_track_checked_once(
    watcher: WatcherView,
    track: Seq<char>,
    events: Seq<WatchEventView>,
)
    requires
        plays_only(events, track),
        checks_answered(watcher, events),
    ensures
        checks_issued(watcher, events) <= 1,
        settled_on(watcher, track) ==> checks_issued(watcher, events) == 0,
    decreases events.len(),
{
    if events.len() > 0 {
        let first = events.first();
        let later = events.drop_first();
        let (next, action) = watch_step(watcher, first);
        assert(first == events[0]);
        assert(plays_only(later, track)) by {
            assert forall|i: int| 0 <= i < later.len() implies match #[trigger] later[i] {
                WatchEventView::Observed(ObservationView::Track(other)) => other == track,
                WatchEventView::Observed(ObservationView::Unidentified) => false,
                _ => true,
            } by {
                assert(later[i] == events[i + 1]);
            }
        }
        lemma_same_track_checked_once(next, track, later);
        assert(settled_on(watcher, track) ==> settled_on(next, track));
        assert(action is CheckSaved ==> !settled_on(watcher, track) && settled_on(next, track));
    }
}

} // verus!
