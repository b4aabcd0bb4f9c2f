//! The toggle: saves the track that is playing if it is not saved, and
//! removes it from the saved tracks if it is.
//!
//! [`toggle`] starts the engine on a given track, [`begin`] starts a one-shot
//! run that first asks the player what it is playing, and [`do_toggle`] takes
//! either through its steps: it is handed what happened and says what to do
//! next, or how the run ended. The engine asks once whether the track is
//! saved and then issues the one change that flips that answer. Nothing
//! shields the question and the change from another run on the same account:
//! of two runs that interleave, the one that writes last wins.

use vstd::prelude::*;
use crate::fault::{Fault, FaultView};
use crate::playback::{ObservationView, PlaybackObservation, TrackRef};

verus! {

/// The answer that a run is waiting for.
#[derive(Debug, PartialEq, Eq)]
pub enum TogglePhase {
    /// The player was asked what it is playing.
    Observing,
    /// The library was asked whether this track is saved.
    Checking(TrackRef),
    /// The library was asked for the change after which the track's saved
    /// state is this.
    Changing(bool),
}

pub enum TogglePhaseView {
    Observing,
    Checking(Seq<char>),
    Changing(bool),
}

impl View for TogglePhase {
    type V = TogglePhaseView;

    open spec fn view(&self) -> TogglePhaseView {
        match *self {
            TogglePhase::Observing => TogglePhaseView::Observing,
            TogglePhase::Checking(track) => TogglePhaseView::Checking(track@),
            TogglePhase::Changing(saved) => TogglePhaseView::Changing(saved),
        }
    }
}

/// What can happen to a run.
#[derive(Debug, PartialEq, Eq)]
pub enum ToggleEvent {
    /// The player answered what it is playing.
    Observed(PlaybackObservation),
    /// The library answered whether the track asked about is saved.
    SavedIs(bool),
    /// The library made the change it was asked for.
    Changed,
    /// The remote service could not be reached or refused to answer.
    RemoteUnavailable,
}

pub enum ToggleEventView {
    Observed(ObservationView),
    SavedIs(bool),
    Changed,
    RemoteUnavailable,
}

impl View for ToggleEvent {
    type V = ToggleEventView;

    open spec fn view(&self) -> ToggleEventView {
        match *self {
            ToggleEvent::Observed(observation) => ToggleEventView::Observed(observation@),
            ToggleEvent::SavedIs(saved) => ToggleEventView::SavedIs(saved),
            ToggleEvent::Changed => ToggleEventView::Changed,
            ToggleEvent::RemoteUnavailable => ToggleEventView::RemoteUnavailable,
        }
    }
}

/// What a run asks its driver to do next.
#[derive(Debug, PartialEq, Eq)]
pub enum ToggleAction {
    /// Ask the player what it is playing.
    Observe,
    /// Ask the library whether this track is saved.
    CheckSaved(TrackRef),
    /// Add this track to the saved tracks.
    Add(TrackRef),
    /// Remove this track from the saved tracks.
    Remove(TrackRef),
}

pub enum ToggleActionView {
    Observe,
    CheckSaved(Seq<char>),
    Add(Seq<char>),
    Remove(Seq<char>),
}

impl View for ToggleAction {
    type V = ToggleActionView;

    open spec fn view(&self) -> ToggleActionView {
        match *self {
            ToggleAction::Observe => ToggleActionView::Observe,
            ToggleAction::CheckSaved(track) => ToggleActionView::CheckSaved(track@),
            ToggleAction::Add(track) => ToggleActionView::Add(track@),
            ToggleAction::Remove(track) => ToggleActionView::Remove(track@),
        }
    }
}

/// How a step leaves a run: waiting for the answer to an action, or ended
/// with the track's new saved state or with a fault.
#[derive(Debug, PartialEq, Eq)]
pub enum ToggleStep {
    Next(TogglePhase, ToggleAction),
    Done(Result<bool, Fault>),
}

pub enum ToggleStepView {
    Next(TogglePhaseView, ToggleActionView),
    Done(Result<bool, FaultView>),
}

impl View for ToggleStep {
    type V = ToggleStepView;

    open spec fn view(&self) -> ToggleStepView {
        match *self {
            ToggleStep::Next(phase, action) => ToggleStepView::Next(phase@, action@),
            ToggleStep::Done(Ok(saved)) => ToggleStepView::Done(Ok(saved)),
            ToggleStep::Done(Err(fault)) => ToggleStepView::Done(Err(fault@)),
        }
    }
}

/// The engine's first step on `track`: it asks whether the track is saved.
pub open spec fn toggle_start(track: Seq<char>) -> (TogglePhaseView, ToggleActionView) {
    (TogglePhaseView::Checking(track), ToggleActionView::CheckSaved(track))
}

/// One step of a run. A track that is saved is removed and one that is not
/// is added; the run ends with the new saved state once the change is made.
/// Without a track with an id there is nothing to toggle, and the run ends
/// with the fault that says what is playing instead. An event that does not
/// answer the pending action ends the run as the remote's failure.
pub open spec fn toggle_step(phase: TogglePhaseView, event: ToggleEventView) -> ToggleStepView {
    match (phase, event) {
        (TogglePhaseView::Observing, ToggleEventView::Observed(observation)) => match observation {
            ObservationView::Track(track) => ToggleStepView::Next(
                toggle_start(track).0,
                toggle_start(track).1,
            ),
            ObservationView::Nothing => ToggleStepView::Done(Err(FaultView::NothingPlaying)),
            ObservationView::Episode(name) => ToggleStepView::Done(
                Err(FaultView::EpisodePlaying(name)),
            ),
            ObservationView::Unidentified => ToggleStepView::Done(Err(FaultView::TrackWithoutId)),
        },
        (TogglePhaseView::Checking(track), ToggleEventView::SavedIs(saved)) => ToggleStepView::Next(
            TogglePhaseView::Changing(!saved),
            if saved {
                ToggleActionView::Remove(track)
            } else {
                ToggleActionView::Add(track)
            },
        ),
        (TogglePhaseView::Changing(saved), ToggleEventView::Changed) => ToggleStepView::Done(
            Ok(saved),
        ),
        _ => ToggleStepView::Done(Err(FaultView::RemoteUnavailable)),
    }
}

/// Starts a one-shot run: the player is asked what it is playing.
pub fn begin() -> (first: (TogglePhase, ToggleAction))
    ensures
        first.0@ == TogglePhaseView::Observing,
        first.1@ == ToggleActionView::Observe,
{
    (TogglePhase::Observing, ToggleAction::Observe)
}

/// Starts the engine on `track`: the library is asked whether it is saved.
pub fn toggle(track: TrackRef) -> (first: (TogglePhase, ToggleAction))
    ensures
        (first.0@, first.1@) == toggle_start(track@),
{
    let asked = track.clone();
    (TogglePhase::Checking(track), ToggleAction::CheckSaved(asked))
}

/// Takes a run one step on: given the answer to the action that was
/// pending, says what is to be done next or how the run ended.
pub fn do_toggle(phase: TogglePhase, event: ToggleEvent) -> (step: ToggleStep)
    ensures
        step@ == toggle_step(phase@, event@),
{
    match phase {
        TogglePhase::Observing => match event {
            ToggleEvent::Observed(observation) => match observation {
                PlaybackObservation::Track(track) => {
                    let (phase, action) = toggle(track);
                    ToggleStep::Next(phase, action)
                },
                PlaybackObservation::Nothing => ToggleStep::Done(Err(Fault::NothingPlaying)),
                PlaybackObservation::Episode(name) => ToggleStep::Done(
                    Err(Fault::EpisodePlaying(name)),
                ),
                PlaybackObservation::Unidentified => ToggleStep::Done(Err(Fault::TrackWithoutId)),
            },
            _ => ToggleStep::Done(Err(Fault::RemoteUnavailable)),
        },
        TogglePhase::Checking(track) => match event {
            ToggleEvent::SavedIs(saved) => {
                if saved {
                    ToggleStep::Next(TogglePhase::Changing(false), ToggleAction::Remove(track))
                } else {
                    ToggleStep::Next(TogglePhase::Changing(true), ToggleAction::Add(track))
                }
            },
            _ => ToggleStep::Done(Err(Fault::RemoteUnavailable)),
        },
        TogglePhase::Changing(saved) => match event {
            ToggleEvent::Changed => ToggleStep::Done(Ok(saved)),
            _ => ToggleStep::Done(Err(Fault::RemoteUnavailable)),
        },
    }
}

/// The saved tracks after the library has done what `action` asks.
pub open spec fn library_after(saved: Set<Seq<char>>, action: ToggleActionView) -> Set<Seq<char>> {
    match action {
        ToggleActionView::Add(track) => saved.insert(track),
        ToggleActionView::Remove(track) => saved.remove(track),
        _ => saved,
    }
}

/// The engine run to its end on `track` against a library that holds
/// `saved`, answers truly and is touched by nobody else: the saved tracks
/// afterwards, and how the run ended.
pub open spec fn toggled(saved: Set<Seq<char>>, track: Seq<char>) -> (
    Set<Seq<char>>,
    Result<bool, FaultView>,
) {
    let asked = toggle_start(track);
    match toggle_step(asked.0, ToggleEventView::SavedIs(saved.contains(track))) {
        ToggleStepView::Next(phase, action) => match toggle_step(phase, ToggleEventView::Changed) {
            ToggleStepView::Done(outcome) => (library_after(saved, action), outcome),
            ToggleStepView::Next(_, _) => (library_after(saved, action), Err(FaultView::RemoteUnavailable)),
        },
        ToggleStepView::Done(outcome) => (saved, outcome),
    }
}

/// One toggle flips the saved state of its track, leaves every other track
/// as it was, and returns the new state.
pub proof fn lemma_toggle_flips(saved: Set<Seq<char>>, track: Seq<char>)
    ensures
        toggled(saved, track).1 == Ok::<bool, FaultView>(!saved.contains(track)),
        toggled(saved, track).0.contains(track) == !saved.contains(track),
        forall|other: Seq<char>|
            other != track ==> toggled(saved, track).0.contains(other) == saved.contains(other),
{
}

/// Two toggles of one track in a row, with nobody else touching the library:
/// they return opposite states, and the saved tracks end as they began.
pub proof fn lemma_toggle_twice_restores(saved: Set<Seq<char>>, track: Seq<char>)
    ensures
        ({
            let once = toggled(saved, track);
            let twice = toggled(once.0, track);
            &&& once.1 == Ok::<bool, FaultView>(!saved.contains(track))
            &&& twice.1 == Ok::<bool, FaultView>(saved.contains(track))
            &&& twice.0 == saved
        }),
{
    let once = toggled(saved, track);
    let twice = toggled(once.0, track);
    assert(twice.0 =~= saved);
}

} // verus!
