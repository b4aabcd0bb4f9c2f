use std::collections::BTreeSet;

use spotifav::fault::{exit_code, Fault};
use spotifav::playback::{PlaybackObservation, TrackRef};
use spotifav::toggle::{begin, do_toggle, toggle, ToggleAction, ToggleEvent, TogglePhase, ToggleStep};

fn track(id: &str) -> TrackRef {
    TrackRef::new(id.to_string())
}

/// Runs the engine on `id` against a library that holds `saved`.
fn run_toggle(saved: &mut BTreeSet<String>, id: &str) -> Result<bool, Fault> {
    let (mut phase, mut action) = toggle(track(id));
    loop {
        let event = match action {
            ToggleAction::CheckSaved(asked) => ToggleEvent::SavedIs(saved.contains(&asked.id)),
            ToggleAction::Add(added) => {
                saved.insert(added.id);
                ToggleEvent::Changed
            }
            ToggleAction::Remove(removed) => {
                saved.remove(&removed.id);
                ToggleEvent::Changed
            }
            ToggleAction::Observe => panic!("the engine is given its track"),
        };
        match do_toggle(phase, event) {
            ToggleStep::Next(next, then) => {
                phase = next;
                action = then;
            }
            ToggleStep::Done(outcome) => return outcome,
        }
    }
}

#[test]
fn one_shot_run_observes_first() {
    assert_eq!(begin(), (TogglePhase::Observing, ToggleAction::Observe));
}

#[test]
fn engine_checks_its_track_first() {
    assert_eq!(
        toggle(track("T1")),
        (TogglePhase::Checking(track("T1")), ToggleAction::CheckSaved(track("T1")))
    );
}

#[test]
fn unsaved_track_is_added_and_reported_saved() {
    let (phase, _) = begin();
    let step = do_toggle(phase, ToggleEvent::Observed(PlaybackObservation::Track(track("T1"))));
    assert_eq!(
        step,
        ToggleStep::Next(TogglePhase::Checking(track("T1")), ToggleAction::CheckSaved(track("T1")))
    );
    let step = do_toggle(TogglePhase::Checking(track("T1")), ToggleEvent::SavedIs(false));
    assert_eq!(step, ToggleStep::Next(TogglePhase::Changing(true), ToggleAction::Add(track("T1"))));
    let step = do_toggle(TogglePhase::Changing(true), ToggleEvent::Changed);
    assert_eq!(step, ToggleStep::Done(Ok(true)));
}

#[test]
fn saved_track_is_removed_and_reported_unsaved() {
    let step = do_toggle(TogglePhase::Checking(track("T1")), ToggleEvent::SavedIs(true));
    assert_eq!(
        step,
        ToggleStep::Next(TogglePhase::Changing(false), ToggleAction::Remove(track("T1")))
    );
    let step = do_toggle(TogglePhase::Changing(false), ToggleEvent::Changed);
    assert_eq!(step, ToggleStep::Done(Ok(false)));
}

#[test]
fn episode_ends_the_run_with_its_name() {
    let (phase, _) = begin();
    let step =
        do_toggle(phase, ToggleEvent::Observed(PlaybackObservation::Episode("Ep1".to_string())));
    assert_eq!(step, ToggleStep::Done(Err(Fault::EpisodePlaying("Ep1".to_string()))));
    let outcome = Err(Fault::EpisodePlaying("Ep1".to_string()));
    assert_ne!(exit_code(&outcome), 0);
}

#[test]
fn nothing_playing_ends_the_run() {
    let (phase, _) = begin();
    let step = do_toggle(phase, ToggleEvent::Observed(PlaybackObservation::Nothing));
    assert_eq!(step, ToggleStep::Done(Err(Fault::NothingPlaying)));
}

#[test]
fn track_without_id_ends_the_run() {
    let (phase, _) = begin();
    let step = do_toggle(phase, ToggleEvent::Observed(PlaybackObservation::Unidentified));
    assert_eq!(step, ToggleStep::Done(Err(Fault::TrackWithoutId)));
}

#[test]
fn unavailable_remote_ends_the_run_in_every_phase() {
    let failed = ToggleStep::Done(Err(Fault::RemoteUnavailable));
    assert_eq!(do_toggle(TogglePhase::Observing, ToggleEvent::RemoteUnavailable), failed);
    assert_eq!(
        do_toggle(TogglePhase::Checking(track("T1")), ToggleEvent::RemoteUnavailable),
        failed
    );
    assert_eq!(do_toggle(TogglePhase::Changing(true), ToggleEvent::RemoteUnavailable), failed);
}

#[test]
fn event_out_of_turn_ends_the_run() {
    let failed = ToggleStep::Done(Err(Fault::RemoteUnavailable));
    assert_eq!(do_toggle(TogglePhase::Observing, ToggleEvent::SavedIs(true)), failed);
    assert_eq!(do_toggle(TogglePhase::Checking(track("T1")), ToggleEvent::Changed), failed);
    assert_eq!(do_toggle(TogglePhase::Changing(false), ToggleEvent::SavedIs(false)), failed);
}

#[test]
fn two_toggles_return_opposite_states_and_restore_the_library() {
    let mut saved: BTreeSet<String> = BTreeSet::new();
    saved.insert("T0".to_string());
    let before = saved.clone();
    assert_eq!(run_toggle(&mut saved, "T1"), Ok(true));
    assert!(saved.contains("T1"));
    assert!(saved.contains("T0"));
    assert_eq!(run_toggle(&mut saved, "T1"), Ok(false));
    assert_eq!(saved, before);
    assert_eq!(run_toggle(&mut saved, "T0"), Ok(false));
    assert_eq!(run_toggle(&mut saved, "T0"), Ok(true));
    assert_eq!(saved, before);
}

#[test]
fn exit_code_is_zero_only_with_a_result() {
    assert_eq!(exit_code(&Ok(true)), 0);
    assert_eq!(exit_code(&Ok(false)), 0);
    assert_eq!(exit_code(&Err(Fault::NothingPlaying)), 1);
    assert_eq!(exit_code(&Err(Fault::RemoteUnavailable)), 1);
    assert_eq!(exit_code(&Err(Fault::ConfigMissing)), 1);
}

#[test]
fn faults_describe_themselves() {
    assert_eq!(Fault::NothingPlaying.describe(), "Nothing is currently playing.");
    assert_eq!(
        Fault::EpisodePlaying("Ep1".to_string()).describe(),
        "no track is playing: an episode is: Ep1"
    );
    assert_eq!(Fault::TrackWithoutId.describe(), "Failed to get track id");
    assert_eq!(Fault::ConfigMissing.describe(), "Config file not found");
    assert_eq!(
        Fault::AuthStateMismatch.describe(),
        "The address pasted carries no code for the state sent."
    );
    assert_eq!(
        Fault::TokenExchangeFailed.describe(),
        "The code could not be exchanged for a token."
    );
    assert_eq!(Fault::TokenRefreshRejected.describe(), "The stored token was refused.");
    assert_eq!(Fault::TokenRefreshTransient.describe(), "The token could not be renewed.");
    assert_eq!(Fault::RemoteUnavailable.describe(), "The service could not be reached.");
    assert_eq!(
        Fault::AuthorizeUrlUnavailable.describe(),
        "The address for authorizing could not be formed."
    );
}
