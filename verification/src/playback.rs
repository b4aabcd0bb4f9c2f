//! What the player can be observed to be doing.

use vstd::prelude::*;

verus! {

/// A playable track, identified by the id its provider gave it.
#[derive(Debug)]
pub struct TrackRef {
    pub id: String,
}

impl View for TrackRef {
    type V = Seq<char>;

    /// A track is its provider id.
    open spec fn view(&self) -> Seq<char> {
        self.id@
    }
}

impl TrackRef {
    pub fn new(id: String) -> (track: TrackRef)
        ensures
            track.id == id,
    {
        TrackRef { id }
    }
}

impl Clone for TrackRef {
    fn clone(&self) -> (copy: TrackRef)
        ensures
            copy == *self,
    {
        TrackRef { id: self.id.clone() }
    }
}

impl PartialEq for TrackRef {
    fn eq(&self, other: &TrackRef) -> (same: bool) {
        self.id == other.id
    }
}

impl Eq for TrackRef {}

impl vstd::std_specs::cmp::PartialEqSpecImpl for TrackRef {
    open spec fn obeys_eq_spec() -> bool {
        true
    }

    /// Two tracks are the same track exactly when their ids are equal.
    open spec fn eq_spec(&self, other: &TrackRef) -> bool {
        self@ == other@
    }
}

/// The result of asking the player once what it is playing.
#[derive(Debug, PartialEq, Eq)]
pub enum PlaybackObservation {
    /// Nothing is playing.
    Nothing,
    /// A track with a provider id is playing.
    Track(TrackRef),
    /// An episode is playing; it carries the episode's name.
    Episode(String),
    /// A track is playing that has no provider id, such as a local file.
    Unidentified,
}

/// What an observation says, with each id and name as plain text.
pub enum ObservationView {
    Nothing,
    Track(Seq<char>),
    Episode(Seq<char>),
    Unidentified,
}

impl View for PlaybackObservation {
    type V = ObservationView;

    open spec fn view(&self) -> ObservationView {
        match *self {
            PlaybackObservation::Nothing => ObservationView::Nothing,
            PlaybackObservation::Track(track) => ObservationView::Track(track@),
            PlaybackObservation::Episode(name) => ObservationView::Episode(name@),
            PlaybackObservation::Unidentified => ObservationView::Unidentified,
        }
    }
}

} // verus!
