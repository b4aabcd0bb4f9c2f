//! The ways in which a run can end without its result.

use vstd::prelude::*;
use vstd::string::StringExecFns;

verus! {

/// Why a run ended without its result.
#[derive(Debug, PartialEq, Eq)]
pub enum Fault {
    /// No client credentials were found, neither in the environment nor in
    /// the configuration file.
    ConfigMissing,
    /// The address pasted back after authorizing carries no code, or not the
    /// state that was sent out.
    AuthStateMismatch,
    /// The authorization code could not be exchanged for a token.
    TokenExchangeFailed,
    /// The service refused the stored credential when asked to renew it.
    TokenRefreshRejected,
    /// The token could not be renewed for a passing reason.
    TokenRefreshTransient,
    /// Nothing is playing.
    NothingPlaying,
    /// An episode is playing, not a track; it carries the episode's name.
    EpisodePlaying(String),
    /// The remote service could not be reached or refused to answer.
    RemoteUnavailable,
    /// The track that is playing has no id by which it could be saved.
    TrackWithoutId,
    /// The address at which access is granted could not be formed.
    AuthorizeUrlUnavailable,
}

pub enum FaultView {
    ConfigMissing,
    AuthStateMismatch,
    TokenExchangeFailed,
    TokenRefreshRejected,
    TokenRefreshTransient,
    NothingPlaying,
    EpisodePlaying(Seq<char>),
    RemoteUnavailable,
    TrackWithoutId,
    AuthorizeUrlUnavailable,
}

impl View for Fault {
    type V = FaultView;

    open spec fn view(&self) -> FaultView {
        match *self {
            Fault::ConfigMissing => FaultView::ConfigMissing,
            Fault::AuthStateMismatch => FaultView::AuthStateMismatch,
            Fault::TokenExchangeFailed => FaultView::TokenExchangeFailed,
            Fault::TokenRefreshRejected => FaultView::TokenRefreshRejected,
            Fault::TokenRefreshTransient => FaultView::TokenRefreshTransient,
            Fault::NothingPlaying => FaultView::NothingPlaying,
            Fault::EpisodePlaying(name) => FaultView::EpisodePlaying(name@),
            Fault::RemoteUnavailable => FaultView::RemoteUnavailable,
            Fault::TrackWithoutId => FaultView::TrackWithoutId,
            Fault::AuthorizeUrlUnavailable => FaultView::AuthorizeUrlUnavailable,
        }
    }
}

/// The message that tells a person of the fault.
pub open spec fn description(fault: FaultView) -> Seq<char> {
    match fault {
        FaultView::ConfigMissing => "Config file not found"@,
        FaultView::AuthStateMismatch => "The address pasted carries no code for the state sent."@,
        FaultView::TokenExchangeFailed => "The code could not be exchanged for a token."@,
        FaultView::TokenRefreshRejected => "The stored token was refused."@,
        FaultView::TokenRefreshTransient => "The token could not be renewed."@,
        FaultView::NothingPlaying => "Nothing is currently playing."@,
        FaultView::EpisodePlaying(name) => "no track is playing: an episode is: "@ + name,
        FaultView::RemoteUnavailable => "The service could not be reached."@,
        FaultView::TrackWithoutId => "Failed to get track id"@,
        FaultView::AuthorizeUrlUnavailable => "The address for authorizing could not be formed."@,
    }
}

impl Fault {
    /// The message that tells a person of this fault.
    pub fn describe(&self) -> (message: String)
        ensures
            message@ == description(self@),
    {
        match self {
            Fault::ConfigMissing => String::from_str("Config file not found"),
            Fault::AuthStateMismatch => String::from_str(
                "The address pasted carries no code for the state sent.",
            ),
            Fault::TokenExchangeFailed => String::from_str(
                "The code could not be exchanged for a token.",
            ),
            Fault::TokenRefreshRejected => String::from_str("The stored token was refused."),
            Fault::TokenRefreshTransient => String::from_str("The token could not be renewed."),
            Fault::NothingPlaying => String::from_str("Nothing is currently playing."),
            Fault::EpisodePlaying(name) => String::from_str(
                "no track is playing: an episode is: ",
            ).concat(name.as_str()),
            Fault::RemoteUnavailable => String::from_str("The service could not be reached."),
            Fault::TrackWithoutId => String::from_str("Failed to get track id"),
            Fault::AuthorizeUrlUnavailable => String::from_str(
                "The address for authorizing could not be formed.",
            ),
        }
    }
}

/// The status with which a one-shot run that ended in `outcome` leaves: 0
/// with a result, 1 with a fault.
pub fn exit_code(outcome: &Result<bool, Fault>) -> (status: u8)
    ensures
        status == (if *outcome is Ok { 0u8 } else { 1u8 }),
{
    match outcome {
        Ok(_) => 0,
        Err(_) => 1,
    }
}

} // verus!
