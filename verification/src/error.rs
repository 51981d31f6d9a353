//! What a call into the library can fail with.

use crate::text::{decimal, spec_decimal};
use vstd::prelude::*;
use vstd::string::*;

verus! {

/// Why an argument was turned away at the API boundary.
#[derive(Clone, Copy, Debug, PartialEq, Eq, Structural)]
pub enum InvalidReason {
    /// The duration of a timeline was below zero.
    NegativeDuration,
    /// The position of a timeline was below zero.
    NegativePosition,
    /// The position of a timeline lay behind its end.
    PositionBeyondDuration,
    /// The playback status was `Unknown`, or a number that names no status.
    UnknownPlaybackStatus,
    /// The media type was `Unknown`, or a number that names no media type.
    UnknownMediaType,
    /// A thumbnail was to be made of the kind `Unknown`.
    UnknownThumbnailType,
    /// The thumbnail is of a kind that the platform cannot show; the number
    /// is the one that the host gave for the kind.
    UnsupportedThumbnailType(i32),
}

/// The errors of the library. None of them is fatal: the session stays usable
/// after each.
#[derive(Debug, PartialEq, Eq)]
pub enum MediaError {
    /// An argument was turned away before anything was changed or published.
    InvalidArgument(InvalidReason),
    /// The platform's media-session facility reported a failure; the text is
    /// the platform's own.
    PlatformError(String),
    /// The bus name of the session belongs to another owner.
    NameTaken,
    /// A request to the session's background pump was not answered in time.
    Timeout,
}

/// An error answered to a remote caller of the session's bus interface.
#[derive(Debug, PartialEq, Eq)]
pub enum MethodError {
    /// The call failed; the text says why.
    Failed(String),
    /// The property asked for does not exist on this player.
    NoProperty(String),
}

impl InvalidReason {
    /// The text shown to the host for this reason.
    pub open spec fn spec_message(self) -> Seq<char> {
        match self {
            InvalidReason::NegativeDuration => "Duration cannot be less than 0"@,
            InvalidReason::NegativePosition => "Position cannot be less than 0"@,
            InvalidReason::PositionBeyondDuration =>
                "Position cannot be greather than provided duration"@,
            InvalidReason::UnknownPlaybackStatus =>
                "Unknown is not a valid MediaPlayerPlaybackStatus to set"@,
            InvalidReason::UnknownMediaType => "Unknown is not a valid MediaPlayerMediaType to set"@,
            InvalidReason::UnknownThumbnailType =>
                "Unknown is not a valid MediaPlayerThumbnailType to create"@,
            InvalidReason::UnsupportedThumbnailType(kind) =>
                "Thumbnail type is not supported on this operating system: "@ + spec_decimal(
                    kind as int,
                ),
        }
    }

    pub fn message(self) -> (text: String)
        ensures
            text@ == self.spec_message(),
    {
        match self {
            InvalidReason::NegativeDuration => "Duration cannot be less than 0".to_owned(),
            InvalidReason::NegativePosition => "Position cannot be less than 0".to_owned(),
            InvalidReason::PositionBeyondDuration =>
                "Position cannot be greather than provided duration".to_owned(),
            InvalidReason::UnknownPlaybackStatus =>
                "Unknown is not a valid MediaPlayerPlaybackStatus to set".to_owned(),
            InvalidReason::UnknownMediaType =>
                "Unknown is not a valid MediaPlayerMediaType to set".to_owned(),
            InvalidReason::UnknownThumbnailType =>
                "Unknown is not a valid MediaPlayerThumbnailType to create".to_owned(),
            InvalidReason::UnsupportedThumbnailType(kind) => {
                let mut text =
                    "Thumbnail type is not supported on this operating system: ".to_owned();
                let number = decimal(kind);
                text.append(number.as_str());
                text
            },
        }
    }
}

impl MediaError {
    /// The text shown to the host for this error.
    pub open spec fn spec_message(self) -> Seq<char> {
        match self {
            MediaError::InvalidArgument(reason) => reason.spec_message(),
            MediaError::PlatformError(text) => text@,
            MediaError::NameTaken => "Could not obtain service name on D-Bus"@,
            MediaError::Timeout => "The media session did not answer in time"@,
        }
    }

    pub fn message(&self) -> (text: String)
        ensures
            text@ == self.spec_message(),
    {
        match self {
            MediaError::InvalidArgument(reason) => reason.message(),
            MediaError::PlatformError(text) => text.clone(),
            MediaError::NameTaken => "Could not obtain service name on D-Bus".to_owned(),
            MediaError::Timeout => "The media session did not answer in time".to_owned(),
        }
    }
}

impl Clone for MediaError {
    fn clone(&self) -> (copy: Self)
        ensures
            copy == *self,
    {
        match self {
            MediaError::InvalidArgument(reason) => MediaError::InvalidArgument(*reason),
            MediaError::PlatformError(text) => MediaError::PlatformError(text.clone()),
            MediaError::NameTaken => MediaError::NameTaken,
            MediaError::Timeout => MediaError::Timeout,
        }
    }
}

impl Clone for MethodError {
    fn clone(&self) -> (copy: Self)
        ensures
            copy == *self,
    {
        match self {
            MethodError::Failed(text) => MethodError::Failed(text.clone()),
            MethodError::NoProperty(text) => MethodError::NoProperty(text.clone()),
        }
    }
}

impl MethodError {
    /// The text carried by the error.
    pub open spec fn spec_message(self) -> Seq<char> {
        match self {
            MethodError::Failed(text) => text@,
            MethodError::NoProperty(text) => text@,
        }
    }

    pub fn message(&self) -> (text: String)
        ensures
            text@ == self.spec_message(),
    {
        match self {
            MethodError::Failed(text) => text.clone(),
            MethodError::NoProperty(text) => text.clone(),
        }
    }
}

} // verus!
