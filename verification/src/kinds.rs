//! The enumerations shared by every part of the session: what kind of
//! thumbnail, what kind of media, and which playback status.

use vstd::prelude::*;

verus! {

/// How a thumbnail reference was given.
#[derive(Clone, Copy, Debug, PartialEq, Eq, Structural)]
pub enum MediaPlayerThumbnailType {
    Unknown,
    File,
    Uri,
}

/// The kind of media a session plays.
#[derive(Clone, Copy, Debug, PartialEq, Eq, Structural)]
pub enum MediaPlayerMediaType {
    Unknown,
    Music,
}

/// The playback status of a session.
#[derive(Clone, Copy, Debug, PartialEq, Eq, Structural)]
pub enum MediaPlayerPlaybackStatus {
    Unknown,
    Playing,
    Paused,
    Stopped,
}

impl MediaPlayerThumbnailType {
    /// The number under which the host sees this value.
    pub open spec fn spec_code(self) -> int {
        match self {
            MediaPlayerThumbnailType::Unknown => -1,
            MediaPlayerThumbnailType::File => 1,
            MediaPlayerThumbnailType::Uri => 2,
        }
    }

    /// The value that a host number stands for; every number without a
    /// meaning stands for `Unknown`.
    pub open spec fn spec_from_code(code: int) -> MediaPlayerThumbnailType {
        if code == 1 {
            MediaPlayerThumbnailType::File
        } else if code == 2 {
            MediaPlayerThumbnailType::Uri
        } else {
            MediaPlayerThumbnailType::Unknown
        }
    }

    pub fn code(self) -> (code: i32)
        ensures
            code == self.spec_code(),
    {
        match self {
            MediaPlayerThumbnailType::Unknown => -1,
            MediaPlayerThumbnailType::File => 1,
            MediaPlayerThumbnailType::Uri => 2,
        }
    }

    pub fn from_code(code: i32) -> (kind: MediaPlayerThumbnailType)
        ensures
            kind == Self::spec_from_code(code as int),
    {
        if code == 1 {
            MediaPlayerThumbnailType::File
        } else if code == 2 {
            MediaPlayerThumbnailType::Uri
        } else {
            MediaPlayerThumbnailType::Unknown
        }
    }
}

impl MediaPlayerMediaType {
    /// The number under which the host sees this value.
    pub open spec fn spec_code(self) -> int {
        match self {
            MediaPlayerMediaType::Unknown => -1,
            MediaPlayerMediaType::Music => 1,
        }
    }

    /// The value that a host number stands for; every number without a
    /// meaning stands for `Unknown`.
    pub open spec fn spec_from_code(code: int) -> MediaPlayerMediaType {
        if code == 1 {
            MediaPlayerMediaType::Music
        } else {
            MediaPlayerMediaType::Unknown
        }
    }

    pub fn code(self) -> (code: i32)
        ensures
            code == self.spec_code(),
    {
        match self {
            MediaPlayerMediaType::Unknown => -1,
            MediaPlayerMediaType::Music => 1,
        }
    }

    pub fn from_code(code: i32) -> (kind: MediaPlayerMediaType)
        ensures
            kind == Self::spec_from_code(code as int),
    {
        if code == 1 {
            MediaPlayerMediaType::Music
        } else {
            MediaPlayerMediaType::Unknown
        }
    }
}

impl MediaPlayerPlaybackStatus {
    /// The number under which the host sees this value.
    pub open spec fn spec_code(self) -> int {
        match self {
            MediaPlayerPlaybackStatus::Unknown => -1,
            MediaPlayerPlaybackStatus::Playing => 1,
            MediaPlayerPlaybackStatus::Paused => 2,
            MediaPlayerPlaybackStatus::Stopped => 3,
        }
    }

    /// The value that a host number stands for; every number without a
    /// meaning stands for `Unknown`.
    pub open spec fn spec_from_code(code: int) -> MediaPlayerPlaybackStatus {
        if code == 1 {
            MediaPlayerPlaybackStatus::Playing
        } else if code == 2 {
            MediaPlayerPlaybackStatus::Paused
        } else if code == 3 {
            MediaPlayerPlaybackStatus::Stopped
        } else {
            MediaPlayerPlaybackStatus::Unknown
        }
    }

    pub fn code(self) -> (code: i32)
        ensures
            code == self.spec_code(),
    {
        match self {
            MediaPlayerPlaybackStatus::Unknown => -1,
            MediaPlayerPlaybackStatus::Playing => 1,
            MediaPlayerPlaybackStatus::Paused => 2,
            MediaPlayerPlaybackStatus::Stopped => 3,
        }
    }

    pub fn from_code(code: i32) -> (status: MediaPlayerPlaybackStatus)
        ensures
            status == Self::spec_from_code(code as int),
    {
        if code == 1 {
            MediaPlayerPlaybackStatus::Playing
        } else if code == 2 {
            MediaPlayerPlaybackStatus::Paused
        } else if code == 3 {
            MediaPlayerPlaybackStatus::Stopped
        } else {
            MediaPlayerPlaybackStatus::Unknown
        }
    }
}

/// Every value is found again from its own number.
pub proof fn lemma_codes_round_trip(
    thumbnail: MediaPlayerThumbnailType,
    media: MediaPlayerMediaType,
    status: MediaPlayerPlaybackStatus,
)
    ensures
        MediaPlayerThumbnailType::spec_from_code(thumbnail.spec_code()) == thumbnail,
        MediaPlayerMediaType::spec_from_code(media.spec_code()) == media,
        MediaPlayerPlaybackStatus::spec_from_code(status.spec_code()) == status,
{
}

} // verus!
