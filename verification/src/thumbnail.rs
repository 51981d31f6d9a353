//! The thumbnail of a track: a reference to an image, tagged with how it was
//! given. A thumbnail is not changed after it was made; to show another
//! image, another thumbnail is made.

use crate::error::{InvalidReason, MediaError};
use crate::kinds::MediaPlayerThumbnailType;
use crate::text::{file_url, spec_file_url};
use vstd::prelude::*;
use vstd::string::*;

verus! {

/// A reference to the artwork of a track. Its kind is `File` or `Uri`.
#[derive(Debug, PartialEq, Eq)]
pub struct MediaPlayerThumbnail {
    thumbnail_type: MediaPlayerThumbnailType,
    thumbnail: String,
}

impl MediaPlayerThumbnail {
    #[verifier::type_invariant]
    spec fn kind_is_known(self) -> bool {
        self.thumbnail_type != MediaPlayerThumbnailType::Unknown
    }

    /// How the thumbnail was given.
    pub closed spec fn kind(&self) -> MediaPlayerThumbnailType {
        self.thumbnail_type
    }

    /// The address under which the image is published.
    pub closed spec fn address(&self) -> Seq<char> {
        self.thumbnail@
    }

    /// Makes a thumbnail from a file path or from an address. A file path
    /// becomes a `file://` address; an address stays as it is; the kind
    /// `Unknown` is turned away.
    pub fn create(thumbnail_type: MediaPlayerThumbnailType, thumbnail: String) -> (made: Result<
        MediaPlayerThumbnail,
        MediaError,
    >)
        ensures
            match thumbnail_type {
                MediaPlayerThumbnailType::File => made matches Ok(t) && t.kind() == thumbnail_type
                    && t.address() == spec_file_url(thumbnail@),
                MediaPlayerThumbnailType::Uri => made matches Ok(t) && t.kind() == thumbnail_type
                    && t.address() == thumbnail@,
                MediaPlayerThumbnailType::Unknown => made == Err::<MediaPlayerThumbnail, MediaError>(
                    MediaError::InvalidArgument(InvalidReason::UnknownThumbnailType),
                ),
            },
    {
        match thumbnail_type {
            MediaPlayerThumbnailType::File => Ok(
                MediaPlayerThumbnail { thumbnail_type, thumbnail: file_url(thumbnail.as_str()) },
            ),
            MediaPlayerThumbnailType::Uri => Ok(MediaPlayerThumbnail { thumbnail_type, thumbnail }),
            MediaPlayerThumbnailType::Unknown => Err(
                MediaError::InvalidArgument(InvalidReason::UnknownThumbnailType),
            ),
        }
    }

    /// How the thumbnail was given, which is never `Unknown`.
    pub fn thumbnail_type(&self) -> (kind: MediaPlayerThumbnailType)
        ensures
            kind == self.kind(),
            kind != MediaPlayerThumbnailType::Unknown,
    {
        proof {
            use_type_invariant(self);
        }
        self.thumbnail_type
    }

    /// The address under which the image is published.
    pub fn thumbnail(&self) -> (address: &str)
        ensures
            address@ == self.address(),
    {
        self.thumbnail.as_str()
    }
}

} // verus!
