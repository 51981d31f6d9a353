//! The canonical record of a session: what the host has said of the player
//! and the track, kept so that it can be published whole and read back at any
//! time.

use crate::clock;
use crate::error::{InvalidReason, MediaError};
use crate::kinds::{MediaPlayerMediaType, MediaPlayerPlaybackStatus};
use crate::publish::{Metadata, MetadataView};
use crate::text::{spec_track_path, track_path};
use crate::timeline::{
    distance, is_seek, seek_detected, timeline_fault, Timeline, MICROS_PER_SECOND,
};
use std::time::Instant;
use vstd::prelude::*;
use vstd::string::*;

verus! {

/// The state of one session. Times are in microseconds; the playback rate is
/// the microseconds of media played in one second, and the volume is in
/// millionths of full volume.
///
/// The position never lies outside the timeline: `0 <= position <= duration`
/// holds of every state.
pub struct MprisPlayerState {
    identity: String,
    can_go_next: bool,
    can_go_previous: bool,
    can_play: bool,
    can_pause: bool,
    can_seek: bool,
    can_control: bool,
    media_type: MediaPlayerMediaType,
    playback_status: MediaPlayerPlaybackStatus,
    thumbnail: String,
    artist: String,
    album_artist: String,
    album_title: String,
    title: String,
    track_id: String,
    timeline: Timeline,
    last_updated_position: Instant,
    volume: i64,
    playback_rate: i64,
}

/// The state as plain mathematical values, together with the moment at
/// which the position was last set.
pub struct StateView {
    pub identity: Seq<char>,
    pub can_go_next: bool,
    pub can_go_previous: bool,
    pub can_play: bool,
    pub can_pause: bool,
    pub can_seek: bool,
    pub can_control: bool,
    pub media_type: MediaPlayerMediaType,
    pub playback_status: MediaPlayerPlaybackStatus,
    pub thumbnail: Seq<char>,
    pub artist: Seq<char>,
    pub album_artist: Seq<char>,
    pub album_title: Seq<char>,
    pub title: Seq<char>,
    pub track_id: Seq<char>,
    pub position: int,
    pub last_updated_position: Instant,
    pub duration: int,
    pub volume: int,
    pub playback_rate: int,
}

/// The state of a session that was created for `identity` at the moment
/// `created`.
pub open spec fn initial_state(
    identity: Seq<char>,
    can_control: bool,
    created: Instant,
) -> StateView {
    StateView {
        identity: identity,
        can_go_next: false,
        can_go_previous: false,
        can_play: false,
        can_pause: false,
        can_seek: false,
        can_control: can_control,
        media_type: MediaPlayerMediaType::Unknown,
        playback_status: MediaPlayerPlaybackStatus::Unknown,
        thumbnail: Seq::empty(),
        artist: Seq::empty(),
        album_artist: Seq::empty(),
        album_title: Seq::empty(),
        title: Seq::empty(),
        track_id: Seq::empty(),
        position: 0,
        last_updated_position: created,
        duration: 0,
        volume: MICROS_PER_SECOND as int,
        playback_rate: MICROS_PER_SECOND as int,
    }
}

/// The metadata published for a state: every field of the composite, with
/// the duration of the track as its length.
pub open spec fn metadata_of(state: StateView) -> MetadataView {
    MetadataView {
        track_id: spec_track_path(state.track_id),
        length: state.duration,
        art_url: state.thumbnail,
        title: state.title,
        album: state.album_title,
        artist: state.artist,
        album_artist: state.album_artist,
    }
}

/// The state after a valid timeline was set at the moment `now`.
pub open spec fn with_timeline(
    state: StateView,
    duration: int,
    position: int,
    now: Instant,
) -> StateView {
    StateView { duration: duration, position: position, last_updated_position: now, ..state }
}

impl View for MprisPlayerState {
    type V = StateView;

    closed spec fn view(&self) -> StateView {
        StateView {
            identity: self.identity@,
            can_go_next: self.can_go_next,
            can_go_previous: self.can_go_previous,
            can_play: self.can_play,
            can_pause: self.can_pause,
            can_seek: self.can_seek,
            can_control: self.can_control,
            media_type: self.media_type,
            playback_status: self.playback_status,
            thumbnail: self.thumbnail@,
            artist: self.artist@,
            album_artist: self.album_artist@,
            album_title: self.album_title@,
            title: self.title@,
            track_id: self.track_id@,
            position: self.timeline.spec_position(),
            last_updated_position: self.last_updated_position,
            duration: self.timeline.spec_duration(),
            volume: self.volume as int,
            playback_rate: self.playback_rate as int,
        }
    }
}

impl MprisPlayerState {
    /// The state of a new session: nothing is enabled but, where the platform
    /// says so, control as a whole; nothing is known of the track; rate and
    /// volume are 1. The position counts as set at the moment of creation.
    pub fn new(identity: String, can_control: bool) -> (state: MprisPlayerState)
        ensures
            state@ == initial_state(identity@, can_control, state@.last_updated_position),
    {
        MprisPlayerState {
            identity,
            can_go_next: false,
            can_go_previous: false,
            can_play: false,
            can_pause: false,
            can_seek: false,
            can_control,
            media_type: MediaPlayerMediaType::Unknown,
            playback_status: MediaPlayerPlaybackStatus::Unknown,
            thumbnail: String::new(),
            artist: String::new(),
            album_artist: String::new(),
            album_title: String::new(),
            title: String::new(),
            track_id: String::new(),
            timeline: Timeline::empty(),
            last_updated_position: clock::now(),
            volume: MICROS_PER_SECOND,
            playback_rate: MICROS_PER_SECOND,
        }
    }

    /// The name under which the session is shown.
    pub fn identity(&self) -> (identity: &str)
        ensures
            identity@ == self@.identity,
    {
        self.identity.as_str()
    }

    /// Reads whether the system may ask for the next track.
    pub fn can_go_next(&self) -> (enabled: bool)
        ensures
            enabled == self@.can_go_next,
    {
        self.can_go_next
    }

    /// Sets whether the system may ask for the next track.
    pub fn set_can_go_next(&mut self, enabled: bool)
        ensures
            final(self)@ == (StateView { can_go_next: enabled, ..old(self)@ }),
    {
        self.can_go_next = enabled;
    }

    /// Reads whether the system may ask for the previous track.
    pub fn can_go_previous(&self) -> (enabled: bool)
        ensures
            enabled == self@.can_go_previous,
    {
        self.can_go_previous
    }

    /// Sets whether the system may ask for the previous track.
    pub fn set_can_go_previous(&mut self, enabled: bool)
        ensures
            final(self)@ == (StateView { can_go_previous: enabled, ..old(self)@ }),
    {
        self.can_go_previous = enabled;
    }

    /// Reads whether the system may ask to play.
    pub fn can_play(&self) -> (enabled: bool)
        ensures
            enabled == self@.can_play,
    {
        self.can_play
    }

    /// Sets whether the system may ask to play.
    pub fn set_can_play(&mut self, enabled: bool)
        ensures
            final(self)@ == (StateView { can_play: enabled, ..old(self)@ }),
    {
        self.can_play = enabled;
    }

    /// Reads whether the system may ask to pause.
    pub fn can_pause(&self) -> (enabled: bool)
        ensures
            enabled == self@.can_pause,
    {
        self.can_pause
    }

    /// Sets whether the system may ask to pause.
    pub fn set_can_pause(&mut self, enabled: bool)
        ensures
            final(self)@ == (StateView { can_pause: enabled, ..old(self)@ }),
    {
        self.can_pause = enabled;
    }

    /// Reads whether the system may ask to move the position.
    pub fn can_seek(&self) -> (enabled: bool)
        ensures
            enabled == self@.can_seek,
    {
        self.can_seek
    }

    /// Sets whether the system may ask to move the position.
    pub fn set_can_seek(&mut self, enabled: bool)
        ensures
            final(self)@ == (StateView { can_seek: enabled, ..old(self)@ }),
    {
        self.can_seek = enabled;
    }

    /// Reads whether the system may control the session at all.
    pub fn can_control(&self) -> (enabled: bool)
        ensures
            enabled == self@.can_control,
    {
        self.can_control
    }

    /// Sets whether the system may control the session at all.
    pub fn set_can_control(&mut self, enabled: bool)
        ensures
            final(self)@ == (StateView { can_control: enabled, ..old(self)@ }),
    {
        self.can_control = enabled;
    }

    /// Reads the address of the artwork.
    pub fn thumbnail(&self) -> (text: &str)
        ensures
            text@ == self@.thumbnail,
    {
        self.thumbnail.as_str()
    }

    /// Sets the address of the artwork.
    pub fn set_thumbnail(&mut self, thumbnail: String)
        ensures
            final(self)@ == (StateView { thumbnail: thumbnail@, ..old(self)@ }),
    {
        self.thumbnail = thumbnail;
    }

    /// Reads the artist.
    pub fn artist(&self) -> (text: &str)
        ensures
            text@ == self@.artist,
    {
        self.artist.as_str()
    }

    /// Sets the artist.
    pub fn set_artist(&mut self, artist: String)
        ensures
            final(self)@ == (StateView { artist: artist@, ..old(self)@ }),
    {
        self.artist = artist;
    }

    /// Reads the artist of the album.
    pub fn album_artist(&self) -> (text: &str)
        ensures
            text@ == self@.album_artist,
    {
        self.album_artist.as_str()
    }

    /// Sets the artist of the album.
    pub fn set_album_artist(&mut self, album_artist: String)
        ensures
            final(self)@ == (StateView { album_artist: album_artist@, ..old(self)@ }),
    {
        self.album_artist = album_artist;
    }

    /// Reads the title of the album.
    pub fn album_title(&self) -> (text: &str)
        ensures
            text@ == self@.album_title,
    {
        self.album_title.as_str()
    }

    /// Sets the title of the album.
    pub fn set_album_title(&mut self, album_title: String)
        ensures
            final(self)@ == (StateView { album_title: album_title@, ..old(self)@ }),
    {
        self.album_title = album_title;
    }

    /// Reads the title.
    pub fn title(&self) -> (text: &str)
        ensures
            text@ == self@.title,
    {
        self.title.as_str()
    }

    /// Sets the title.
    pub fn set_title(&mut self, title: String)
        ensures
            final(self)@ == (StateView { title: title@, ..old(self)@ }),
    {
        self.title = title;
    }

    /// Reads the identifier of the track.
    pub fn track_id(&self) -> (text: &str)
        ensures
            text@ == self@.track_id,
    {
        self.track_id.as_str()
    }

    /// Sets the identifier of the track.
    pub fn set_track_id(&mut self, track_id: String)
        ensures
            final(self)@ == (StateView { track_id: track_id@, ..old(self)@ }),
    {
        self.track_id = track_id;
    }

    /// Reads the kind of media.
    pub fn media_type(&self) -> (media_type: MediaPlayerMediaType)
        ensures
            media_type == self@.media_type,
    {
        self.media_type
    }

    /// Sets the kind of media. `Unknown` is turned away and leaves the state
    /// as it was.
    pub fn set_media_type(&mut self, media_type: MediaPlayerMediaType) -> (set: Result<
        (),
        MediaError,
    >)
        ensures
            media_type == MediaPlayerMediaType::Unknown ==> final(self)@ == old(self)@ && set
                == Err::<(), MediaError>(
                MediaError::InvalidArgument(InvalidReason::UnknownMediaType),
            ),
            media_type != MediaPlayerMediaType::Unknown ==> set is Ok && final(self)@ == (
            StateView { media_type: media_type, ..old(self)@ }),
    {
        match media_type {
            MediaPlayerMediaType::Unknown => Err(
                MediaError::InvalidArgument(InvalidReason::UnknownMediaType),
            ),
            _ => {
                self.media_type = media_type;
                Ok(())
            },
        }
    }

    /// Reads the playback status.
    pub fn playback_status(&self) -> (status: MediaPlayerPlaybackStatus)
        ensures
            status == self@.playback_status,
    {
        self.playback_status
    }

    /// Sets the playback status. `Unknown` is turned away and leaves the
    /// state as it was.
    pub fn set_playback_status(&mut self, status: MediaPlayerPlaybackStatus) -> (set: Result<
        (),
        MediaError,
    >)
        ensures
            status == MediaPlayerPlaybackStatus::Unknown ==> final(self)@ == old(self)@ && set
                == Err::<(), MediaError>(
                MediaError::InvalidArgument(InvalidReason::UnknownPlaybackStatus),
            ),
            status != MediaPlayerPlaybackStatus::Unknown ==> set is Ok && final(self)@ == (
            StateView { playback_status: status, ..old(self)@ }),
    {
        match status {
            MediaPlayerPlaybackStatus::Unknown => Err(
                MediaError::InvalidArgument(InvalidReason::UnknownPlaybackStatus),
            ),
            _ => {
                self.playback_status = status;
                Ok(())
            },
        }
    }

    /// Reads the volume, in millionths of full volume.
    pub fn volume(&self) -> (volume: i64)
        ensures
            volume == self@.volume,
    {
        self.volume
    }

    /// Sets the volume, in millionths of full volume.
    pub fn set_volume(&mut self, volume: i64)
        ensures
            final(self)@ == (StateView { volume: volume as int, ..old(self)@ }),
    {
        self.volume = volume;
    }

    /// Reads the playback rate, in microseconds of media for each second.
    pub fn playback_rate(&self) -> (rate: i64)
        ensures
            rate == self@.playback_rate,
    {
        self.playback_rate
    }

    /// Sets the playback rate, in microseconds of media for each second.
    pub fn set_playback_rate(&mut self, rate: i64)
        ensures
            final(self)@ == (StateView { playback_rate: rate as int, ..old(self)@ }),
    {
        self.playback_rate = rate;
    }

    /// Reads the position, which lies on the timeline.
    pub fn position(&self) -> (position: i64)
        ensures
            position == self@.position,
            0 <= position <= self@.duration,
    {
        self.timeline.position()
    }

    /// Reads the duration, which is not below the position.
    pub fn duration(&self) -> (duration: i64)
        ensures
            duration == self@.duration,
            0 <= self@.position <= duration,
    {
        self.timeline.duration()
    }

    /// The whole seconds that have passed on the wall clock since the
    /// position was last set.
    pub(crate) fn seconds_since_update(&self) -> (elapsed_secs: u64) {
        let span = clock::elapsed(&self.last_updated_position);
        clock::whole_secs(&span)
    }

    /// Sets the timeline at the moment `now`, given the whole seconds that
    /// have passed since it was last set, and says whether the position
    /// jumped.
    ///
    /// A timeline that is not valid is turned away and leaves the state as it
    /// was, the moment of the last update included. Otherwise duration and
    /// position are taken over, `now` becomes the moment of the last update,
    /// and the answer is `true` exactly when the position moved by more than
    /// the playback rate within less than a second.
    pub fn apply_timeline(
        &mut self,
        duration: i64,
        position: i64,
        elapsed_secs: u64,
        now: Instant,
    ) -> (applied: Result<bool, MediaError>)
        ensures
            match timeline_fault(duration as int, position as int) {
                Some(reason) => final(self)@ == old(self)@ && applied == Err::<bool, MediaError>(
                    MediaError::InvalidArgument(reason),
                ),
                None => final(self)@ == with_timeline(
                    old(self)@,
                    duration as int,
                    position as int,
                    now,
                ) && applied == Ok::<bool, MediaError>(
                    is_seek(
                        old(self)@.position,
                        position as int,
                        old(self)@.playback_rate,
                        elapsed_secs as int,
                    ),
                ),
            },
    {
        match Timeline::new(duration, position) {
            Err(error) => Err(error),
            Ok(timeline) => {
                let seek = seek_detected(
                    self.timeline.position(),
                    position,
                    self.playback_rate,
                    elapsed_secs,
                );
                self.timeline = timeline;
                self.last_updated_position = now;
                Ok(seek)
            },
        }
    }

    /// Sets the timeline and says whether the position jumped, going by the
    /// wall clock for the present moment and for the time that has passed
    /// since the timeline was last set.
    ///
    /// A timeline that is not valid leaves the state as it was, the moment of
    /// the last update included. What is kept of a valid timeline does not
    /// depend on the clock, but for that moment. A jump is reported only
    /// where the position moved by more than the playback rate.
    pub fn set_timeline(&mut self, duration: i64, position: i64) -> (applied: Result<
        bool,
        MediaError,
    >)
        ensures
            match timeline_fault(duration as int, position as int) {
                Some(reason) => final(self)@ == old(self)@ && applied == Err::<bool, MediaError>(
                    MediaError::InvalidArgument(reason),
                ),
                None => final(self)@ == with_timeline(
                    old(self)@,
                    duration as int,
                    position as int,
                    final(self)@.last_updated_position,
                ) && (applied matches Ok(seek) && (seek ==> distance(
                    old(self)@.position,
                    position as int,
                ) > old(self)@.playback_rate)),
            },
    {
        let elapsed_secs = self.seconds_since_update();
        let now = clock::now();
        self.apply_timeline(duration, position, elapsed_secs, now)
    }

    /// The metadata of the track: every field of the composite, with the
    /// duration as its length.
    pub fn metadata(&self) -> (metadata: Metadata)
        ensures
            metadata@ == metadata_of(self@),
    {
        Metadata {
            track_id: track_path(self.track_id.as_str()),
            length: self.timeline.duration(),
            art_url: self.thumbnail.clone(),
            title: self.title.clone(),
            album: self.album_title.clone(),
            artist: self.artist.clone(),
            album_artist: self.album_artist.clone(),
        }
    }
}

} // verus!
