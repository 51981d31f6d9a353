//! What a session hands to the operating system: the metadata of the track as
//! one composite, the set of properties that changed, and the signals that
//! carry them.

use crate::kinds::MediaPlayerPlaybackStatus;
use vstd::prelude::*;
use vstd::string::*;

verus! {

/// The metadata of the current track. It is always published whole: every
/// field is part of every update, whichever field changed.
#[derive(Debug, PartialEq, Eq)]
pub struct Metadata {
    /// The object path of the track, under the key `mpris:trackid`.
    pub track_id: String,
    /// A length in microseconds, under the key `mpris:length`.
    pub length: i64,
    /// The address of the artwork, under the key `mpris:artUrl`.
    pub art_url: String,
    /// The title, under the key `xesam:title`.
    pub title: String,
    /// The album, under the key `xesam:album`.
    pub album: String,
    /// The artist, under the key `xesam:artist`.
    pub artist: String,
    /// The artist of the album, under the key `xesam:albumArtist` where the
    /// session has one to tell of.
    pub album_artist: String,
}

/// The metadata as plain mathematical values.
pub struct MetadataView {
    pub track_id: Seq<char>,
    pub length: int,
    pub art_url: Seq<char>,
    pub title: Seq<char>,
    pub album: Seq<char>,
    pub artist: Seq<char>,
    pub album_artist: Seq<char>,
}

impl View for Metadata {
    type V = MetadataView;

    open spec fn view(&self) -> MetadataView {
        MetadataView {
            track_id: self.track_id@,
            length: self.length as int,
            art_url: self.art_url@,
            title: self.title@,
            album: self.album@,
            artist: self.artist@,
            album_artist: self.album_artist@,
        }
    }
}

impl Clone for Metadata {
    fn clone(&self) -> (copy: Self)
        ensures
            copy == *self,
    {
        Metadata {
            track_id: self.track_id.clone(),
            length: self.length,
            art_url: self.art_url.clone(),
            title: self.title.clone(),
            album: self.album.clone(),
            artist: self.artist.clone(),
            album_artist: self.album_artist.clone(),
        }
    }
}

/// The properties of the player that one signal tells of. A property that
/// is `None` is not part of the signal.
#[derive(Debug, PartialEq, Eq)]
pub struct PropertiesChanged {
    /// `CanControl`
    pub can_control: Option<bool>,
    /// `CanPlay`
    pub can_play: Option<bool>,
    /// `CanPause`
    pub can_pause: Option<bool>,
    /// `CanGoPrevious`
    pub can_go_previous: Option<bool>,
    /// `CanGoNext`
    pub can_go_next: Option<bool>,
    /// `CanSeek`
    pub can_seek: Option<bool>,
    /// `Rate`, in microseconds of media for each second
    pub rate: Option<i64>,
    /// `PlaybackStatus`, published under the status's bus name
    pub playback_status: Option<MediaPlayerPlaybackStatus>,
    /// `Metadata`
    pub metadata: Option<Metadata>,
}

/// The changed properties as plain mathematical values.
pub struct PropertiesChangedView {
    pub can_control: Option<bool>,
    pub can_play: Option<bool>,
    pub can_pause: Option<bool>,
    pub can_go_previous: Option<bool>,
    pub can_go_next: Option<bool>,
    pub can_seek: Option<bool>,
    pub rate: Option<int>,
    pub playback_status: Option<MediaPlayerPlaybackStatus>,
    pub metadata: Option<MetadataView>,
}

/// No property changed.
pub open spec fn no_changes() -> PropertiesChangedView {
    PropertiesChangedView {
        can_control: None,
        can_play: None,
        can_pause: None,
        can_go_previous: None,
        can_go_next: None,
        can_seek: None,
        rate: None,
        playback_status: None,
        metadata: None,
    }
}

impl View for PropertiesChanged {
    type V = PropertiesChangedView;

    open spec fn view(&self) -> PropertiesChangedView {
        PropertiesChangedView {
            can_control: self.can_control,
            can_play: self.can_play,
            can_pause: self.can_pause,
            can_go_previous: self.can_go_previous,
            can_go_next: self.can_go_next,
            can_seek: self.can_seek,
            rate: match self.rate {
                Some(rate) => Some(rate as int),
                None => None,
            },
            playback_status: self.playback_status,
            metadata: match self.metadata {
                Some(metadata) => Some(metadata@),
                None => None,
            },
        }
    }
}

impl PropertiesChanged {
    /// A set in which no property changed.
    pub fn new() -> (changes: PropertiesChanged)
        ensures
            changes@ == no_changes(),
    {
        PropertiesChanged {
            can_control: None,
            can_play: None,
            can_pause: None,
            can_go_previous: None,
            can_go_next: None,
            can_seek: None,
            rate: None,
            playback_status: None,
            metadata: None,
        }
    }

    /// Whether no property changed.
    pub fn is_empty(&self) -> (empty: bool)
        ensures
            empty == (self@ == no_changes()),
    {
        self.can_control.is_none() && self.can_play.is_none() && self.can_pause.is_none()
            && self.can_go_previous.is_none() && self.can_go_next.is_none()
            && self.can_seek.is_none() && self.rate.is_none() && self.playback_status.is_none()
            && self.metadata.is_none()
    }
}

impl Clone for PropertiesChanged {
    fn clone(&self) -> (copy: Self)
        ensures
            copy == *self,
    {
        PropertiesChanged {
            can_control: self.can_control,
            can_play: self.can_play,
            can_pause: self.can_pause,
            can_go_previous: self.can_go_previous,
            can_go_next: self.can_go_next,
            can_seek: self.can_seek,
            rate: self.rate,
            playback_status: self.playback_status,
            metadata: match &self.metadata {
                Some(metadata) => Some(metadata.clone()),
                None => None,
            },
        }
    }
}

/// A signal sent on the bus.
#[derive(Debug, PartialEq, Eq)]
pub enum Signal {
    /// `org.freedesktop.DBus.Properties.PropertiesChanged` on the player
    /// interface, with the properties that changed.
    PropertiesChanged(PropertiesChanged),
    /// `Seeked` on the player interface, with the new position in
    /// microseconds.
    Seeked(i64),
}

/// A signal as plain mathematical values.
pub enum SignalView {
    PropertiesChanged(PropertiesChangedView),
    Seeked(int),
}

impl View for Signal {
    type V = SignalView;

    open spec fn view(&self) -> SignalView {
        match self {
            Signal::PropertiesChanged(changes) => SignalView::PropertiesChanged(changes@),
            Signal::Seeked(position) => SignalView::Seeked(*position as int),
        }
    }
}

impl Clone for Signal {
    fn clone(&self) -> (copy: Self)
        ensures
            copy == *self,
    {
        match self {
            Signal::PropertiesChanged(changes) => Signal::PropertiesChanged(changes.clone()),
            Signal::Seeked(position) => Signal::Seeked(*position),
        }
    }
}

/// The views of a queue of signals, in the queue's order.
pub open spec fn signal_views(signals: Seq<Signal>) -> Seq<SignalView> {
    Seq::new(signals.len(), |i: int| signals[i]@)
}

/// The name under which the bus knows a playback status. A status that is not
/// known is reported as stopped.
pub open spec fn spec_status_name(status: MediaPlayerPlaybackStatus) -> Seq<char> {
    match status {
        MediaPlayerPlaybackStatus::Playing => "Playing"@,
        MediaPlayerPlaybackStatus::Paused => "Paused"@,
        MediaPlayerPlaybackStatus::Stopped => "Stopped"@,
        MediaPlayerPlaybackStatus::Unknown => "Stopped"@,
    }
}

/// The name under which the bus knows a playback status.
pub fn status_name(status: MediaPlayerPlaybackStatus) -> (name: String)
    ensures
        name@ == spec_status_name(status),
{
    match status {
        MediaPlayerPlaybackStatus::Playing => "Playing".to_owned(),
        MediaPlayerPlaybackStatus::Paused => "Paused".to_owned(),
        MediaPlayerPlaybackStatus::Stopped => "Stopped".to_owned(),
        MediaPlayerPlaybackStatus::Unknown => "Stopped".to_owned(),
    }
}

} // verus!
