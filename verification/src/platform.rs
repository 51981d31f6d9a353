//! The publisher: how one change of the session's state becomes one update
//! for the media-session facility of each platform.
//!
//! A flag becomes the platform's own flag for the command. The playback
//! status becomes the platform's status code, or its name on the bus. Every
//! field of the track's metadata becomes the whole composite again. A
//! timeline is published where the platform has one.

use crate::kinds::{MediaPlayerMediaType, MediaPlayerPlaybackStatus};
use crate::publish::{
    no_changes, Metadata, MetadataView, PropertiesChanged, PropertiesChangedView, Signal,
    SignalView,
};
use crate::timeline::{saturate, seconds_to_micros, TimelineProperties, MICROS_PER_SECOND};
use vstd::prelude::*;

verus! {

/// The media-session facility that a session talks to.
#[derive(Clone, Copy, Debug, PartialEq, Eq, Structural)]
pub enum Platform {
    /// MPRIS on the session bus.
    Linux,
    /// The system media transport controls.
    Windows,
    /// The now-playing info centre and the remote command centre.
    MacOs,
    /// No facility: the session keeps its state and publishes nothing.
    Unsupported,
}

/// A command that the system can be allowed to send.
#[derive(Clone, Copy, Debug, PartialEq, Eq, Structural)]
pub enum Capability {
    Control,
    Play,
    Pause,
    Previous,
    Next,
}

/// The callback of the host together with the context through which it is
/// delivered.
#[derive(Clone, Copy, Debug, PartialEq, Eq, Structural)]
pub struct MprisPlayerButtonCallback {
    /// The handle of the callback.
    pub callback: u64,
    /// The handle of the delivery context.
    pub channel: u64,
}

/// The callback that remote commands are delivered to, together with its
/// delivery context.
#[derive(Clone, Copy, Debug, PartialEq, Eq, Structural)]
pub struct RemoteCommandButtonCallback {
    /// The handle of the callback.
    pub callback: u64,
    /// The handle of the delivery context.
    pub channel: u64,
}

/// One update for the platform's facility.
#[derive(Debug, PartialEq, Eq)]
pub enum PlatformUpdate {
    /// A signal on the bus.
    Bus(Signal),
    /// The platform's flag for a command.
    CommandEnabled { capability: Capability, enabled: bool },
    /// The playback status as the platform's own number.
    PlaybackState(i32),
    /// The display of the track: the platform's number for the kind of media
    /// and the whole metadata.
    Display { media_type: i32, metadata: Metadata },
    /// The timeline.
    Timeline(TimelineProperties),
    /// A callback was replaced or removed: its registration with the platform
    /// is to be released.
    Released(MprisPlayerButtonCallback),
}

/// An update as plain mathematical values.
pub enum PlatformUpdateView {
    Bus(SignalView),
    CommandEnabled { capability: Capability, enabled: bool },
    PlaybackState(int),
    Display { media_type: int, metadata: MetadataView },
    Timeline(TimelineProperties),
    Released(MprisPlayerButtonCallback),
}

impl View for PlatformUpdate {
    type V = PlatformUpdateView;

    open spec fn view(&self) -> PlatformUpdateView {
        match self {
            PlatformUpdate::Bus(signal) => PlatformUpdateView::Bus(signal@),
            PlatformUpdate::CommandEnabled { capability, enabled } => PlatformUpdateView::CommandEnabled {
                capability: *capability,
                enabled: *enabled,
            },
            PlatformUpdate::PlaybackState(code) => PlatformUpdateView::PlaybackState(*code as int),
            PlatformUpdate::Display { media_type, metadata } => PlatformUpdateView::Display {
                media_type: *media_type as int,
                metadata: metadata@,
            },
            PlatformUpdate::Timeline(properties) => PlatformUpdateView::Timeline(*properties),
            PlatformUpdate::Released(callback) => PlatformUpdateView::Released(*callback),
        }
    }
}

/// The view of an update that may be missing.
pub open spec fn optional_view(update: Option<PlatformUpdate>) -> Option<PlatformUpdateView> {
    match update {
        Some(update) => Some(update@),
        None => None,
    }
}

/// The views of a queue of updates, in the queue's order.
pub open spec fn update_views(updates: Seq<PlatformUpdate>) -> Seq<PlatformUpdateView> {
    Seq::new(updates.len(), |i: int| updates[i]@)
}

/// The queue after an update was published, if there was one to publish.
pub open spec fn published(
    outbox: Seq<PlatformUpdateView>,
    update: Option<PlatformUpdateView>,
) -> Seq<PlatformUpdateView> {
    match update {
        Some(update) => outbox.push(update),
        None => outbox,
    }
}

/// The number of a playback status on the transport controls of Windows.
pub open spec fn spec_smtc_status(status: MediaPlayerPlaybackStatus) -> int {
    match status {
        MediaPlayerPlaybackStatus::Unknown => 1,
        MediaPlayerPlaybackStatus::Stopped => 2,
        MediaPlayerPlaybackStatus::Playing => 3,
        MediaPlayerPlaybackStatus::Paused => 4,
    }
}

/// The playback status behind a number of the transport controls of Windows.
pub open spec fn spec_status_from_smtc(code: int) -> MediaPlayerPlaybackStatus {
    if code == 2 {
        MediaPlayerPlaybackStatus::Stopped
    } else if code == 3 {
        MediaPlayerPlaybackStatus::Playing
    } else if code == 4 {
        MediaPlayerPlaybackStatus::Paused
    } else {
        MediaPlayerPlaybackStatus::Unknown
    }
}

/// The number of a playback status in the now-playing info centre.
pub open spec fn spec_now_playing_state(status: MediaPlayerPlaybackStatus) -> int {
    match status {
        MediaPlayerPlaybackStatus::Unknown => 0,
        MediaPlayerPlaybackStatus::Playing => 1,
        MediaPlayerPlaybackStatus::Paused => 2,
        MediaPlayerPlaybackStatus::Stopped => 3,
    }
}

/// The playback status behind a number of the now-playing info centre.
pub open spec fn spec_status_from_now_playing(state: int) -> MediaPlayerPlaybackStatus {
    if state == 1 {
        MediaPlayerPlaybackStatus::Playing
    } else if state == 2 {
        MediaPlayerPlaybackStatus::Paused
    } else if state == 3 {
        MediaPlayerPlaybackStatus::Stopped
    } else {
        MediaPlayerPlaybackStatus::Unknown
    }
}

/// The number of a kind of media on the platforms that have one: music is 1,
/// and what is not known is 0.
pub open spec fn spec_native_media_type(media_type: MediaPlayerMediaType) -> int {
    match media_type {
        MediaPlayerMediaType::Unknown => 0,
        MediaPlayerMediaType::Music => 1,
    }
}

/// The set of changed properties that holds one flag and nothing else.
pub open spec fn single_flag(capability: Capability, enabled: bool) -> PropertiesChangedView {
    match capability {
        Capability::Control => PropertiesChangedView { can_control: Some(enabled), ..no_changes() },
        Capability::Play => PropertiesChangedView { can_play: Some(enabled), ..no_changes() },
        Capability::Pause => PropertiesChangedView { can_pause: Some(enabled), ..no_changes() },
        Capability::Previous => PropertiesChangedView {
            can_go_previous: Some(enabled),
            ..no_changes()
        },
        Capability::Next => PropertiesChangedView { can_go_next: Some(enabled), ..no_changes() },
    }
}

/// What is published when a flag was set. The now-playing info centre has no
/// flag for control as a whole.
pub open spec fn flag_update(platform: Platform, capability: Capability, enabled: bool) -> Option<
    PlatformUpdateView,
> {
    match platform {
        Platform::Linux => Some(
            PlatformUpdateView::Bus(SignalView::PropertiesChanged(single_flag(capability, enabled))),
        ),
        Platform::Windows => Some(
            PlatformUpdateView::CommandEnabled { capability: capability, enabled: enabled },
        ),
        Platform::MacOs => if capability == Capability::Control {
            None
        } else {
            Some(PlatformUpdateView::CommandEnabled { capability: capability, enabled: enabled })
        },
        Platform::Unsupported => None,
    }
}

/// What is published when the playback status was set.
pub open spec fn status_update(platform: Platform, status: MediaPlayerPlaybackStatus) -> Option<
    PlatformUpdateView,
> {
    match platform {
        Platform::Linux => Some(
            PlatformUpdateView::Bus(
                SignalView::PropertiesChanged(
                    PropertiesChangedView { playback_status: Some(status), ..no_changes() },
                ),
            ),
        ),
        Platform::Windows => Some(PlatformUpdateView::PlaybackState(spec_smtc_status(status))),
        Platform::MacOs => Some(PlatformUpdateView::PlaybackState(spec_now_playing_state(status))),
        Platform::Unsupported => None,
    }
}

/// What is published when a field of the display was set: always the whole
/// composite.
pub open spec fn display_update(
    platform: Platform,
    media_type: MediaPlayerMediaType,
    metadata: MetadataView,
) -> Option<PlatformUpdateView> {
    match platform {
        Platform::Linux => Some(
            PlatformUpdateView::Bus(
                SignalView::PropertiesChanged(
                    PropertiesChangedView { metadata: Some(metadata), ..no_changes() },
                ),
            ),
        ),
        Platform::Windows | Platform::MacOs => Some(
            PlatformUpdateView::Display {
                media_type: spec_native_media_type(media_type),
                metadata: metadata,
            },
        ),
        Platform::Unsupported => None,
    }
}

/// The five points of a timeline given in whole seconds, in microseconds.
pub open spec fn spec_timeline_from_seconds(
    start_time: int,
    end_time: int,
    position: int,
    min_seek_time: int,
    max_seek_time: int,
) -> TimelineProperties {
    TimelineProperties {
        start_time: saturate(start_time * MICROS_PER_SECOND) as i64,
        end_time: saturate(end_time * MICROS_PER_SECOND) as i64,
        position: saturate(position * MICROS_PER_SECOND) as i64,
        min_seek_time: saturate(min_seek_time * MICROS_PER_SECOND) as i64,
        max_seek_time: saturate(max_seek_time * MICROS_PER_SECOND) as i64,
    }
}

/// What is published when a timeline was set: only the transport controls of
/// Windows have one.
pub open spec fn timeline_update(platform: Platform, properties: TimelineProperties) -> Option<
    PlatformUpdateView,
> {
    match platform {
        Platform::Windows => Some(PlatformUpdateView::Timeline(properties)),
        _ => None,
    }
}

/// The number of a playback status on the transport controls of Windows.
pub fn smtc_status(status: MediaPlayerPlaybackStatus) -> (code: i32)
    ensures
        code == spec_smtc_status(status),
{
    match status {
        MediaPlayerPlaybackStatus::Unknown => 1,
        MediaPlayerPlaybackStatus::Stopped => 2,
        MediaPlayerPlaybackStatus::Playing => 3,
        MediaPlayerPlaybackStatus::Paused => 4,
    }
}

/// The playback status behind a number of the transport controls of Windows.
pub fn status_from_smtc(code: i32) -> (status: MediaPlayerPlaybackStatus)
    ensures
        status == spec_status_from_smtc(code as int),
{
    if code == 2 {
        MediaPlayerPlaybackStatus::Stopped
    } else if code == 3 {
        MediaPlayerPlaybackStatus::Playing
    } else if code == 4 {
        MediaPlayerPlaybackStatus::Paused
    } else {
        MediaPlayerPlaybackStatus::Unknown
    }
}

/// The number of a playback status in the now-playing info centre.
pub fn now_playing_state(status: MediaPlayerPlaybackStatus) -> (state: i32)
    ensures
        state == spec_now_playing_state(status),
{
    match status {
        MediaPlayerPlaybackStatus::Unknown => 0,
        MediaPlayerPlaybackStatus::Playing => 1,
        MediaPlayerPlaybackStatus::Paused => 2,
        MediaPlayerPlaybackStatus::Stopped => 3,
    }
}

/// The playback status behind a number of the now-playing info centre.
pub fn status_from_now_playing(state: i32) -> (status: MediaPlayerPlaybackStatus)
    ensures
        status == spec_status_from_now_playing(state as int),
{
    if state == 1 {
        MediaPlayerPlaybackStatus::Playing
    } else if state == 2 {
        MediaPlayerPlaybackStatus::Paused
    } else if state == 3 {
        MediaPlayerPlaybackStatus::Stopped
    } else {
        MediaPlayerPlaybackStatus::Unknown
    }
}

/// The number of a kind of media on the platforms that have one.
pub fn native_media_type(media_type: MediaPlayerMediaType) -> (code: i32)
    ensures
        code == spec_native_media_type(media_type),
{
    match media_type {
        MediaPlayerMediaType::Unknown => 0,
        MediaPlayerMediaType::Music => 1,
    }
}

/// The five points of a timeline given in whole seconds, in microseconds;
/// a point that does not fit stops at the end of the range.
pub fn timeline_from_seconds(
    start_time: u64,
    end_time: u64,
    position: u64,
    min_seek_time: u64,
    max_seek_time: u64,
) -> (properties: TimelineProperties)
    ensures
        properties == spec_timeline_from_seconds(
            start_time as int,
            end_time as int,
            position as int,
            min_seek_time as int,
            max_seek_time as int,
        ),
{
    TimelineProperties {
        start_time: seconds_to_micros(start_time),
        end_time: seconds_to_micros(end_time),
        position: seconds_to_micros(position),
        min_seek_time: seconds_to_micros(min_seek_time),
        max_seek_time: seconds_to_micros(max_seek_time),
    }
}

/// The update for a flag, if the platform takes one.
pub fn publish_flag(platform: Platform, capability: Capability, enabled: bool) -> (update: Option<
    PlatformUpdate,
>)
    ensures
        optional_view(update) == flag_update(platform, capability, enabled),
{
    match platform {
        Platform::Linux => {
            let mut changes = PropertiesChanged::new();
            match capability {
                Capability::Control => {
                    changes.can_control = Some(enabled);
                },
                Capability::Play => {
                    changes.can_play = Some(enabled);
                },
                Capability::Pause => {
                    changes.can_pause = Some(enabled);
                },
                Capability::Previous => {
                    changes.can_go_previous = Some(enabled);
                },
                Capability::Next => {
                    changes.can_go_next = Some(enabled);
                },
            }
            Some(PlatformUpdate::Bus(Signal::PropertiesChanged(changes)))
        },
        Platform::Windows => Some(PlatformUpdate::CommandEnabled { capability, enabled }),
        Platform::MacOs => match capability {
            Capability::Control => None,
            _ => Some(PlatformUpdate::CommandEnabled { capability, enabled }),
        },
        Platform::Unsupported => None,
    }
}

/// The update for a playback status, if the platform takes one.
pub fn publish_status(platform: Platform, status: MediaPlayerPlaybackStatus) -> (update: Option<
    PlatformUpdate,
>)
    ensures
        optional_view(update) == status_update(platform, status),
{
    match platform {
        Platform::Linux => {
            let mut changes = PropertiesChanged::new();
            changes.playback_status = Some(status);
            Some(PlatformUpdate::Bus(Signal::PropertiesChanged(changes)))
        },
        Platform::Windows => Some(PlatformUpdate::PlaybackState(smtc_status(status))),
        Platform::MacOs => Some(PlatformUpdate::PlaybackState(now_playing_state(status))),
        Platform::Unsupported => None,
    }
}

/// The update for the display of the track, if the platform takes one.
pub fn publish_display(platform: Platform, media_type: MediaPlayerMediaType, metadata: Metadata) -> (update:
    Option<PlatformUpdate>)
    ensures
        optional_view(update) == display_update(platform, media_type, metadata@),
{
    match platform {
        Platform::Linux => {
            let mut changes = PropertiesChanged::new();
            changes.metadata = Some(metadata);
            Some(PlatformUpdate::Bus(Signal::PropertiesChanged(changes)))
        },
        Platform::Windows => Some(
            PlatformUpdate::Display { media_type: native_media_type(media_type), metadata },
        ),
        Platform::MacOs => Some(
            PlatformUpdate::Display { media_type: native_media_type(media_type), metadata },
        ),
        Platform::Unsupported => None,
    }
}

/// The update for a timeline, if the platform takes one.
pub fn publish_timeline(platform: Platform, properties: TimelineProperties) -> (update: Option<
    PlatformUpdate,
>)
    ensures
        optional_view(update) == timeline_update(platform, properties),
{
    match platform {
        Platform::Windows => Some(PlatformUpdate::Timeline(properties)),
        _ => None,
    }
}

} // verus!
