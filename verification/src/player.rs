//! The media player of the host: the session's state, the listeners, and the
//! session's place on the bus.
//!
//! A setter first checks its argument, then changes the state, then queues
//! one signal for the bus that carries the property just set; for a field of
//! the track's metadata that is the whole composite. An argument that is
//! turned away changes nothing and queues nothing.

use crate::clock;
use crate::error::{InvalidReason, MediaError};
use crate::events::EventKind;
use crate::kinds::{MediaPlayerMediaType, MediaPlayerPlaybackStatus};
use crate::listeners::entry_of;
use crate::publish::{
    no_changes, Metadata, PropertiesChanged, PropertiesChangedView, Signal, SignalView,
};
use crate::router::{listeners_of, with_listeners, MprisPlayer, PlayerView};
use crate::session::{idle_session, spec_registration_result, DBusSession, SessionView};
use crate::state::{initial_state, metadata_of, with_timeline, MprisPlayerState, StateView};
use crate::text::spec_bus_name;
use crate::thumbnail::MediaPlayerThumbnail;
use crate::timeline::{distance, is_seek, timeline_fault};
use std::time::Instant;
use vstd::prelude::*;
use vstd::string::*;

verus! {

/// A media session of the host application.
pub struct MediaPlayer {
    service_name: String,
    player: MprisPlayer,
    active: bool,
    dbus_session: DBusSession,
}

/// The media player as plain mathematical values.
pub struct MediaPlayerView {
    /// The name under which the session registers on the bus.
    pub service_name: Seq<char>,
    /// The state and the listeners.
    pub player: PlayerView,
    /// Whether the session is shown to the system.
    pub active: bool,
    /// The session's queues and what it owns on the bus.
    pub session: SessionView,
}

/// The player after a signal was queued behind those that wait already.
pub open spec fn queued(before: MediaPlayerView, signal: SignalView) -> MediaPlayerView {
    MediaPlayerView {
        session: SessionView { outbox: before.session.outbox.push(signal), ..before.session },
        ..before
    }
}

/// The player with another state, after the properties that changed with it
/// were queued for the bus as one signal.
pub open spec fn announced(
    before: MediaPlayerView,
    state: StateView,
    changes: PropertiesChangedView,
) -> MediaPlayerView {
    queued(
        MediaPlayerView { player: PlayerView { state: state, ..before.player }, ..before },
        SignalView::PropertiesChanged(changes),
    )
}

/// The change that carries the metadata of a state and nothing else.
pub open spec fn metadata_change(state: StateView) -> PropertiesChangedView {
    PropertiesChangedView { metadata: Some(metadata_of(state)), ..no_changes() }
}

/// The change that carries every property of a state.
pub open spec fn snapshot(state: StateView) -> PropertiesChangedView {
    PropertiesChangedView {
        can_control: Some(state.can_control),
        can_play: Some(state.can_play),
        can_pause: Some(state.can_pause),
        can_go_previous: Some(state.can_go_previous),
        can_go_next: Some(state.can_go_next),
        can_seek: Some(state.can_seek),
        rate: Some(state.playback_rate),
        playback_status: Some(state.playback_status),
        metadata: Some(metadata_of(state)),
    }
}

/// The player after a valid timeline was set at the moment `now`: the signal
/// for a jump is queued first, then the metadata.
pub open spec fn after_timeline(
    before: MediaPlayerView,
    duration: int,
    position: int,
    seek: bool,
    now: Instant,
) -> MediaPlayerView {
    let state = with_timeline(before.player.state, duration, position, now);
    announced(
        if seek {
            queued(before, SignalView::Seeked(position))
        } else {
            before
        },
        state,
        metadata_change(state),
    )
}

impl View for MediaPlayer {
    type V = MediaPlayerView;

    closed spec fn view(&self) -> MediaPlayerView {
        MediaPlayerView {
            service_name: self.service_name@,
            player: self.player@,
            active: self.active,
            session: self.dbus_session@,
        }
    }
}

impl MediaPlayer {
    /// A session that is not yet shown to the system. Control as a whole is
    /// enabled, every single control is not; nothing waits for the bus.
    pub fn new(service_name: String, identity: String) -> (player: MediaPlayer)
        ensures
            player@ == (MediaPlayerView {
                service_name: service_name@,
                player: PlayerView {
                    button_pressed: Map::empty(),
                    position_changed: Map::empty(),
                    position_seeked: Map::empty(),
                    state: initial_state(
                        identity@,
                        true,
                        player@.player.state.last_updated_position,
                    ),
                },
                active: false,
                session: idle_session(),
            }),
    {
        MediaPlayer {
            service_name,
            player: MprisPlayer::new(MprisPlayerState::new(identity, true)),
            active: false,
            dbus_session: DBusSession::new(),
        }
    }

    /// The player as the bus sees it.
    pub fn player(&self) -> (player: &MprisPlayer)
        ensures
            player@ == self@.player,
    {
        &self.player
    }

    /// The player as the bus sees it, for the handlers of the bus interface.
    /// The rest of the session stays as it is whatever they do.
    pub fn player_mut(&mut self) -> (player: &mut MprisPlayer)
        ensures
            player@ == old(self)@.player,
            final(self)@ == (MediaPlayerView { player: final(player)@, ..old(self)@ }),
    {
        &mut self.player
    }

    /// The session's place on the bus, for the pump thread to drive. The rest
    /// of the player stays as it is whatever the pump does.
    pub fn session_mut(&mut self) -> (session: &mut DBusSession)
        ensures
            session@ == old(self)@.session,
            final(self)@ == (MediaPlayerView { session: final(session)@, ..old(self)@ }),
    {
        &mut self.dbus_session
    }

    /// The name under which the session registers on the bus.
    pub fn service_name(&self) -> (name: &str)
        ensures
            name@ == self@.service_name,
    {
        self.service_name.as_str()
    }

    /// Whether the session is shown to the system.
    pub fn is_active(&self) -> (active: bool)
        ensures
            active == self@.active,
    {
        self.active
    }

    /// Starts to show the session to the system, and says whether a request
    /// went to the pump. A session that is active already asks for nothing;
    /// otherwise the session's bus name is queued for registration, and the
    /// answer is to be handed to `activated`.
    pub fn activate(&mut self) -> (requested: bool)
        ensures
            requested == !old(self)@.active,
            requested ==> final(self)@ == (MediaPlayerView {
                session: SessionView {
                    register_queue: old(self)@.session.register_queue.push(
                        spec_bus_name(old(self)@.service_name),
                    ),
                    ..old(self)@.session
                },
                ..old(self)@
            }),
            !requested ==> final(self)@ == old(self)@,
    {
        if self.active {
            return false;
        }
        self.dbus_session.register(self.service_name.as_str());
        true
    }

    /// Takes the pump's answer to the request that `activate` made; `None`
    /// stands for no answer within the caller's bound. The session is active
    /// from here on exactly when the answer was yes; a refusal is reported
    /// as a taken name, silence as a timeout, and both leave the session as
    /// it was.
    pub fn activated(&mut self, reply: Option<bool>) -> (result: Result<(), MediaError>)
        ensures
            result == spec_registration_result(reply),
            result is Ok ==> final(self)@ == (MediaPlayerView { active: true, ..old(self)@ }),
            result is Err ==> final(self)@ == old(self)@,
    {
        match DBusSession::registration_result(reply) {
            Ok(()) => {
                self.active = true;
                Ok(())
            },
            Err(error) => Err(error),
        }
    }

    /// Stops showing the session to the system. An active session becomes
    /// inactive and asks the pump to give its bus name back; an inactive one
    /// stays as it is.
    pub fn deactivate(&mut self) -> (result: Result<(), MediaError>)
        ensures
            result is Ok,
            old(self)@.active ==> final(self)@ == (MediaPlayerView {
                active: false,
                session: SessionView {
                    unregister_queue: old(self)@.session.unregister_queue.push(
                        spec_bus_name(old(self)@.service_name),
                    ),
                    ..old(self)@.session
                },
                ..old(self)@
            }),
            !old(self)@.active ==> final(self)@ == old(self)@,
    {
        if self.active {
            self.active = false;
            self.dbus_session.unregister(self.service_name.as_str());
        }
        Ok(())
    }

    /// Ends the session: every listener is released, the bus name is asked
    /// back, and the pump is told to leave.
    pub fn finalize(&mut self)
        ensures
            final(self)@ == (MediaPlayerView {
                active: false,
                player: PlayerView {
                    button_pressed: Map::empty(),
                    position_changed: Map::empty(),
                    position_seeked: Map::empty(),
                    state: old(self)@.player.state,
                },
                session: SessionView {
                    unregister_queue: old(self)@.session.unregister_queue.push(
                        spec_bus_name(old(self)@.service_name),
                    ),
                    terminating: true,
                    ..old(self)@.session
                },
                ..old(self)@
            }),
    {
        self.player.clear_listeners();
        self.active = false;
        self.dbus_session.unregister(self.service_name.as_str());
        self.dbus_session.terminate();
    }

    /// Registers a listener for the events called `event_name`, one of
    /// `buttonpressed`, `positionchanged` and `positionseeked`, and says
    /// whether it was added. A listener whose identity is registered for
    /// these events already is not added again, and a name that stands for no
    /// events adds nothing.
    pub fn add_event_listener(&mut self, event_name: &str, identity: usize, handle: u64) -> (added:
        bool)
        ensures
            match EventKind::spec_from_name(event_name@) {
                Some(kind) => {
                    &&& added == !listeners_of(old(self)@.player, kind).dom().contains(identity)
                    &&& added ==> final(self)@ == (MediaPlayerView {
                        player: with_listeners(
                            old(self)@.player,
                            kind,
                            listeners_of(old(self)@.player, kind).insert(identity, handle),
                        ),
                        ..old(self)@
                    })
                    &&& !added ==> final(self)@ == old(self)@
                },
                None => !added && final(self)@ == old(self)@,
            },
    {
        match EventKind::from_name(event_name) {
            Some(kind) => self.player.add_listener(kind, identity, handle),
            None => false,
        }
    }

    /// Removes the listener registered under the identity for the events
    /// called `event_name`, and hands its handle back. Removing what is not
    /// registered changes nothing.
    pub fn remove_event_listener(&mut self, event_name: &str, identity: usize) -> (removed: Option<
        u64,
    >)
        ensures
            match EventKind::spec_from_name(event_name@) {
                Some(kind) => {
                    &&& removed == entry_of(listeners_of(old(self)@.player, kind), identity)
                    &&& final(self)@ == (MediaPlayerView {
                        player: with_listeners(
                            old(self)@.player,
                            kind,
                            listeners_of(old(self)@.player, kind).remove(identity),
                        ),
                        ..old(self)@
                    })
                    &&& removed is None ==> final(self)@ == old(self)@
                },
                None => removed is None && final(self)@ == old(self)@,
            },
    {
        match EventKind::from_name(event_name) {
            Some(kind) => self.player.remove_listener(kind, identity),
            None => None,
        }
    }

    /// Registers a listener; another name for `add_event_listener`.
    pub fn on(&mut self, event_name: &str, identity: usize, handle: u64) -> (added: bool)
        ensures
            match EventKind::spec_from_name(event_name@) {
                Some(kind) => {
                    &&& added == !listeners_of(old(self)@.player, kind).dom().contains(identity)
                    &&& added ==> final(self)@ == (MediaPlayerView {
                        player: with_listeners(
                            old(self)@.player,
                            kind,
                            listeners_of(old(self)@.player, kind).insert(identity, handle),
                        ),
                        ..old(self)@
                    })
                    &&& !added ==> final(self)@ == old(self)@
                },
                None => !added && final(self)@ == old(self)@,
            },
    {
        self.add_event_listener(event_name, identity, handle)
    }

    /// Removes a listener; another name for `remove_event_listener`.
    pub fn off(&mut self, event_name: &str, identity: usize) -> (removed: Option<u64>)
        ensures
            match EventKind::spec_from_name(event_name@) {
                Some(kind) => {
                    &&& removed == entry_of(listeners_of(old(self)@.player, kind), identity)
                    &&& final(self)@ == (MediaPlayerView {
                        player: with_listeners(
                            old(self)@.player,
                            kind,
                            listeners_of(old(self)@.player, kind).remove(identity),
                        ),
                        ..old(self)@
                    })
                    &&& removed is None ==> final(self)@ == old(self)@
                },
                None => removed is None && final(self)@ == old(self)@,
            },
    {
        self.remove_event_listener(event_name, identity)
    }

    /// Queues the properties of a change for the bus as one signal.
    fn publish(&mut self, changes: PropertiesChanged)
        ensures
            final(self)@ == queued(old(self)@, SignalView::PropertiesChanged(changes@)),
    {
        self.dbus_session.emit_message(Signal::PropertiesChanged(changes));
    }

    /// Queues the whole metadata of the track for the bus.
    fn publish_metadata(&mut self)
        ensures
            final(self)@ == queued(
                old(self)@,
                SignalView::PropertiesChanged(metadata_change(old(self)@.player.state)),
            ),
    {
        let mut changes = PropertiesChanged::new();
        changes.metadata = Some(self.construct_metadata());
        self.publish(changes);
    }

    /// Hands the whole of what the system shows of the session to the bus
    /// again: one signal that carries every property as it is now, queued
    /// behind the signals that wait already. The state stays as it is.
    pub fn update(&mut self) -> (result: Result<(), MediaError>)
        ensures
            result is Ok,
            final(self)@ == announced(
                old(self)@,
                old(self)@.player.state,
                snapshot(old(self)@.player.state),
            ),
    {
        let state = self.player.state();
        let changes = PropertiesChanged {
            can_control: Some(state.can_control()),
            can_play: Some(state.can_play()),
            can_pause: Some(state.can_pause()),
            can_go_previous: Some(state.can_go_previous()),
            can_go_next: Some(state.can_go_next()),
            can_seek: Some(state.can_seek()),
            rate: Some(state.playback_rate()),
            playback_status: Some(state.playback_status()),
            metadata: Some(state.metadata()),
        };
        self.publish(changes);
        Ok(())
    }

    /// The metadata of the track as the player publishes it: every field of
    /// the composite, with the duration of the track as its length. It is
    /// what the bus reads as the property `Metadata`.
    pub fn construct_metadata(&self) -> (metadata: Metadata)
        ensures
            metadata@ == metadata_of(self@.player.state),
    {
        self.player.state().metadata()
    }

    /// Sets the thumbnail and publishes the metadata.
    pub fn set_thumbnail(&mut self, thumbnail: &MediaPlayerThumbnail) -> (result: Result<
        (),
        MediaError,
    >)
        ensures
            result is Ok,
            ({
                let state = StateView { thumbnail: thumbnail.address(), ..old(self)@.player.state };
                final(self)@ == announced(old(self)@, state, metadata_change(state))
            }),
    {
        self.player.state_mut().set_thumbnail(thumbnail.thumbnail().to_owned());
        self.publish_metadata();
        Ok(())
    }

    /// Sets the timeline at the moment `now`, given the whole seconds that
    /// have passed since it was last set.
    ///
    /// A timeline without `0 <= position <= duration` is turned away and
    /// changes nothing. Otherwise duration and position are taken over, `now`
    /// becomes the moment of the last update, and the metadata is published;
    /// and where the position moved by more than the playback rate within
    /// less than a second, a `Seeked` signal with the new position is queued
    /// before the metadata.
    pub fn set_timeline_after(
        &mut self,
        duration: i64,
        position: i64,
        elapsed_secs: u64,
        now: Instant,
    ) -> (result: Result<(), MediaError>)
        ensures
            match timeline_fault(duration as int, position as int) {
                Some(reason) => final(self)@ == old(self)@ && result == Err::<(), MediaError>(
                    MediaError::InvalidArgument(reason),
                ),
                None => result is Ok && final(self)@ == after_timeline(
                    old(self)@,
                    duration as int,
                    position as int,
                    is_seek(
                        old(self)@.player.state.position,
                        position as int,
                        old(self)@.player.state.playback_rate,
                        elapsed_secs as int,
                    ),
                    now,
                ),
            },
    {
        match self.player.state_mut().apply_timeline(duration, position, elapsed_secs, now) {
            Err(error) => Err(error),
            Ok(seek) => {
                if seek {
                    self.dbus_session.emit_message(Signal::Seeked(position));
                }
                self.publish_metadata();
                Ok(())
            },
        }
    }

    /// Sets the timeline, going by the wall clock for the present moment and
    /// for the time that has passed since the timeline was last set.
    ///
    /// Of what is kept and published, only the moment of the last update
    /// depends on the clock. Whether a `Seeked` signal is queued depends on
    /// it too: it is queued only where the position moved by more than the
    /// playback rate.
    pub fn set_timeline(&mut self, duration: i64, position: i64) -> (result: Result<(), MediaError>)
        ensures
            match timeline_fault(duration as int, position as int) {
                Some(reason) => final(self)@ == old(self)@ && result == Err::<(), MediaError>(
                    MediaError::InvalidArgument(reason),
                ),
                None => result is Ok && exists|seek: bool|
                    {
                        &&& seek ==> distance(old(self)@.player.state.position, position as int)
                            > old(self)@.player.state.playback_rate
                        &&& final(self)@ == #[trigger] after_timeline(
                            old(self)@,
                            duration as int,
                            position as int,
                            seek,
                            final(self)@.player.state.last_updated_position,
                        )
                    },
            },
    {
        let elapsed_secs = self.player.state().seconds_since_update();
        let now = clock::now();
        let result = self.set_timeline_after(duration, position, elapsed_secs, now);
        proof {
            if timeline_fault(duration as int, position as int) is None {
                let seek = is_seek(
                    old(self)@.player.state.position,
                    position as int,
                    old(self)@.player.state.playback_rate,
                    elapsed_secs as int,
                );
                assert(self@ == after_timeline(
                    old(self)@,
                    duration as int,
                    position as int,
                    seek,
                    self@.player.state.last_updated_position,
                ));
            }
        }
        result
    }

    /// Whether the play button is enabled.
    pub fn get_play_button_enabled(&self) -> (enabled: bool)
        ensures
            enabled == self@.player.state.can_play,
    {
        self.player.state().can_play()
    }

    /// Enables or disables the play button and publishes `CanPlay`, and only that, at
    /// once.
    pub fn set_play_button_enabled(&mut self, enabled: bool) -> (result: Result<(), MediaError>)
        ensures
            result is Ok,
            final(self)@ == announced(
                old(self)@,
                StateView { can_play: enabled, ..old(self)@.player.state },
                PropertiesChangedView { can_play: Some(enabled), ..no_changes() },
            ),
    {
        self.player.state_mut().set_can_play(enabled);
        let mut changes = PropertiesChanged::new();
        changes.can_play = Some(enabled);
        self.publish(changes);
        Ok(())
    }

    /// Whether the pause button is enabled.
    pub fn get_pause_button_enabled(&self) -> (enabled: bool)
        ensures
            enabled == self@.player.state.can_pause,
    {
        self.player.state().can_pause()
    }

    /// Enables or disables the pause button and publishes `CanPause`, and only that, at
    /// once.
    pub fn set_pause_button_enabled(&mut self, enabled: bool) -> (result: Result<(), MediaError>)
        ensures
            result is Ok,
            final(self)@ == announced(
                old(self)@,
                StateView { can_pause: enabled, ..old(self)@.player.state },
                PropertiesChangedView { can_pause: Some(enabled), ..no_changes() },
            ),
    {
        self.player.state_mut().set_can_pause(enabled);
        let mut changes = PropertiesChanged::new();
        changes.can_pause = Some(enabled);
        self.publish(changes);
        Ok(())
    }

    /// Whether the previous button is enabled.
    pub fn get_previous_button_enabled(&self) -> (enabled: bool)
        ensures
            enabled == self@.player.state.can_go_previous,
    {
        self.player.state().can_go_previous()
    }

    /// Enables or disables the previous button and publishes `CanGoPrevious`, and only that, at
    /// once.
    pub fn set_previous_button_enabled(&mut self, enabled: bool) -> (result: Result<(), MediaError>)
        ensures
            result is Ok,
            final(self)@ == announced(
                old(self)@,
                StateView { can_go_previous: enabled, ..old(self)@.player.state },
                PropertiesChangedView { can_go_previous: Some(enabled), ..no_changes() },
            ),
    {
        self.player.state_mut().set_can_go_previous(enabled);
        let mut changes = PropertiesChanged::new();
        changes.can_go_previous = Some(enabled);
        self.publish(changes);
        Ok(())
    }

    /// Whether the next button is enabled.
    pub fn get_next_button_enabled(&self) -> (enabled: bool)
        ensures
            enabled == self@.player.state.can_go_next,
    {
        self.player.state().can_go_next()
    }

    /// Enables or disables the next button and publishes `CanGoNext`, and only that, at
    /// once.
    pub fn set_next_button_enabled(&mut self, enabled: bool) -> (result: Result<(), MediaError>)
        ensures
            result is Ok,
            final(self)@ == announced(
                old(self)@,
                StateView { can_go_next: enabled, ..old(self)@.player.state },
                PropertiesChangedView { can_go_next: Some(enabled), ..no_changes() },
            ),
    {
        self.player.state_mut().set_can_go_next(enabled);
        let mut changes = PropertiesChanged::new();
        changes.can_go_next = Some(enabled);
        self.publish(changes);
        Ok(())
    }

    /// Whether seeking is enabled.
    pub fn get_seek_enabled(&self) -> (enabled: bool)
        ensures
            enabled == self@.player.state.can_seek,
    {
        self.player.state().can_seek()
    }

    /// Enables or disables seeking and publishes `CanSeek`, and only that, at
    /// once.
    pub fn set_seek_enabled(&mut self, enabled: bool) -> (result: Result<(), MediaError>)
        ensures
            result is Ok,
            final(self)@ == announced(
                old(self)@,
                StateView { can_seek: enabled, ..old(self)@.player.state },
                PropertiesChangedView { can_seek: Some(enabled), ..no_changes() },
            ),
    {
        self.player.state_mut().set_can_seek(enabled);
        let mut changes = PropertiesChanged::new();
        changes.can_seek = Some(enabled);
        self.publish(changes);
        Ok(())
    }

    /// Whether the stop button is enabled. The bus has no property of its own
    /// for it: the button goes with control as a whole.
    pub fn get_stop_button_enabled(&self) -> (enabled: bool)
        ensures
            enabled == self@.player.state.can_control,
    {
        self.player.state().can_control()
    }

    /// Accepted and ignored: the stop button goes with control as a whole,
    /// which the host does not set.
    pub fn set_stop_button_enabled(&mut self, _enabled: bool) -> (result: Result<(), MediaError>)
        ensures
            result is Ok,
            final(self)@ == old(self)@,
    {
        Ok(())
    }

    /// The playback rate, in microseconds of media for each second.
    pub fn get_playback_rate(&self) -> (rate: i64)
        ensures
            rate == self@.player.state.playback_rate,
    {
        self.player.state().playback_rate()
    }

    /// Sets the playback rate and publishes `Rate`.
    pub fn set_playback_rate(&mut self, playback_rate: i64) -> (result: Result<(), MediaError>)
        ensures
            result is Ok,
            final(self)@ == announced(
                old(self)@,
                StateView { playback_rate: playback_rate as int, ..old(self)@.player.state },
                PropertiesChangedView { rate: Some(playback_rate as int), ..no_changes() },
            ),
    {
        self.player.state_mut().set_playback_rate(playback_rate);
        let mut changes = PropertiesChanged::new();
        changes.rate = Some(playback_rate);
        self.publish(changes);
        Ok(())
    }

    /// The playback status.
    pub fn get_playback_status(&self) -> (status: MediaPlayerPlaybackStatus)
        ensures
            status == self@.player.state.playback_status,
    {
        self.player.state().playback_status()
    }

    /// Sets the playback status and publishes `PlaybackStatus`. `Unknown` is
    /// turned away, changes nothing and publishes nothing.
    pub fn set_playback_status(&mut self, playback_status: MediaPlayerPlaybackStatus) -> (result:
        Result<(), MediaError>)
        ensures
            playback_status == MediaPlayerPlaybackStatus::Unknown ==> final(self)@ == old(self)@
                && result == Err::<(), MediaError>(
                MediaError::InvalidArgument(InvalidReason::UnknownPlaybackStatus),
            ),
            playback_status != MediaPlayerPlaybackStatus::Unknown ==> result is Ok && final(self)@
                == announced(
                old(self)@,
                StateView { playback_status: playback_status, ..old(self)@.player.state },
                PropertiesChangedView { playback_status: Some(playback_status), ..no_changes() },
            ),
    {
        match self.player.state_mut().set_playback_status(playback_status) {
            Err(error) => Err(error),
            Ok(()) => {
                let mut changes = PropertiesChanged::new();
                changes.playback_status = Some(playback_status);
                self.publish(changes);
                Ok(())
            },
        }
    }

    /// The kind of media.
    pub fn get_media_type(&self) -> (media_type: MediaPlayerMediaType)
        ensures
            media_type == self@.player.state.media_type,
    {
        self.player.state().media_type()
    }

    /// Sets the kind of media. The bus has no property for it, so nothing is
    /// queued. `Unknown` is turned away and changes nothing.
    pub fn set_media_type(&mut self, media_type: MediaPlayerMediaType) -> (result: Result<
        (),
        MediaError,
    >)
        ensures
            media_type == MediaPlayerMediaType::Unknown ==> final(self)@ == old(self)@ && result
                == Err::<(), MediaError>(
                MediaError::InvalidArgument(InvalidReason::UnknownMediaType),
            ),
            media_type != MediaPlayerMediaType::Unknown ==> result is Ok && final(self)@ == (
            MediaPlayerView {
                player: PlayerView {
                    state: StateView { media_type: media_type, ..old(self)@.player.state },
                    ..old(self)@.player
                },
                ..old(self)@
            }),
    {
        self.player.state_mut().set_media_type(media_type)
    }

    /// Reads the title of the track.
    pub fn get_title(&self) -> (text: String)
        ensures
            text@ == self@.player.state.title,
    {
        self.player.state().title().to_owned()
    }

    /// Sets the title of the track and publishes the whole metadata.
    pub fn set_title(&mut self, title: String) -> (result: Result<(), MediaError>)
        ensures
            result is Ok,
            ({
                let state = StateView { title: title@, ..old(self)@.player.state };
                final(self)@ == announced(old(self)@, state, metadata_change(state))
            }),
    {
        self.player.state_mut().set_title(title);
        self.publish_metadata();
        Ok(())
    }

    /// Reads the artist of the track.
    pub fn get_artist(&self) -> (text: String)
        ensures
            text@ == self@.player.state.artist,
    {
        self.player.state().artist().to_owned()
    }

    /// Sets the artist of the track and publishes the whole metadata.
    pub fn set_artist(&mut self, artist: String) -> (result: Result<(), MediaError>)
        ensures
            result is Ok,
            ({
                let state = StateView { artist: artist@, ..old(self)@.player.state };
                final(self)@ == announced(old(self)@, state, metadata_change(state))
            }),
    {
        self.player.state_mut().set_artist(artist);
        self.publish_metadata();
        Ok(())
    }

    /// Reads the title of the album.
    pub fn get_album_title(&self) -> (text: String)
        ensures
            text@ == self@.player.state.album_title,
    {
        self.player.state().album_title().to_owned()
    }

    /// Sets the title of the album and publishes the whole metadata.
    pub fn set_album_title(&mut self, album_title: String) -> (result: Result<(), MediaError>)
        ensures
            result is Ok,
            ({
                let state = StateView { album_title: album_title@, ..old(self)@.player.state };
                final(self)@ == announced(old(self)@, state, metadata_change(state))
            }),
    {
        self.player.state_mut().set_album_title(album_title);
        self.publish_metadata();
        Ok(())
    }

    /// Reads the identifier of the track.
    pub fn get_track_id(&self) -> (text: String)
        ensures
            text@ == self@.player.state.track_id,
    {
        self.player.state().track_id().to_owned()
    }

    /// Sets the identifier of the track and publishes the whole metadata.
    pub fn set_track_id(&mut self, track_id: String) -> (result: Result<(), MediaError>)
        ensures
            result is Ok,
            ({
                let state = StateView { track_id: track_id@, ..old(self)@.player.state };
                final(self)@ == announced(old(self)@, state, metadata_change(state))
            }),
    {
        self.player.state_mut().set_track_id(track_id);
        self.publish_metadata();
        Ok(())
    }
}

} // verus!
