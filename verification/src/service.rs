//! The media service: the session behind the interface that a host binding
//! calls, for each platform.
//!
//! Kinds and statuses cross this interface as numbers. A setter checks its
//! argument, changes the state, and queues the one update that the platform
//! takes for the change; an argument that is turned away changes nothing and
//! queues nothing. A getter answers from the state.

use crate::error::{InvalidReason, MediaError, MethodError};
use crate::events::Button;
use crate::kinds::{MediaPlayerMediaType, MediaPlayerPlaybackStatus, MediaPlayerThumbnailType};
use crate::platform::{
    display_update, flag_update, optional_view, publish_display, publish_flag, publish_status,
    publish_timeline, published, spec_timeline_from_seconds, status_update, timeline_from_seconds,
    timeline_update, update_views, Capability, MprisPlayerButtonCallback, Platform,
    PlatformUpdate, PlatformUpdateView, RemoteCommandButtonCallback,
};
use crate::router::{button_enabled, let_through, refusal};
use crate::session::{idle_session, DBusSession, SessionView};
use crate::state::{initial_state, metadata_of, MprisPlayerState, StateView};
use crate::text::spec_bus_name;
use vstd::prelude::*;
use vstd::string::*;

verus! {

/// What every media service offers to the host binding.
pub trait MediaServiceTrait: Send {
    fn is_enabled(&self) -> Result<bool, MediaError>;

    fn set_is_enabled(&mut self, enabled: bool) -> Result<(), MediaError>;

    fn is_play_enabled(&self) -> Result<bool, MediaError>;

    fn set_is_play_enabled(&mut self, enabled: bool) -> Result<(), MediaError>;

    fn is_pause_enabled(&self) -> Result<bool, MediaError>;

    fn set_is_pause_enabled(&mut self, enabled: bool) -> Result<(), MediaError>;

    fn is_previous_enabled(&self) -> Result<bool, MediaError>;

    fn set_is_previous_enabled(&mut self, enabled: bool) -> Result<(), MediaError>;

    fn is_next_enabled(&self) -> Result<bool, MediaError>;

    fn set_is_next_enabled(&mut self, enabled: bool) -> Result<(), MediaError>;

    fn get_media_type(&self) -> Result<i32, MediaError>;

    fn set_media_type(&mut self, media_type: i32) -> Result<(), MediaError>;

    fn get_playback_status(&self) -> Result<i32, MediaError>;

    fn set_playback_status(&mut self, status: i32) -> Result<(), MediaError>;

    fn get_artist(&self) -> Result<String, MediaError>;

    fn set_artist(&mut self, artist: String) -> Result<(), MediaError>;

    fn get_album_artist(&self) -> Result<String, MediaError>;

    fn set_album_artist(&mut self, album_artist: String) -> Result<(), MediaError>;

    fn get_album_title(&self) -> Result<String, MediaError>;

    fn set_album_title(&mut self, album_title: String) -> Result<(), MediaError>;

    fn get_title(&self) -> Result<String, MediaError>;

    fn set_title(&mut self, title: String) -> Result<(), MediaError>;

    fn get_track_id(&self) -> Result<String, MediaError>;

    fn set_track_id(&mut self, track_id: String) -> Result<(), MediaError>;

    fn set_thumbnail(&mut self, thumbnail_type: i32, thumbnail: String) -> Result<(), MediaError>;

    fn set_timeline(
        &mut self,
        start_time: u64,
        end_time: u64,
        position: u64,
        min_seek_time: u64,
        max_seek_time: u64,
    ) -> Result<(), MediaError>;

    fn set_button_pressed_callback(&mut self, callback: u64, channel: u64) -> Result<
        i64,
        MediaError,
    >;

    fn remove_button_pressed_callback(&mut self) -> Result<(), MediaError>;

    fn set_playback_position_change_callback(&mut self, callback: u64, channel: u64) -> Result<
        i64,
        MediaError,
    >;

    fn remove_playback_position_change_callback(&mut self) -> Result<(), MediaError>;
}

/// The token answered for a callback whose registration has no number of
/// the platform's own.
pub const NO_TOKEN: i64 = -1;

/// The media service of one session.
pub struct MediaService {
    platform: Platform,
    service_name: String,
    state: MprisPlayerState,
    button_callback: Option<MprisPlayerButtonCallback>,
    position_callback: Option<MprisPlayerButtonCallback>,
    outbox: Vec<PlatformUpdate>,
    session: DBusSession,
}

/// The media service as plain mathematical values.
pub struct ServiceView {
    /// The facility that the session talks to.
    pub platform: Platform,
    /// The name under which the session registers.
    pub service_name: Seq<char>,
    /// The state of the session.
    pub state: StateView,
    /// The callback for pressed buttons, if one is registered.
    pub button_callback: Option<MprisPlayerButtonCallback>,
    /// The callback for requested positions, if one is registered.
    pub position_callback: Option<MprisPlayerButtonCallback>,
    /// The updates that wait for the platform, oldest first.
    pub outbox: Seq<PlatformUpdateView>,
    /// The session's place on the bus, where the platform has one.
    pub session: SessionView,
}

/// Whether control as a whole is enabled from the start.
pub open spec fn default_control(platform: Platform) -> bool {
    platform == Platform::MacOs
}

/// Whether the platform can show a thumbnail of the kind.
pub open spec fn thumbnail_supported(platform: Platform, kind: MediaPlayerThumbnailType) -> bool {
    match kind {
        MediaPlayerThumbnailType::Unknown => false,
        MediaPlayerThumbnailType::File => platform != Platform::Windows,
        MediaPlayerThumbnailType::Uri => true,
    }
}

/// The session of a service that was just created: on the bus its name
/// waits to be registered.
pub open spec fn initial_session(platform: Platform, service_name: Seq<char>) -> SessionView {
    if platform == Platform::Linux {
        SessionView { register_queue: seq![spec_bus_name(service_name)], ..idle_session() }
    } else {
        idle_session()
    }
}

/// The service with another state, after the update for the change was
/// queued.
pub open spec fn service_changed(
    before: ServiceView,
    state: StateView,
    update: Option<PlatformUpdateView>,
) -> ServiceView {
    ServiceView { state: state, outbox: published(before.outbox, update), ..before }
}

/// The update for the display of a state.
pub open spec fn display_of(platform: Platform, state: StateView) -> Option<PlatformUpdateView> {
    display_update(platform, state.media_type, metadata_of(state))
}

/// The queue after the registration of a callback was given up, if there was
/// a callback.
pub open spec fn released(
    outbox: Seq<PlatformUpdateView>,
    callback: Option<MprisPlayerButtonCallback>,
) -> Seq<PlatformUpdateView> {
    match callback {
        Some(callback) => outbox.push(PlatformUpdateView::Released(callback)),
        None => outbox,
    }
}

/// The outcome of a button press on a service: the callback to invoke with
/// the button's name, nothing, or the error answered.
pub open spec fn service_button_routed(
    service: ServiceView,
    button: Button,
    outcome: Result<Option<MprisPlayerButtonCallback>, MethodError>,
) -> bool {
    if button_enabled(service.state, button) {
        outcome == Ok::<Option<MprisPlayerButtonCallback>, MethodError>(service.button_callback)
    } else {
        match refusal(button) {
            Some(text) => outcome matches Err(MethodError::Failed(said)) && said@ == text,
            None => outcome == Ok::<Option<MprisPlayerButtonCallback>, MethodError>(None),
        }
    }
}

impl View for MediaService {
    type V = ServiceView;

    closed spec fn view(&self) -> ServiceView {
        ServiceView {
            platform: self.platform,
            service_name: self.service_name@,
            state: self.state@,
            button_callback: self.button_callback,
            position_callback: self.position_callback,
            outbox: update_views(self.outbox@),
            session: self.session@,
        }
    }
}

impl MediaService {
    /// The service of a new session. No control is enabled but, where the
    /// platform says so, control as a whole; no callback is registered;
    /// nothing waits for the platform. On the bus the session's name is
    /// queued for registration.
    pub fn new(platform: Platform, service_name: String, identity: String) -> (service: MediaService)
        ensures
            service@ == (ServiceView {
                platform: platform,
                service_name: service_name@,
                state: initial_state(
                    identity@,
                    default_control(platform),
                    service@.state.last_updated_position,
                ),
                button_callback: None,
                position_callback: None,
                outbox: Seq::empty(),
                session: initial_session(platform, service_name@),
            }),
    {
        let can_control = match platform {
            Platform::MacOs => true,
            _ => false,
        };
        let mut session = DBusSession::new();
        match platform {
            Platform::Linux => {
                session.register(service_name.as_str());
                assert(session@.register_queue =~= seq![spec_bus_name(service_name@)]);
            },
            _ => {},
        }
        let service = MediaService {
            platform,
            service_name,
            state: MprisPlayerState::new(identity, can_control),
            button_callback: None,
            position_callback: None,
            outbox: Vec::new(),
            session,
        };
        assert(service@.outbox =~= Seq::empty());
        service
    }

    /// The facility that the session talks to.
    pub fn platform(&self) -> (platform: Platform)
        ensures
            platform == self@.platform,
    {
        self.platform
    }

    /// The state of the session.
    pub fn state(&self) -> (state: &MprisPlayerState)
        ensures
            state@ == self@.state,
    {
        &self.state
    }

    /// The session's place on the bus, for the pump thread to drive. The rest
    /// of the service stays as it is whatever the pump does.
    pub fn session_mut(&mut self) -> (session: &mut DBusSession)
        ensures
            session@ == old(self)@.session,
            final(self)@ == (ServiceView { session: final(session)@, ..old(self)@ }),
    {
        &mut self.session
    }

    /// How many updates wait for the platform.
    pub fn pending_updates(&self) -> (pending: usize)
        ensures
            pending == self@.outbox.len(),
    {
        self.outbox.len()
    }

    /// Takes the oldest update that waits for the platform, if one waits.
    pub fn next_update(&mut self) -> (update: Option<PlatformUpdate>)
        ensures
            old(self)@.outbox.len() == 0 ==> update is None && final(self)@ == old(self)@,
            old(self)@.outbox.len() > 0 ==> optional_view(update) == Some(old(self)@.outbox[0])
                && final(self)@ == (ServiceView {
                outbox: old(self)@.outbox.drop_first(),
                ..old(self)@
            }),
    {
        if self.outbox.len() == 0 {
            None
        } else {
            let update = self.outbox.remove(0);
            assert(self@.outbox =~= old(self)@.outbox.drop_first());
            Some(update)
        }
    }

    /// Ends the session: the registrations of both callbacks are given up and
    /// the pump is told to leave.
    pub fn finalize(&mut self)
        ensures
            final(self)@ == (ServiceView {
                button_callback: None,
                position_callback: None,
                outbox: released(
                    released(old(self)@.outbox, old(self)@.button_callback),
                    old(self)@.position_callback,
                ),
                session: SessionView { terminating: true, ..old(self)@.session },
                ..old(self)@
            }),
    {
        let button = self.button_callback.take();
        self.release(button);
        let position = self.position_callback.take();
        self.release(position);
        self.session.terminate();
    }

    /// Routes a button press: where the state lets the button through, the
    /// registered callback is to be invoked with the button's name;
    /// otherwise nothing happens, or the button is answered with its error.
    pub fn press(&self, button: Button) -> (outcome: Result<
        Option<MprisPlayerButtonCallback>,
        MethodError,
    >)
        ensures
            service_button_routed(self@, button, outcome),
    {
        match let_through(&self.state, button) {
            Err(error) => Err(error),
            Ok(true) => Ok(self.button_callback),
            Ok(false) => Ok(None),
        }
    }

    /// Routes a request for a position in microseconds: the registered
    /// callback is to be invoked with it unless it is below zero.
    pub fn position_requested(&self, position: i64) -> (callback: Option<MprisPlayerButtonCallback>)
        ensures
            callback == if position < 0 {
                None
            } else {
                self@.position_callback
            },
    {
        if position < 0 {
            None
        } else {
            self.position_callback
        }
    }

    /// Gives the registration of the button callback up; another spelling of
    /// `remove_button_pressed_callback`.
    pub fn remove_button_presed_callback(&mut self)
        ensures
            final(self)@ == (ServiceView {
                button_callback: None,
                outbox: released(old(self)@.outbox, old(self)@.button_callback),
                ..old(self)@
            }),
    {
        let previous = self.button_callback.take();
        self.release(previous);
    }

    fn publish(&mut self, update: Option<PlatformUpdate>)
        ensures
            final(self)@ == (ServiceView {
                outbox: published(old(self)@.outbox, optional_view(update)),
                ..old(self)@
            }),
    {
        match update {
            Some(update) => {
                self.outbox.push(update);
                assert(self@.outbox =~= old(self)@.outbox.push(update@));
            },
            None => {},
        }
    }

    fn release(&mut self, callback: Option<MprisPlayerButtonCallback>)
        ensures
            final(self)@ == (ServiceView {
                outbox: released(old(self)@.outbox, callback),
                ..old(self)@
            }),
    {
        match callback {
            Some(callback) => {
                self.outbox.push(PlatformUpdate::Released(callback));
                assert(self@.outbox =~= old(self)@.outbox.push(
                    PlatformUpdateView::Released(callback),
                ));
            },
            None => {},
        }
    }

    fn publish_current_display(&mut self)
        ensures
            final(self)@ == (ServiceView {
                outbox: published(old(self)@.outbox, display_of(old(self)@.platform, old(self)@.state)),
                ..old(self)@
            }),
    {
        let metadata = self.state.metadata();
        let update = publish_display(self.platform, self.state.media_type(), metadata);
        self.publish(update);
    }
}

/// Routes a remote command of the command centre to the callback registered
/// for it: one of the six transport commands goes to the callback, if there
/// is one, as its button; every other command goes nowhere.
pub fn rust_remote_command_handler(
    registered: Option<RemoteCommandButtonCallback>,
    command: &str,
) -> (routed: Option<(RemoteCommandButtonCallback, Button)>)
    ensures
        routed == match (registered, Button::spec_from_command(command@)) {
            (Some(callback), Some(button)) => Some((callback, button)),
            _ => None,
        },
{
    match registered {
        Some(callback) => match Button::from_command(command) {
            Some(button) => Some((callback, button)),
            None => None,
        },
        None => None,
    }
}

impl MediaServiceTrait for MediaService {
    /// Whether control as a whole is enabled.
    fn is_enabled(&self) -> (answer: Result<bool, MediaError>)
        ensures
            answer == Ok::<bool, MediaError>(self@.state.can_control),
    {
        Ok(self.state.can_control())
    }

    /// Enables or disables control as a whole.
    fn set_is_enabled(&mut self, enabled: bool) -> (result: Result<(), MediaError>)
        ensures
            result is Ok,
            final(self)@ == service_changed(
                old(self)@,
                StateView { can_control: enabled, ..old(self)@.state },
                flag_update(old(self)@.platform, Capability::Control, enabled),
            ),
    {
        self.state.set_can_control(enabled);
        let update = publish_flag(self.platform, Capability::Control, enabled);
        self.publish(update);
        Ok(())
    }

    /// Whether the play button is enabled.
    fn is_play_enabled(&self) -> (answer: Result<bool, MediaError>)
        ensures
            answer == Ok::<bool, MediaError>(self@.state.can_play),
    {
        Ok(self.state.can_play())
    }

    /// Enables or disables the play button.
    fn set_is_play_enabled(&mut self, enabled: bool) -> (result: Result<(), MediaError>)
        ensures
            result is Ok,
            final(self)@ == service_changed(
                old(self)@,
                StateView { can_play: enabled, ..old(self)@.state },
                flag_update(old(self)@.platform, Capability::Play, enabled),
            ),
    {
        self.state.set_can_play(enabled);
        let update = publish_flag(self.platform, Capability::Play, enabled);
        self.publish(update);
        Ok(())
    }

    /// Whether the pause button is enabled.
    fn is_pause_enabled(&self) -> (answer: Result<bool, MediaError>)
        ensures
            answer == Ok::<bool, MediaError>(self@.state.can_pause),
    {
        Ok(self.state.can_pause())
    }

    /// Enables or disables the pause button.
    fn set_is_pause_enabled(&mut self, enabled: bool) -> (result: Result<(), MediaError>)
        ensures
            result is Ok,
            final(self)@ == service_changed(
                old(self)@,
                StateView { can_pause: enabled, ..old(self)@.state },
                flag_update(old(self)@.platform, Capability::Pause, enabled),
            ),
    {
        self.state.set_can_pause(enabled);
        let update = publish_flag(self.platform, Capability::Pause, enabled);
        self.publish(update);
        Ok(())
    }

    /// Whether the previous button is enabled.
    fn is_previous_enabled(&self) -> (answer: Result<bool, MediaError>)
        ensures
            answer == Ok::<bool, MediaError>(self@.state.can_go_previous),
    {
        Ok(self.state.can_go_previous())
    }

    /// Enables or disables the previous button.
    fn set_is_previous_enabled(&mut self, enabled: bool) -> (result: Result<(), MediaError>)
        ensures
            result is Ok,
            final(self)@ == service_changed(
                old(self)@,
                StateView { can_go_previous: enabled, ..old(self)@.state },
                flag_update(old(self)@.platform, Capability::Previous, enabled),
            ),
    {
        self.state.set_can_go_previous(enabled);
        let update = publish_flag(self.platform, Capability::Previous, enabled);
        self.publish(update);
        Ok(())
    }

    /// Whether the next button is enabled.
    fn is_next_enabled(&self) -> (answer: Result<bool, MediaError>)
        ensures
            answer == Ok::<bool, MediaError>(self@.state.can_go_next),
    {
        Ok(self.state.can_go_next())
    }

    /// Enables or disables the next button.
    fn set_is_next_enabled(&mut self, enabled: bool) -> (result: Result<(), MediaError>)
        ensures
            result is Ok,
            final(self)@ == service_changed(
                old(self)@,
                StateView { can_go_next: enabled, ..old(self)@.state },
                flag_update(old(self)@.platform, Capability::Next, enabled),
            ),
    {
        self.state.set_can_go_next(enabled);
        let update = publish_flag(self.platform, Capability::Next, enabled);
        self.publish(update);
        Ok(())
    }

    /// The number of the kind of media.
    fn get_media_type(&self) -> (answer: Result<i32, MediaError>)
        ensures
            answer matches Ok(code) && code == self@.state.media_type.spec_code(),
    {
        Ok(self.state.media_type().code())
    }

    /// Sets the kind of media from its number. A number that stands for no
    /// kind, or for `Unknown`, is turned away and changes nothing.
    fn set_media_type(&mut self, media_type: i32) -> (result: Result<(), MediaError>)
        ensures
            ({
                let kind = MediaPlayerMediaType::spec_from_code(media_type as int);
                if kind == MediaPlayerMediaType::Unknown {
                    final(self)@ == old(self)@ && result == Err::<(), MediaError>(
                        MediaError::InvalidArgument(InvalidReason::UnknownMediaType),
                    )
                } else {
                    let state = StateView { media_type: kind, ..old(self)@.state };
                    result is Ok && final(self)@ == service_changed(
                        old(self)@,
                        state,
                        display_of(old(self)@.platform, state),
                    )
                }
            }),
    {
        let kind = MediaPlayerMediaType::from_code(media_type);
        match self.state.set_media_type(kind) {
            Err(error) => Err(error),
            Ok(()) => {
                self.publish_current_display();
                Ok(())
            },
        }
    }

    /// The number of the playback status.
    fn get_playback_status(&self) -> (answer: Result<i32, MediaError>)
        ensures
            answer matches Ok(code) && code == self@.state.playback_status.spec_code(),
    {
        Ok(self.state.playback_status().code())
    }

    /// Sets the playback status from its number. A number that stands for no
    /// status, or for `Unknown`, is turned away and changes nothing.
    fn set_playback_status(&mut self, status: i32) -> (result: Result<(), MediaError>)
        ensures
            ({
                let decoded = MediaPlayerPlaybackStatus::spec_from_code(status as int);
                if decoded == MediaPlayerPlaybackStatus::Unknown {
                    final(self)@ == old(self)@ && result == Err::<(), MediaError>(
                        MediaError::InvalidArgument(InvalidReason::UnknownPlaybackStatus),
                    )
                } else {
                    result is Ok && final(self)@ == service_changed(
                        old(self)@,
                        StateView { playback_status: decoded, ..old(self)@.state },
                        status_update(old(self)@.platform, decoded),
                    )
                }
            }),
    {
        let decoded = MediaPlayerPlaybackStatus::from_code(status);
        match self.state.set_playback_status(decoded) {
            Err(error) => Err(error),
            Ok(()) => {
                let update = publish_status(self.platform, decoded);
                self.publish(update);
                Ok(())
            },
        }
    }

    /// Reads the artist of the track.
    fn get_artist(&self) -> (answer: Result<String, MediaError>)
        ensures
            answer matches Ok(text) && text@ == self@.state.artist,
    {
        Ok(self.state.artist().to_owned())
    }

    /// Sets the artist of the track and publishes the whole display again.
    fn set_artist(&mut self, artist: String) -> (result: Result<(), MediaError>)
        ensures
            result is Ok,
            ({
                let state = StateView { artist: artist@, ..old(self)@.state };
                final(self)@ == service_changed(
                    old(self)@,
                    state,
                    display_of(old(self)@.platform, state),
                )
            }),
    {
        self.state.set_artist(artist);
        self.publish_current_display();
        Ok(())
    }

    /// Reads the artist of the album.
    fn get_album_artist(&self) -> (answer: Result<String, MediaError>)
        ensures
            answer matches Ok(text) && text@ == self@.state.album_artist,
    {
        Ok(self.state.album_artist().to_owned())
    }

    /// Sets the artist of the album and publishes the whole display again.
    fn set_album_artist(&mut self, album_artist: String) -> (result: Result<(), MediaError>)
        ensures
            result is Ok,
            ({
                let state = StateView { album_artist: album_artist@, ..old(self)@.state };
                final(self)@ == service_changed(
                    old(self)@,
                    state,
                    display_of(old(self)@.platform, state),
                )
            }),
    {
        self.state.set_album_artist(album_artist);
        self.publish_current_display();
        Ok(())
    }

    /// Reads the title of the album.
    fn get_album_title(&self) -> (answer: Result<String, MediaError>)
        ensures
            answer matches Ok(text) && text@ == self@.state.album_title,
    {
        Ok(self.state.album_title().to_owned())
    }

    /// Sets the title of the album and publishes the whole display again.
    fn set_album_title(&mut self, album_title: String) -> (result: Result<(), MediaError>)
        ensures
            result is Ok,
            ({
                let state = StateView { album_title: album_title@, ..old(self)@.state };
                final(self)@ == service_changed(
                    old(self)@,
                    state,
                    display_of(old(self)@.platform, state),
                )
            }),
    {
        self.state.set_album_title(album_title);
        self.publish_current_display();
        Ok(())
    }

    /// Reads the title of the track.
    fn get_title(&self) -> (answer: Result<String, MediaError>)
        ensures
            answer matches Ok(text) && text@ == self@.state.title,
    {
        Ok(self.state.title().to_owned())
    }

    /// Sets the title of the track and publishes the whole display again.
    fn set_title(&mut self, title: String) -> (result: Result<(), MediaError>)
        ensures
            result is Ok,
            ({
                let state = StateView { title: title@, ..old(self)@.state };
                final(self)@ == service_changed(
                    old(self)@,
                    state,
                    display_of(old(self)@.platform, state),
                )
            }),
    {
        self.state.set_title(title);
        self.publish_current_display();
        Ok(())
    }

    /// Reads the identifier of the track.
    fn get_track_id(&self) -> (answer: Result<String, MediaError>)
        ensures
            answer matches Ok(text) && text@ == self@.state.track_id,
    {
        Ok(self.state.track_id().to_owned())
    }

    /// Sets the identifier of the track and publishes the whole display again.
    fn set_track_id(&mut self, track_id: String) -> (result: Result<(), MediaError>)
        ensures
            result is Ok,
            ({
                let state = StateView { track_id: track_id@, ..old(self)@.state };
                final(self)@ == service_changed(
                    old(self)@,
                    state,
                    display_of(old(self)@.platform, state),
                )
            }),
    {
        self.state.set_track_id(track_id);
        self.publish_current_display();
        Ok(())
    }

    /// Sets the thumbnail from the number of its kind and a file path or an
    /// address, which is kept as it was given, and publishes the whole
    /// display again. A kind that the platform cannot show is turned away
    /// with its number and changes nothing.
    fn set_thumbnail(&mut self, thumbnail_type: i32, thumbnail: String) -> (result: Result<
        (),
        MediaError,
    >)
        ensures
            ({
                let kind = MediaPlayerThumbnailType::spec_from_code(thumbnail_type as int);
                if thumbnail_supported(old(self)@.platform, kind) {
                    let state = StateView { thumbnail: thumbnail@, ..old(self)@.state };
                    result is Ok && final(self)@ == service_changed(
                        old(self)@,
                        state,
                        display_of(old(self)@.platform, state),
                    )
                } else {
                    final(self)@ == old(self)@ && result == Err::<(), MediaError>(
                        MediaError::InvalidArgument(
                            InvalidReason::UnsupportedThumbnailType(thumbnail_type),
                        ),
                    )
                }
            }),
    {
        let kind = MediaPlayerThumbnailType::from_code(thumbnail_type);
        let supported = match kind {
            MediaPlayerThumbnailType::Unknown => false,
            MediaPlayerThumbnailType::File => match self.platform {
                Platform::Windows => false,
                _ => true,
            },
            MediaPlayerThumbnailType::Uri => true,
        };
        if !supported {
            return Err(
                MediaError::InvalidArgument(
                    InvalidReason::UnsupportedThumbnailType(thumbnail_type),
                ),
            );
        }
        self.state.set_thumbnail(thumbnail);
        self.publish_current_display();
        Ok(())
    }

    /// Publishes a timeline given as five points in whole seconds, where the
    /// platform has a timeline. The state keeps no trace of it.
    fn set_timeline(
        &mut self,
        start_time: u64,
        end_time: u64,
        position: u64,
        min_seek_time: u64,
        max_seek_time: u64,
    ) -> (result: Result<(), MediaError>)
        ensures
            result is Ok,
            final(self)@ == service_changed(
                old(self)@,
                old(self)@.state,
                timeline_update(
                    old(self)@.platform,
                    spec_timeline_from_seconds(
                        start_time as int,
                        end_time as int,
                        position as int,
                        min_seek_time as int,
                        max_seek_time as int,
                    ),
                ),
            ),
    {
        let properties = timeline_from_seconds(
            start_time,
            end_time,
            position,
            min_seek_time,
            max_seek_time,
        );
        let update = publish_timeline(self.platform, properties);
        self.publish(update);
        Ok(())
    }

    /// Registers the callback for pressed buttons in place of the one
    /// registered before, whose registration is given up first.
    fn set_button_pressed_callback(&mut self, callback: u64, channel: u64) -> (token: Result<
        i64,
        MediaError,
    >)
        ensures
            token == Ok::<i64, MediaError>(NO_TOKEN),
            final(self)@ == (ServiceView {
                button_callback: Some(
                    MprisPlayerButtonCallback { callback: callback, channel: channel },
                ),
                outbox: released(old(self)@.outbox, old(self)@.button_callback),
                ..old(self)@
            }),
    {
        let previous = self.button_callback.take();
        self.release(previous);
        self.button_callback = Some(MprisPlayerButtonCallback { callback, channel });
        Ok(NO_TOKEN)
    }

    /// Gives the registration of the callback for pressed buttons up.
    fn remove_button_pressed_callback(&mut self) -> (result: Result<(), MediaError>)
        ensures
            result is Ok,
            final(self)@ == (ServiceView {
                button_callback: None,
                outbox: released(old(self)@.outbox, old(self)@.button_callback),
                ..old(self)@
            }),
    {
        let previous = self.button_callback.take();
        self.release(previous);
        Ok(())
    }

    /// Registers the callback for requested positions in place of the one
    /// registered before, whose registration is given up first.
    fn set_playback_position_change_callback(&mut self, callback: u64, channel: u64) -> (token:
        Result<i64, MediaError>)
        ensures
            token == Ok::<i64, MediaError>(NO_TOKEN),
            final(self)@ == (ServiceView {
                position_callback: Some(
                    MprisPlayerButtonCallback { callback: callback, channel: channel },
                ),
                outbox: released(old(self)@.outbox, old(self)@.position_callback),
                ..old(self)@
            }),
    {
        let previous = self.position_callback.take();
        self.release(previous);
        self.position_callback = Some(MprisPlayerButtonCallback { callback, channel });
        Ok(NO_TOKEN)
    }

    /// Gives the registration of the callback for requested positions up.
    fn remove_playback_position_change_callback(&mut self) -> (result: Result<(), MediaError>)
        ensures
            result is Ok,
            final(self)@ == (ServiceView {
                position_callback: None,
                outbox: released(old(self)@.outbox, old(self)@.position_callback),
                ..old(self)@
            }),
    {
        let previous = self.position_callback.take();
        self.release(previous);
        Ok(())
    }
}

} // verus!
