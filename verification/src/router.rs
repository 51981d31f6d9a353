//! The player as the bus sees it: the methods and properties of the two
//! player interfaces, answered from the session's state, and the routing of
//! remote-control requests to the listeners of the host.
//!
//! A request that is routed becomes one delivery for each listener of its
//! class. A request that the state does not allow is either dropped without
//! a word (play, pause, next, previous, seek, set-position) or answered with
//! an error (stop, play-pause): which of the two is part of the interface.

use crate::error::MethodError;
use crate::events::{Button, Delivery, EventKind, HostEvent};
use crate::listeners::{delivered_once, entry_of, ListenerTable};
use crate::publish::{spec_status_name, status_name, Metadata};
use crate::state::{metadata_of, MprisPlayerState, StateView};
use crate::text::{spec_track_path, text_eq, track_path};
use crate::timeline::MICROS_PER_SECOND;
use vstd::prelude::*;
use vstd::string::*;

verus! {

/// The state of a session together with the listeners of the host.
pub struct MprisPlayer {
    button_pressed_listeners: ListenerTable,
    playback_position_changed_listeners: ListenerTable,
    playback_position_seeked_listeners: ListenerTable,
    state: MprisPlayerState,
}

/// The player as plain mathematical values.
pub struct PlayerView {
    pub button_pressed: Map<usize, u64>,
    pub position_changed: Map<usize, u64>,
    pub position_seeked: Map<usize, u64>,
    pub state: StateView,
}

/// The listeners of one class of events.
pub open spec fn listeners_of(player: PlayerView, kind: EventKind) -> Map<usize, u64> {
    match kind {
        EventKind::ButtonPressed => player.button_pressed,
        EventKind::PositionChanged => player.position_changed,
        EventKind::PositionSeeked => player.position_seeked,
    }
}

/// The player with other listeners for one class of events.
pub open spec fn with_listeners(
    player: PlayerView,
    kind: EventKind,
    listeners: Map<usize, u64>,
) -> PlayerView {
    match kind {
        EventKind::ButtonPressed => PlayerView { button_pressed: listeners, ..player },
        EventKind::PositionChanged => PlayerView { position_changed: listeners, ..player },
        EventKind::PositionSeeked => PlayerView { position_seeked: listeners, ..player },
    }
}

/// Whether the state lets a button through.
pub open spec fn button_enabled(state: StateView, button: Button) -> bool {
    match button {
        Button::Play => state.can_play,
        Button::Pause => state.can_pause,
        Button::PlayPause => state.can_pause,
        Button::Stop => state.can_control,
        Button::Next => state.can_go_next,
        Button::Previous => state.can_go_previous,
        _ => false,
    }
}

/// What a button that is not let through is answered with: nothing for most,
/// an error for stop and play-pause.
pub open spec fn refusal(button: Button) -> Option<Seq<char>> {
    match button {
        Button::PlayPause => Some("This media player cannot be paused"@),
        Button::Stop => Some("This media player cannot be controlled"@),
        _ => None,
    }
}

/// The answer to a button before anybody is told of it: `Ok(true)` where the
/// state lets it through, `Ok(false)` where it is dropped without a word,
/// and the error where it is refused.
pub open spec fn button_decision(
    state: StateView,
    button: Button,
    decision: Result<bool, MethodError>,
) -> bool {
    if button_enabled(state, button) {
        decision == Ok::<bool, MethodError>(true)
    } else {
        match refusal(button) {
            Some(text) => decision matches Err(MethodError::Failed(said)) && said@ == text,
            None => decision == Ok::<bool, MethodError>(false),
        }
    }
}

/// The outcome of a button press: the deliveries made, or the error answered.
pub open spec fn button_routed(
    player: PlayerView,
    button: Button,
    outcome: Result<Vec<Delivery>, MethodError>,
) -> bool {
    if button_enabled(player.state, button) {
        outcome matches Ok(deliveries) && delivered_once(
            deliveries@,
            player.button_pressed,
            HostEvent::Button(button),
        )
    } else {
        match refusal(button) {
            Some(text) => outcome matches Err(MethodError::Failed(said)) && said@ == text,
            None => outcome matches Ok(deliveries) && deliveries@.len() == 0,
        }
    }
}

/// Whether a request to set the position is let through: seeking is enabled,
/// the position lies on the timeline, and the request names the track that
/// is published now.
pub open spec fn position_request_accepted(state: StateView, track: Seq<char>, position: int) -> bool {
    &&& state.can_seek
    &&& 0 <= position <= state.duration
    &&& track == spec_track_path(state.track_id)
}

impl View for MprisPlayer {
    type V = PlayerView;

    closed spec fn view(&self) -> PlayerView {
        PlayerView {
            button_pressed: self.button_pressed_listeners@,
            position_changed: self.playback_position_changed_listeners@,
            position_seeked: self.playback_position_seeked_listeners@,
            state: self.state@,
        }
    }
}

/// Decides whether the state lets a button through, drops it, or refuses it.
pub fn let_through(state: &MprisPlayerState, button: Button) -> (decision: Result<bool, MethodError>)
    ensures
        button_decision(state@, button, decision),
{
    let enabled = match button {
        Button::Play => state.can_play(),
        Button::Pause => state.can_pause(),
        Button::PlayPause => state.can_pause(),
        Button::Stop => state.can_control(),
        Button::Next => state.can_go_next(),
        Button::Previous => state.can_go_previous(),
        _ => false,
    };
    if enabled {
        Ok(true)
    } else {
        match button {
            Button::PlayPause => Err(
                MethodError::Failed("This media player cannot be paused".to_owned()),
            ),
            Button::Stop => Err(
                MethodError::Failed("This media player cannot be controlled".to_owned()),
            ),
            _ => Ok(false),
        }
    }
}

impl MprisPlayer {
    /// A player without listeners around the given state.
    pub fn new(state: MprisPlayerState) -> (player: MprisPlayer)
        ensures
            player@ == (PlayerView {
                button_pressed: Map::empty(),
                position_changed: Map::empty(),
                position_seeked: Map::empty(),
                state: state@,
            }),
    {
        MprisPlayer {
            button_pressed_listeners: ListenerTable::new(),
            playback_position_changed_listeners: ListenerTable::new(),
            playback_position_seeked_listeners: ListenerTable::new(),
            state,
        }
    }

    /// The state of the session.
    pub fn state(&self) -> (state: &MprisPlayerState)
        ensures
            state@ == self@.state,
    {
        &self.state
    }

    /// The state of the session, to be changed. The listeners stay as they
    /// are whatever is done to the state.
    pub fn state_mut(&mut self) -> (state: &mut MprisPlayerState)
        ensures
            state@ == old(self)@.state,
            final(self)@ == (PlayerView { state: final(state)@, ..old(self)@ }),
    {
        &mut self.state
    }

    /// Registers a listener for a class of events unless its identity is
    /// registered for that class already, and says whether it was added.
    pub fn add_listener(&mut self, kind: EventKind, identity: usize, handle: u64) -> (added: bool)
        ensures
            added == !listeners_of(old(self)@, kind).dom().contains(identity),
            added ==> final(self)@ == with_listeners(
                old(self)@,
                kind,
                listeners_of(old(self)@, kind).insert(identity, handle),
            ),
            !added ==> final(self)@ == old(self)@,
    {
        match kind {
            EventKind::ButtonPressed => self.button_pressed_listeners.add(identity, handle),
            EventKind::PositionChanged => self.playback_position_changed_listeners.add(
                identity,
                handle,
            ),
            EventKind::PositionSeeked => self.playback_position_seeked_listeners.add(
                identity,
                handle,
            ),
        }
    }

    /// Removes the listener registered under the identity for a class of
    /// events, if there is one, and hands its handle back.
    pub fn remove_listener(&mut self, kind: EventKind, identity: usize) -> (removed: Option<u64>)
        ensures
            removed == entry_of(listeners_of(old(self)@, kind), identity),
            final(self)@ == with_listeners(
                old(self)@,
                kind,
                listeners_of(old(self)@, kind).remove(identity),
            ),
            removed is None ==> final(self)@ == old(self)@,
    {
        match kind {
            EventKind::ButtonPressed => self.button_pressed_listeners.remove(identity),
            EventKind::PositionChanged => self.playback_position_changed_listeners.remove(identity),
            EventKind::PositionSeeked => self.playback_position_seeked_listeners.remove(identity),
        }
    }

    /// Removes every listener of every class.
    pub fn clear_listeners(&mut self)
        ensures
            final(self)@ == (PlayerView {
                button_pressed: Map::empty(),
                position_changed: Map::empty(),
                position_seeked: Map::empty(),
                state: old(self)@.state,
            }),
    {
        self.button_pressed_listeners.clear();
        self.playback_position_changed_listeners.clear();
        self.playback_position_seeked_listeners.clear();
    }

    /// Routes a button press: one delivery for each button listener where the
    /// state lets the button through; otherwise nothing, or the error that
    /// the button is answered with.
    pub fn press(&self, button: Button) -> (outcome: Result<Vec<Delivery>, MethodError>)
        ensures
            button_routed(self@, button, outcome),
    {
        match let_through(&self.state, button) {
            Err(error) => Err(error),
            Ok(true) => Ok(self.button_pressed_listeners.dispatch(HostEvent::Button(button))),
            Ok(false) => Ok(Vec::new()),
        }
    }

    /// `Next`: skips to the next track.
    pub fn next(&self) -> (outcome: Result<Vec<Delivery>, MethodError>)
        ensures
            button_routed(self@, Button::Next, outcome),
    {
        self.press(Button::Next)
    }

    /// `Previous`: skips to the previous track.
    pub fn previous(&self) -> (outcome: Result<Vec<Delivery>, MethodError>)
        ensures
            button_routed(self@, Button::Previous, outcome),
    {
        self.press(Button::Previous)
    }

    /// `Pause`: pauses playback.
    pub fn pause(&self) -> (outcome: Result<Vec<Delivery>, MethodError>)
        ensures
            button_routed(self@, Button::Pause, outcome),
    {
        self.press(Button::Pause)
    }

    /// `PlayPause`: pauses or resumes playback.
    pub fn play_pause(&self) -> (outcome: Result<Vec<Delivery>, MethodError>)
        ensures
            button_routed(self@, Button::PlayPause, outcome),
    {
        self.press(Button::PlayPause)
    }

    /// `Stop`: stops playback.
    pub fn stop(&self) -> (outcome: Result<Vec<Delivery>, MethodError>)
        ensures
            button_routed(self@, Button::Stop, outcome),
    {
        self.press(Button::Stop)
    }

    /// `Play`: starts or resumes playback.
    pub fn play(&self) -> (outcome: Result<Vec<Delivery>, MethodError>)
        ensures
            button_routed(self@, Button::Play, outcome),
    {
        self.press(Button::Play)
    }

    /// `Seek`: asks to move the position by `offset` microseconds. Where
    /// seeking is enabled every seek listener is told the offset; otherwise
    /// nobody is told anything.
    pub fn seek(&self, offset: i64) -> (outcome: Result<Vec<Delivery>, MethodError>)
        ensures
            outcome matches Ok(deliveries) && if self@.state.can_seek {
                delivered_once(
                    deliveries@,
                    self@.position_seeked,
                    HostEvent::PositionSeeked(offset),
                )
            } else {
                deliveries@.len() == 0
            },
    {
        if self.state.can_seek() {
            Ok(self.playback_position_seeked_listeners.dispatch(HostEvent::PositionSeeked(offset)))
        } else {
            Ok(Vec::new())
        }
    }

    /// `SetPosition`: asks for a position in microseconds on the track with
    /// the given object path. The request is dropped where seeking is not
    /// enabled, where the position is below zero or behind the end of the
    /// timeline, and where the path is not that of the track published now.
    /// Otherwise every position listener is told the position.
    pub fn set_position(&self, track_id: &str, position: i64) -> (outcome: Result<
        Vec<Delivery>,
        MethodError,
    >)
        ensures
            outcome matches Ok(deliveries) && if position_request_accepted(
                self@.state,
                track_id@,
                position as int,
            ) {
                delivered_once(
                    deliveries@,
                    self@.position_changed,
                    HostEvent::PositionChanged(position),
                )
            } else {
                deliveries@.len() == 0
            },
    {
        if !self.state.can_seek() {
            return Ok(Vec::new());
        }
        if position < 0 {
            return Ok(Vec::new());
        }
        if position > self.state.duration() {
            return Ok(Vec::new());
        }
        let published = track_path(self.state.track_id());
        if !text_eq(track_id, published.as_str()) {
            return Ok(Vec::new());
        }
        Ok(self.playback_position_changed_listeners.dispatch(HostEvent::PositionChanged(position)))
    }

    /// `Raise`: accepted and ignored.
    pub fn raise(&mut self) -> (outcome: Result<(), MethodError>)
        ensures
            outcome is Ok,
            final(self)@ == old(self)@,
    {
        Ok(())
    }

    /// `Quit`: accepted and ignored.
    pub fn quit(&mut self) -> (outcome: Result<(), MethodError>)
        ensures
            outcome is Ok,
            final(self)@ == old(self)@,
    {
        Ok(())
    }

    /// `OpenUri`: not supported.
    pub fn open_uri(&mut self, _uri: String) -> (outcome: Result<(), MethodError>)
        ensures
            outcome matches Err(MethodError::Failed(said)) && said@ == "OpenUri is not supported"@,
            final(self)@ == old(self)@,
    {
        Err(MethodError::Failed("OpenUri is not supported".to_owned()))
    }

    /// `CanQuit`: always `false`.
    pub fn can_quit(&self) -> (answer: Result<bool, MethodError>)
        ensures
            answer == Ok::<bool, MethodError>(false),
    {
        Ok(false)
    }

    /// `Fullscreen`: always `false`.
    pub fn fullscreen(&self) -> (answer: Result<bool, MethodError>)
        ensures
            answer == Ok::<bool, MethodError>(false),
    {
        Ok(false)
    }

    /// `CanSetFullscreen`: always `false`.
    pub fn can_set_fullscreen(&self) -> (answer: Result<bool, MethodError>)
        ensures
            answer == Ok::<bool, MethodError>(false),
    {
        Ok(false)
    }

    /// `CanRaise`: always `false`.
    pub fn can_raise(&self) -> (answer: Result<bool, MethodError>)
        ensures
            answer == Ok::<bool, MethodError>(false),
    {
        Ok(false)
    }

    /// `HasTrackList`: always `false`.
    pub fn has_track_list(&self) -> (answer: Result<bool, MethodError>)
        ensures
            answer == Ok::<bool, MethodError>(false),
    {
        Ok(false)
    }

    /// Setting `Fullscreen`: always refused.
    pub fn set_fullscreen(&self, _value: bool) -> (outcome: Result<(), MethodError>)
        ensures
            outcome matches Err(MethodError::Failed(said)) && said@ == "Fullscreen cannot be set"@,
    {
        Err(MethodError::Failed("Fullscreen cannot be set".to_owned()))
    }

    /// `Identity`: the name under which the session is shown.
    pub fn identity(&self) -> (answer: Result<String, MethodError>)
        ensures
            answer matches Ok(identity) && identity@ == self@.state.identity,
    {
        Ok(self.state.identity().to_owned())
    }

    /// `DesktopEntry`: there is none.
    pub fn desktop_entry(&self) -> (answer: Result<String, MethodError>)
        ensures
            answer matches Err(MethodError::NoProperty(said)) && said@
                == "DesktopEntry is not implemented"@,
    {
        Err(MethodError::NoProperty("DesktopEntry is not implemented".to_owned()))
    }

    /// `SupportedUriSchemes`: none.
    pub fn supported_uri_schemes(&self) -> (answer: Result<Vec<String>, MethodError>)
        ensures
            answer matches Ok(schemes) && schemes@.len() == 0,
    {
        Ok(Vec::new())
    }

    /// `SupportedMimeTypes`: none.
    pub fn supported_mime_types(&self) -> (answer: Result<Vec<String>, MethodError>)
        ensures
            answer matches Ok(types) && types@.len() == 0,
    {
        Ok(Vec::new())
    }

    /// `PlaybackStatus`: the bus name of the status; a status that is not
    /// known reads as stopped.
    pub fn playback_status(&self) -> (answer: Result<String, MethodError>)
        ensures
            answer matches Ok(name) && name@ == spec_status_name(self@.state.playback_status),
    {
        Ok(status_name(self.state.playback_status()))
    }

    /// `LoopStatus`: there is none.
    pub fn loop_status(&self) -> (answer: Result<String, MethodError>)
        ensures
            answer matches Err(MethodError::NoProperty(said)) && said@
                == "LoopStatus is not implemented"@,
    {
        Err(MethodError::NoProperty("LoopStatus is not implemented".to_owned()))
    }

    /// Setting `LoopStatus`: there is none.
    pub fn set_loop_status(&self, _value: String) -> (outcome: Result<(), MethodError>)
        ensures
            outcome matches Err(MethodError::NoProperty(said)) && said@
                == "LoopStatus is not implemented"@,
    {
        Err(MethodError::NoProperty("LoopStatus is not implemented".to_owned()))
    }

    /// `Shuffle`: there is none.
    pub fn shuffle(&self) -> (answer: Result<bool, MethodError>)
        ensures
            answer matches Err(MethodError::NoProperty(said)) && said@
                == "Shuffle is not implemented"@,
    {
        Err(MethodError::NoProperty("Shuffle is not implemented".to_owned()))
    }

    /// Setting `Shuffle`: there is none.
    pub fn set_shuffle(&self, _value: bool) -> (outcome: Result<(), MethodError>)
        ensures
            outcome matches Err(MethodError::NoProperty(said)) && said@
                == "Shuffle is not implemented"@,
    {
        Err(MethodError::NoProperty("Shuffle is not implemented".to_owned()))
    }

    /// `Rate`: always 1, in microseconds of media for each second.
    pub fn rate(&self) -> (answer: Result<i64, MethodError>)
        ensures
            answer == Ok::<i64, MethodError>(MICROS_PER_SECOND),
    {
        Ok(MICROS_PER_SECOND)
    }

    /// `MinimumRate`: always 1, in microseconds of media for each second.
    pub fn minimum_rate(&self) -> (answer: Result<i64, MethodError>)
        ensures
            answer == Ok::<i64, MethodError>(MICROS_PER_SECOND),
    {
        Ok(MICROS_PER_SECOND)
    }

    /// `MaximumRate`: always 1, in microseconds of media for each second.
    pub fn maximum_rate(&self) -> (answer: Result<i64, MethodError>)
        ensures
            answer == Ok::<i64, MethodError>(MICROS_PER_SECOND),
    {
        Ok(MICROS_PER_SECOND)
    }

    /// Setting `Rate`: accepted and ignored.
    pub fn set_rate(&self, _value: i64) -> (outcome: Result<(), MethodError>)
        ensures
            outcome is Ok,
    {
        Ok(())
    }

    /// `Metadata`: the metadata of the track, with the duration as length.
    pub fn metadata(&self) -> (answer: Result<Metadata, MethodError>)
        ensures
            answer matches Ok(metadata) && metadata@ == metadata_of(self@.state),
    {
        Ok(self.state.metadata())
    }

    /// `Volume`, in millionths of full volume.
    pub fn volume(&self) -> (answer: Result<i64, MethodError>)
        ensures
            answer == Ok::<i64, MethodError>(self@.state.volume as i64),
            self@.state.volume == self@.state.volume as i64,
    {
        Ok(self.state.volume())
    }

    /// Setting `Volume`, in millionths of full volume.
    pub fn set_volume(&mut self, value: i64) -> (outcome: Result<(), MethodError>)
        ensures
            outcome is Ok,
            final(self)@ == (PlayerView {
                state: StateView { volume: value as int, ..old(self)@.state },
                ..old(self)@
            }),
    {
        self.state.set_volume(value);
        Ok(())
    }

    /// `Position`, in microseconds: never below zero, and never behind the
    /// end of the track.
    pub fn position(&self) -> (answer: Result<i64, MethodError>)
        ensures
            answer == Ok::<i64, MethodError>(self@.state.position as i64),
            self@.state.position == self@.state.position as i64,
            0 <= self@.state.position <= self@.state.duration,
    {
        Ok(self.state.position())
    }

    /// `CanGoNext`.
    pub fn can_go_next(&self) -> (answer: Result<bool, MethodError>)
        ensures
            answer == Ok::<bool, MethodError>(self@.state.can_go_next),
    {
        Ok(self.state.can_go_next())
    }

    /// `CanGoPrevious`.
    pub fn can_go_previous(&self) -> (answer: Result<bool, MethodError>)
        ensures
            answer == Ok::<bool, MethodError>(self@.state.can_go_previous),
    {
        Ok(self.state.can_go_previous())
    }

    /// `CanPlay`.
    pub fn can_play(&self) -> (answer: Result<bool, MethodError>)
        ensures
            answer == Ok::<bool, MethodError>(self@.state.can_play),
    {
        Ok(self.state.can_play())
    }

    /// `CanPause`.
    pub fn can_pause(&self) -> (answer: Result<bool, MethodError>)
        ensures
            answer == Ok::<bool, MethodError>(self@.state.can_pause),
    {
        Ok(self.state.can_pause())
    }

    /// `CanSeek`.
    pub fn can_seek(&self) -> (answer: Result<bool, MethodError>)
        ensures
            answer == Ok::<bool, MethodError>(self@.state.can_seek),
    {
        Ok(self.state.can_seek())
    }

    /// `CanControl`.
    pub fn can_control(&self) -> (answer: Result<bool, MethodError>)
        ensures
            answer == Ok::<bool, MethodError>(self@.state.can_control),
    {
        Ok(self.state.can_control())
    }
}

} // verus!
