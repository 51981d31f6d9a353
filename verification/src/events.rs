//! What the operating system asks of a session and what the host is told:
//! the buttons, the classes of events a listener registers for, and one
//! delivery to one listener.

use crate::text::text_eq;
use vstd::prelude::*;
use vstd::string::*;

verus! {

/// A button of the system's media controls.
#[derive(Clone, Copy, Debug, PartialEq, Eq, Structural)]
pub enum Button {
    Play,
    Pause,
    Stop,
    PlayPause,
    Next,
    Previous,
    Record,
    FastForward,
    Rewind,
    ChannelUp,
    ChannelDown,
}

/// A class of events that the host can listen to.
#[derive(Clone, Copy, Debug, PartialEq, Eq, Structural)]
pub enum EventKind {
    /// `buttonpressed`: a button of the media controls was pressed.
    ButtonPressed,
    /// `positionchanged`: the system asks for a new playback position.
    PositionChanged,
    /// `positionseeked`: the system asks to move forward or backward from the
    /// current position.
    PositionSeeked,
}

/// What a listener is told. Times are in microseconds.
#[derive(Clone, Copy, Debug, PartialEq, Eq, Structural)]
pub enum HostEvent {
    /// A button was pressed; the host receives the button's name.
    Button(Button),
    /// The position asked for.
    PositionChanged(i64),
    /// The offset asked for, from the current position.
    PositionSeeked(i64),
}

/// One invocation of one listener of the host.
#[derive(Clone, Copy, Debug, PartialEq, Eq, Structural)]
pub struct Delivery {
    /// The identity under which the listener was registered.
    pub listener: usize,
    /// The handle through which the listener is reached.
    pub handle: u64,
    /// What the listener is told.
    pub event: HostEvent,
}

impl Button {
    /// The text that the host receives for a button.
    pub open spec fn spec_name(self) -> Seq<char> {
        match self {
            Button::Play => "play"@,
            Button::Pause => "pause"@,
            Button::Stop => "stop"@,
            Button::PlayPause => "playpause"@,
            Button::Next => "next"@,
            Button::Previous => "previous"@,
            Button::Record => "record"@,
            Button::FastForward => "fastforward"@,
            Button::Rewind => "rewind"@,
            Button::ChannelUp => "channelup"@,
            Button::ChannelDown => "channeldown"@,
        }
    }

    /// The button that a remote command names. Only the six transport
    /// commands are known; the texts are looked at in this order.
    pub open spec fn spec_from_command(command: Seq<char>) -> Option<Button> {
        if command == "pause"@ {
            Some(Button::Pause)
        } else if command == "play"@ {
            Some(Button::Play)
        } else if command == "stop"@ {
            Some(Button::Stop)
        } else if command == "playpause"@ {
            Some(Button::PlayPause)
        } else if command == "next"@ {
            Some(Button::Next)
        } else if command == "previous"@ {
            Some(Button::Previous)
        } else {
            None
        }
    }

    /// The button behind a number of the transport controls of Windows.
    pub open spec fn spec_from_smtc(code: int) -> Option<Button> {
        if code == 0 {
            Some(Button::Play)
        } else if code == 1 {
            Some(Button::Pause)
        } else if code == 2 {
            Some(Button::Stop)
        } else if code == 3 {
            Some(Button::Record)
        } else if code == 4 {
            Some(Button::FastForward)
        } else if code == 5 {
            Some(Button::Rewind)
        } else if code == 6 {
            Some(Button::Next)
        } else if code == 7 {
            Some(Button::Previous)
        } else if code == 8 {
            Some(Button::ChannelUp)
        } else if code == 9 {
            Some(Button::ChannelDown)
        } else {
            None
        }
    }

    pub fn name(self) -> (text: String)
        ensures
            text@ == self.spec_name(),
    {
        match self {
            Button::Play => "play".to_owned(),
            Button::Pause => "pause".to_owned(),
            Button::Stop => "stop".to_owned(),
            Button::PlayPause => "playpause".to_owned(),
            Button::Next => "next".to_owned(),
            Button::Previous => "previous".to_owned(),
            Button::Record => "record".to_owned(),
            Button::FastForward => "fastforward".to_owned(),
            Button::Rewind => "rewind".to_owned(),
            Button::ChannelUp => "channelup".to_owned(),
            Button::ChannelDown => "channeldown".to_owned(),
        }
    }

    pub fn from_command(command: &str) -> (button: Option<Button>)
        ensures
            button == Self::spec_from_command(command@),
    {
        if text_eq(command, "pause") {
            Some(Button::Pause)
        } else if text_eq(command, "play") {
            Some(Button::Play)
        } else if text_eq(command, "stop") {
            Some(Button::Stop)
        } else if text_eq(command, "playpause") {
            Some(Button::PlayPause)
        } else if text_eq(command, "next") {
            Some(Button::Next)
        } else if text_eq(command, "previous") {
            Some(Button::Previous)
        } else {
            None
        }
    }

    pub fn from_smtc(code: i32) -> (button: Option<Button>)
        ensures
            button == Self::spec_from_smtc(code as int),
    {
        if code == 0 {
            Some(Button::Play)
        } else if code == 1 {
            Some(Button::Pause)
        } else if code == 2 {
            Some(Button::Stop)
        } else if code == 3 {
            Some(Button::Record)
        } else if code == 4 {
            Some(Button::FastForward)
        } else if code == 5 {
            Some(Button::Rewind)
        } else if code == 6 {
            Some(Button::Next)
        } else if code == 7 {
            Some(Button::Previous)
        } else if code == 8 {
            Some(Button::ChannelUp)
        } else if code == 9 {
            Some(Button::ChannelDown)
        } else {
            None
        }
    }
}

impl EventKind {
    /// The class of events that a name stands for, if it stands for one.
    pub open spec fn spec_from_name(name: Seq<char>) -> Option<EventKind> {
        if name == "buttonpressed"@ {
            Some(EventKind::ButtonPressed)
        } else if name == "positionchanged"@ {
            Some(EventKind::PositionChanged)
        } else if name == "positionseeked"@ {
            Some(EventKind::PositionSeeked)
        } else {
            None
        }
    }

    pub fn from_name(name: &str) -> (kind: Option<EventKind>)
        ensures
            kind == Self::spec_from_name(name@),
    {
        if text_eq(name, "buttonpressed") {
            Some(EventKind::ButtonPressed)
        } else if text_eq(name, "positionchanged") {
            Some(EventKind::PositionChanged)
        } else if text_eq(name, "positionseeked") {
            Some(EventKind::PositionSeeked)
        } else {
            None
        }
    }
}

} // verus!
