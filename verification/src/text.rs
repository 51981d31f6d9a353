//! The fixed texts of the bus interface and the names built from them.

use vstd::prelude::*;
use vstd::string::*;

verus! {

/// The interface on which the player's properties change.
pub const PLAYER_INTERFACE: &'static str = "org.mpris.MediaPlayer2.Player";

/// The interface of the application as a whole.
pub const ROOT_INTERFACE: &'static str = "org.mpris.MediaPlayer2";

/// The signal that tells of a jump of the position.
pub const SEEKED_SIGNAL: &'static str = "Seeked";

/// The names of the properties that a session publishes.
pub const PROPERTY_CAN_CONTROL: &'static str = "CanControl";

pub const PROPERTY_CAN_PLAY: &'static str = "CanPlay";

pub const PROPERTY_CAN_PAUSE: &'static str = "CanPause";

pub const PROPERTY_CAN_GO_PREVIOUS: &'static str = "CanGoPrevious";

pub const PROPERTY_CAN_GO_NEXT: &'static str = "CanGoNext";

pub const PROPERTY_CAN_SEEK: &'static str = "CanSeek";

pub const PROPERTY_RATE: &'static str = "Rate";

pub const PROPERTY_PLAYBACK_STATUS: &'static str = "PlaybackStatus";

pub const PROPERTY_METADATA: &'static str = "Metadata";

/// The keys of the metadata.
pub const KEY_TRACK_ID: &'static str = "mpris:trackid";

pub const KEY_LENGTH: &'static str = "mpris:length";

pub const KEY_ART_URL: &'static str = "mpris:artUrl";

pub const KEY_TITLE: &'static str = "xesam:title";

pub const KEY_ALBUM: &'static str = "xesam:album";

pub const KEY_ARTIST: &'static str = "xesam:artist";

pub const KEY_ALBUM_ARTIST: &'static str = "xesam:albumArtist";

/// The object path under which the player is exported.
pub const PLAYER_PATH: &'static str = "/org/mpris/MediaPlayer2";

/// What every bus name of a session begins with.
pub const BUS_NAME_PREFIX: &'static str = "org.mpris.MediaPlayer2.";

/// What every track path begins with.
pub const TRACK_PATH_PREFIX: &'static str = "/xosms/trackid/";

/// What the address of a thumbnail file begins with.
pub const FILE_URL_PREFIX: &'static str = "file://";

/// The well-known bus name of a session.
pub open spec fn spec_bus_name(service_name: Seq<char>) -> Seq<char> {
    BUS_NAME_PREFIX@ + service_name
}

/// The object path that stands for a track identifier.
pub open spec fn spec_track_path(track_id: Seq<char>) -> Seq<char> {
    TRACK_PATH_PREFIX@ + track_id
}

/// The address of a file on this machine.
pub open spec fn spec_file_url(path: Seq<char>) -> Seq<char> {
    FILE_URL_PREFIX@ + path
}

/// Whether two texts are the same, character by character.
pub fn text_eq(left: &str, right: &str) -> (same: bool)
    ensures
        same == (left@ == right@),
{
    let left_owned = left.to_owned();
    let right_owned = right.to_owned();
    left_owned == right_owned
}

/// The well-known bus name under which a session registers.
pub fn bus_name(service_name: &str) -> (name: String)
    ensures
        name@ == spec_bus_name(service_name@),
{
    let mut name = BUS_NAME_PREFIX.to_owned();
    name.append(service_name);
    name
}

/// The object path published for a track identifier.
pub fn track_path(track_id: &str) -> (path: String)
    ensures
        path@ == spec_track_path(track_id@),
{
    let mut path = TRACK_PATH_PREFIX.to_owned();
    path.append(track_id);
    path
}

/// The address published for a thumbnail file.
pub fn file_url(path: &str) -> (url: String)
    ensures
        url@ == spec_file_url(path@),
{
    let mut url = FILE_URL_PREFIX.to_owned();
    url.append(path);
    url
}

/// The text of one decimal digit.
pub open spec fn spec_digit(digit: int) -> Seq<char> {
    if digit == 0 {
        "0"@
    } else if digit == 1 {
        "1"@
    } else if digit == 2 {
        "2"@
    } else if digit == 3 {
        "3"@
    } else if digit == 4 {
        "4"@
    } else if digit == 5 {
        "5"@
    } else if digit == 6 {
        "6"@
    } else if digit == 7 {
        "7"@
    } else if digit == 8 {
        "8"@
    } else {
        "9"@
    }
}

/// The decimal text of a number that is not negative: its digits from the
/// highest to the lowest, without leading zeros.
pub open spec fn spec_decimal_nat(value: nat) -> Seq<char>
    decreases value,
{
    if value < 10 {
        spec_digit(value as int)
    } else {
        spec_decimal_nat(value / 10) + spec_digit((value % 10) as int)
    }
}

/// The decimal text of a number, with a minus sign before it where it is
/// below zero.
pub open spec fn spec_decimal(value: int) -> Seq<char> {
    if value < 0 {
        "-"@ + spec_decimal_nat((-value) as nat)
    } else {
        spec_decimal_nat(value as nat)
    }
}

fn digit_text(digit: u64) -> (text: &'static str)
    ensures
        text@ == spec_digit(digit as int),
{
    if digit == 0 {
        "0"
    } else if digit == 1 {
        "1"
    } else if digit == 2 {
        "2"
    } else if digit == 3 {
        "3"
    } else if digit == 4 {
        "4"
    } else if digit == 5 {
        "5"
    } else if digit == 6 {
        "6"
    } else if digit == 7 {
        "7"
    } else if digit == 8 {
        "8"
    } else {
        "9"
    }
}

fn decimal_nat(value: u64) -> (text: String)
    ensures
        text@ == spec_decimal_nat(value as nat),
    decreases value,
{
    if value < 10 {
        digit_text(value).to_owned()
    } else {
        let mut text = decimal_nat(value / 10);
        text.append(digit_text(value % 10));
        text
    }
}

/// The decimal text of a number.
pub fn decimal(value: i32) -> (text: String)
    ensures
        text@ == spec_decimal(value as int),
{
    if value < 0 {
        let magnitude: i64 = -(value as i64);
        let mut text = "-".to_owned();
        let digits = decimal_nat(magnitude as u64);
        text.append(digits.as_str());
        text
    } else {
        decimal_nat(value as u64)
    }
}

} // verus!
