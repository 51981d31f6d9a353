use xosms::error::{InvalidReason, MediaError, MethodError};
use xosms::kinds::MediaPlayerThumbnailType;
use xosms::text::{
    bus_name, decimal, file_url, text_eq, track_path, BUS_NAME_PREFIX, FILE_URL_PREFIX, KEY_ALBUM,
    KEY_ALBUM_ARTIST, KEY_ARTIST, KEY_ART_URL, KEY_LENGTH, KEY_TITLE, KEY_TRACK_ID,
    PLAYER_INTERFACE, PLAYER_PATH, PROPERTY_CAN_CONTROL, PROPERTY_CAN_GO_NEXT,
    PROPERTY_CAN_GO_PREVIOUS, PROPERTY_CAN_PAUSE, PROPERTY_CAN_PLAY, PROPERTY_CAN_SEEK,
    PROPERTY_METADATA, PROPERTY_PLAYBACK_STATUS, PROPERTY_RATE, ROOT_INTERFACE, SEEKED_SIGNAL,
    TRACK_PATH_PREFIX,
};
use xosms::thumbnail::MediaPlayerThumbnail;

#[test]
fn fixed_texts_of_the_bus_interface() {
    assert_eq!(PLAYER_INTERFACE, "org.mpris.MediaPlayer2.Player");
    assert_eq!(PLAYER_PATH, "/org/mpris/MediaPlayer2");
    assert_eq!(BUS_NAME_PREFIX, "org.mpris.MediaPlayer2.");
    assert_eq!(TRACK_PATH_PREFIX, "/xosms/trackid/");
    assert_eq!(FILE_URL_PREFIX, "file://");
    assert_eq!(ROOT_INTERFACE, "org.mpris.MediaPlayer2");
    assert_eq!(SEEKED_SIGNAL, "Seeked");
}

#[test]
fn names_of_the_published_properties() {
    assert_eq!(PROPERTY_CAN_CONTROL, "CanControl");
    assert_eq!(PROPERTY_CAN_PLAY, "CanPlay");
    assert_eq!(PROPERTY_CAN_PAUSE, "CanPause");
    assert_eq!(PROPERTY_CAN_GO_PREVIOUS, "CanGoPrevious");
    assert_eq!(PROPERTY_CAN_GO_NEXT, "CanGoNext");
    assert_eq!(PROPERTY_CAN_SEEK, "CanSeek");
    assert_eq!(PROPERTY_RATE, "Rate");
    assert_eq!(PROPERTY_PLAYBACK_STATUS, "PlaybackStatus");
    assert_eq!(PROPERTY_METADATA, "Metadata");
}

#[test]
fn keys_of_the_metadata() {
    assert_eq!(KEY_TRACK_ID, "mpris:trackid");
    assert_eq!(KEY_LENGTH, "mpris:length");
    assert_eq!(KEY_ART_URL, "mpris:artUrl");
    assert_eq!(KEY_TITLE, "xesam:title");
    assert_eq!(KEY_ALBUM, "xesam:album");
    assert_eq!(KEY_ARTIST, "xesam:artist");
    assert_eq!(KEY_ALBUM_ARTIST, "xesam:albumArtist");
}

#[test]
fn bus_name_is_prefix_and_service_name() {
    assert_eq!(bus_name("myplayer"), "org.mpris.MediaPlayer2.myplayer");
    assert_eq!(bus_name(""), "org.mpris.MediaPlayer2.");
}

#[test]
fn track_path_is_prefix_and_identifier() {
    assert_eq!(track_path("42"), "/xosms/trackid/42");
    assert_eq!(track_path(""), "/xosms/trackid/");
}

#[test]
fn file_url_is_prefix_and_path() {
    assert_eq!(file_url("/tmp/cover.png"), "file:///tmp/cover.png");
}

#[test]
fn texts_are_compared_by_their_characters() {
    assert!(text_eq("play", "play"));
    assert!(!text_eq("play", "pause"));
    assert!(!text_eq("play", "playpause"));
    assert!(text_eq("", ""));
    assert!(text_eq("größe", "größe"));
    assert!(!text_eq("Play", "play"));
}

#[test]
fn thumbnail_from_a_file_gets_a_file_address() {
    let thumbnail =
        MediaPlayerThumbnail::create(MediaPlayerThumbnailType::File, "/tmp/cover.png".to_string())
            .unwrap();
    assert_eq!(thumbnail.thumbnail_type(), MediaPlayerThumbnailType::File);
    assert_eq!(thumbnail.thumbnail(), "file:///tmp/cover.png");
}

#[test]
fn thumbnail_from_an_address_keeps_it() {
    let thumbnail = MediaPlayerThumbnail::create(
        MediaPlayerThumbnailType::Uri,
        "https://example.org/cover.png".to_string(),
    )
    .unwrap();
    assert_eq!(thumbnail.thumbnail_type(), MediaPlayerThumbnailType::Uri);
    assert_eq!(thumbnail.thumbnail(), "https://example.org/cover.png");
}

#[test]
fn thumbnail_of_unknown_kind_is_turned_away() {
    let made = MediaPlayerThumbnail::create(MediaPlayerThumbnailType::Unknown, "x".to_string());
    assert_eq!(made, Err(MediaError::InvalidArgument(InvalidReason::UnknownThumbnailType)));
}

#[test]
fn every_reason_has_its_text() {
    assert_eq!(InvalidReason::NegativeDuration.message(), "Duration cannot be less than 0");
    assert_eq!(InvalidReason::NegativePosition.message(), "Position cannot be less than 0");
    assert_eq!(
        InvalidReason::PositionBeyondDuration.message(),
        "Position cannot be greather than provided duration"
    );
    assert_eq!(
        InvalidReason::UnknownPlaybackStatus.message(),
        "Unknown is not a valid MediaPlayerPlaybackStatus to set"
    );
    assert_eq!(
        InvalidReason::UnknownMediaType.message(),
        "Unknown is not a valid MediaPlayerMediaType to set"
    );
    assert_eq!(
        InvalidReason::UnknownThumbnailType.message(),
        "Unknown is not a valid MediaPlayerThumbnailType to create"
    );
    assert_eq!(
        InvalidReason::UnsupportedThumbnailType(0).message(),
        "Thumbnail type is not supported on this operating system: 0"
    );
    assert_eq!(
        InvalidReason::UnsupportedThumbnailType(-1).message(),
        "Thumbnail type is not supported on this operating system: -1"
    );
    assert_eq!(
        InvalidReason::UnsupportedThumbnailType(65280).message(),
        "Thumbnail type is not supported on this operating system: 65280"
    );
}

#[test]
fn every_error_has_its_text() {
    assert_eq!(
        MediaError::InvalidArgument(InvalidReason::NegativeDuration).message(),
        "Duration cannot be less than 0"
    );
    assert_eq!(MediaError::PlatformError("E_FAIL".to_string()).message(), "E_FAIL");
    assert_eq!(MediaError::NameTaken.message(), "Could not obtain service name on D-Bus");
    assert_eq!(MediaError::Timeout.message(), "The media session did not answer in time");
    assert_eq!(MethodError::Failed("no".to_string()).message(), "no");
    assert_eq!(MethodError::NoProperty("none".to_string()).message(), "none");
}

#[test]
fn errors_are_copied_whole() {
    let error = MediaError::PlatformError("E_FAIL".to_string());
    assert_eq!(error.clone(), error);
    let refused = MethodError::NoProperty("Shuffle is not implemented".to_string());
    assert_eq!(refused.clone(), refused);
}

#[test]
fn numbers_are_written_in_decimal() {
    assert_eq!(decimal(0), "0");
    assert_eq!(decimal(7), "7");
    assert_eq!(decimal(10), "10");
    assert_eq!(decimal(109), "109");
    assert_eq!(decimal(-1), "-1");
    assert_eq!(decimal(-120), "-120");
    assert_eq!(decimal(1234567890), "1234567890");
    assert_eq!(decimal(i32::MAX), "2147483647");
    assert_eq!(decimal(i32::MIN), "-2147483648");
    for value in [-1000, -99, -10, -9, 9, 11, 99, 100, 101, 4096] {
        assert_eq!(decimal(value), value.to_string());
    }
}
