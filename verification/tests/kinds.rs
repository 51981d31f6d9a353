use xosms::kinds::{MediaPlayerMediaType, MediaPlayerPlaybackStatus, MediaPlayerThumbnailType};

#[test]
fn playback_status_codes_are_fixed() {
    assert_eq!(MediaPlayerPlaybackStatus::Unknown.code(), -1);
    assert_eq!(MediaPlayerPlaybackStatus::Playing.code(), 1);
    assert_eq!(MediaPlayerPlaybackStatus::Paused.code(), 2);
    assert_eq!(MediaPlayerPlaybackStatus::Stopped.code(), 3);
}

#[test]
fn media_type_codes_are_fixed() {
    assert_eq!(MediaPlayerMediaType::Unknown.code(), -1);
    assert_eq!(MediaPlayerMediaType::Music.code(), 1);
}

#[test]
fn thumbnail_type_codes_are_fixed() {
    assert_eq!(MediaPlayerThumbnailType::Unknown.code(), -1);
    assert_eq!(MediaPlayerThumbnailType::File.code(), 1);
    assert_eq!(MediaPlayerThumbnailType::Uri.code(), 2);
}

#[test]
fn codes_round_trip() {
    for status in [
        MediaPlayerPlaybackStatus::Unknown,
        MediaPlayerPlaybackStatus::Playing,
        MediaPlayerPlaybackStatus::Paused,
        MediaPlayerPlaybackStatus::Stopped,
    ] {
        assert_eq!(MediaPlayerPlaybackStatus::from_code(status.code()), status);
    }
    for media in [MediaPlayerMediaType::Unknown, MediaPlayerMediaType::Music] {
        assert_eq!(MediaPlayerMediaType::from_code(media.code()), media);
    }
    for kind in [
        MediaPlayerThumbnailType::Unknown,
        MediaPlayerThumbnailType::File,
        MediaPlayerThumbnailType::Uri,
    ] {
        assert_eq!(MediaPlayerThumbnailType::from_code(kind.code()), kind);
    }
}

#[test]
fn numbers_without_a_meaning_are_unknown() {
    assert_eq!(MediaPlayerPlaybackStatus::from_code(0), MediaPlayerPlaybackStatus::Unknown);
    assert_eq!(MediaPlayerPlaybackStatus::from_code(4), MediaPlayerPlaybackStatus::Unknown);
    assert_eq!(MediaPlayerMediaType::from_code(2), MediaPlayerMediaType::Unknown);
    assert_eq!(MediaPlayerThumbnailType::from_code(3), MediaPlayerThumbnailType::Unknown);
    assert_eq!(MediaPlayerThumbnailType::from_code(i32::MIN), MediaPlayerThumbnailType::Unknown);
}
