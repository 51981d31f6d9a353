use xosms::error::{InvalidReason, MediaError};
use xosms::kinds::{MediaPlayerMediaType, MediaPlayerPlaybackStatus};
use xosms::publish::{status_name, Metadata, PropertiesChanged, Signal};
use xosms::state::MprisPlayerState;
use std::time::Instant;

fn fresh() -> MprisPlayerState {
    MprisPlayerState::new("My Player".to_string(), true)
}

#[test]
fn a_new_state_has_the_defaults() {
    let state = fresh();
    assert_eq!(state.identity(), "My Player");
    assert!(state.can_control());
    assert!(!state.can_play());
    assert!(!state.can_pause());
    assert!(!state.can_go_next());
    assert!(!state.can_go_previous());
    assert!(!state.can_seek());
    assert_eq!(state.media_type(), MediaPlayerMediaType::Unknown);
    assert_eq!(state.playback_status(), MediaPlayerPlaybackStatus::Unknown);
    assert_eq!(state.thumbnail(), "");
    assert_eq!(state.artist(), "");
    assert_eq!(state.album_artist(), "");
    assert_eq!(state.album_title(), "");
    assert_eq!(state.title(), "");
    assert_eq!(state.track_id(), "");
    assert_eq!(state.position(), 0);
    assert_eq!(state.duration(), 0);
    assert_eq!(state.volume(), 1_000_000);
    assert_eq!(state.playback_rate(), 1_000_000);
    assert!(!MprisPlayerState::new(String::new(), false).can_control());
}

#[test]
fn flags_are_read_back_as_set() {
    let mut state = fresh();
    state.set_can_play(true);
    state.set_can_pause(true);
    state.set_can_go_next(true);
    state.set_can_go_previous(true);
    state.set_can_seek(true);
    state.set_can_control(false);
    assert!(state.can_play());
    assert!(state.can_pause());
    assert!(state.can_go_next());
    assert!(state.can_go_previous());
    assert!(state.can_seek());
    assert!(!state.can_control());
    state.set_can_play(false);
    assert!(!state.can_play());
    assert!(state.can_pause());
}

#[test]
fn texts_are_read_back_as_set() {
    let mut state = fresh();
    state.set_title("Song".to_string());
    state.set_artist("Band".to_string());
    state.set_album_artist("Various".to_string());
    state.set_album_title("Record".to_string());
    state.set_track_id("17".to_string());
    state.set_thumbnail("file:///tmp/c.png".to_string());
    assert_eq!(state.title(), "Song");
    assert_eq!(state.artist(), "Band");
    assert_eq!(state.album_artist(), "Various");
    assert_eq!(state.album_title(), "Record");
    assert_eq!(state.track_id(), "17");
    assert_eq!(state.thumbnail(), "file:///tmp/c.png");
    assert_eq!(state.identity(), "My Player");
}

#[test]
fn numbers_are_read_back_as_set() {
    let mut state = fresh();
    state.set_volume(250_000);
    state.set_playback_rate(2_000_000);
    assert_eq!(state.volume(), 250_000);
    assert_eq!(state.playback_rate(), 2_000_000);
}

#[test]
fn known_status_and_kind_are_kept() {
    let mut state = fresh();
    for status in [
        MediaPlayerPlaybackStatus::Playing,
        MediaPlayerPlaybackStatus::Paused,
        MediaPlayerPlaybackStatus::Stopped,
    ] {
        assert_eq!(state.set_playback_status(status), Ok(()));
        assert_eq!(state.playback_status(), status);
    }
    assert_eq!(state.set_media_type(MediaPlayerMediaType::Music), Ok(()));
    assert_eq!(state.media_type(), MediaPlayerMediaType::Music);
}

#[test]
fn unknown_status_and_kind_change_nothing() {
    let mut state = fresh();
    state.set_playback_status(MediaPlayerPlaybackStatus::Paused).unwrap();
    state.set_media_type(MediaPlayerMediaType::Music).unwrap();
    assert_eq!(
        state.set_playback_status(MediaPlayerPlaybackStatus::Unknown),
        Err(MediaError::InvalidArgument(InvalidReason::UnknownPlaybackStatus))
    );
    assert_eq!(
        state.set_media_type(MediaPlayerMediaType::Unknown),
        Err(MediaError::InvalidArgument(InvalidReason::UnknownMediaType))
    );
    assert_eq!(state.playback_status(), MediaPlayerPlaybackStatus::Paused);
    assert_eq!(state.media_type(), MediaPlayerMediaType::Music);
}

#[test]
fn a_valid_timeline_is_taken_over() {
    let mut state = fresh();
    assert_eq!(state.apply_timeline(215_000_000, 10_000_000, 7, Instant::now()), Ok(false));
    assert_eq!(state.duration(), 215_000_000);
    assert_eq!(state.position(), 10_000_000);
    assert_eq!(state.apply_timeline(215_000_000, 12_500_000, 0, Instant::now()), Ok(true));
    assert_eq!(state.position(), 12_500_000);
    assert_eq!(state.apply_timeline(215_000_000, 13_000_000, 0, Instant::now()), Ok(false));
    assert_eq!(state.position(), 13_000_000);
}

#[test]
fn a_faulty_timeline_changes_nothing() {
    let mut state = fresh();
    state.apply_timeline(100, 50, 0, Instant::now()).unwrap();
    assert_eq!(
        state.apply_timeline(-1, 0, 0, Instant::now()),
        Err(MediaError::InvalidArgument(InvalidReason::NegativeDuration))
    );
    assert_eq!(
        state.apply_timeline(100, -1, 0, Instant::now()),
        Err(MediaError::InvalidArgument(InvalidReason::NegativePosition))
    );
    assert_eq!(
        state.apply_timeline(100, 101, 0, Instant::now()),
        Err(MediaError::InvalidArgument(InvalidReason::PositionBeyondDuration))
    );
    assert_eq!(state.duration(), 100);
    assert_eq!(state.position(), 50);
}

#[test]
fn the_seek_rule_goes_by_the_rate_of_the_state() {
    let mut state = fresh();
    state.set_playback_rate(2_000_000);
    state.apply_timeline(60_000_000, 10_000_000, 5, Instant::now()).unwrap();
    assert_eq!(state.apply_timeline(60_000_000, 11_500_000, 0, Instant::now()), Ok(false));
    assert_eq!(state.apply_timeline(60_000_000, 14_000_000, 0, Instant::now()), Ok(true));
}

#[test]
fn the_clock_decides_only_about_the_seek() {
    let mut state = fresh();
    assert_eq!(state.set_timeline(60_000_000, 500_000), Ok(false));
    assert_eq!(state.duration(), 60_000_000);
    assert_eq!(state.position(), 500_000);
    // at once, and by more than the rate: a jump
    assert_eq!(state.set_timeline(60_000_000, 30_000_000), Ok(true));
    assert_eq!(state.position(), 30_000_000);
    assert_eq!(
        state.set_timeline(10, 11),
        Err(MediaError::InvalidArgument(InvalidReason::PositionBeyondDuration))
    );
    assert_eq!(state.position(), 30_000_000);
}

#[test]
fn metadata_is_the_whole_composite() {
    let mut state = fresh();
    state.set_title("Song".to_string());
    state.set_artist("Band".to_string());
    state.set_album_artist("Various".to_string());
    state.set_album_title("Record".to_string());
    state.set_track_id("17".to_string());
    state.set_thumbnail("https://example.org/c.png".to_string());
    state.apply_timeline(215_000_000, 10_000_000, 9, Instant::now()).unwrap();
    let expected = Metadata {
        track_id: "/xosms/trackid/17".to_string(),
        length: 215_000_000,
        art_url: "https://example.org/c.png".to_string(),
        title: "Song".to_string(),
        album: "Record".to_string(),
        artist: "Band".to_string(),
        album_artist: "Various".to_string(),
    };
    assert_eq!(state.metadata(), expected);
    assert_eq!(expected.clone(), expected);
}

#[test]
fn status_names_of_the_bus() {
    assert_eq!(status_name(MediaPlayerPlaybackStatus::Playing), "Playing");
    assert_eq!(status_name(MediaPlayerPlaybackStatus::Paused), "Paused");
    assert_eq!(status_name(MediaPlayerPlaybackStatus::Stopped), "Stopped");
    assert_eq!(status_name(MediaPlayerPlaybackStatus::Unknown), "Stopped");
}

#[test]
fn changed_properties_start_empty() {
    let mut changes = PropertiesChanged::new();
    assert!(changes.is_empty());
    assert_eq!(changes.clone(), changes);
    changes.can_seek = Some(false);
    assert!(!changes.is_empty());
    let signal = Signal::PropertiesChanged(changes.clone());
    assert_eq!(signal.clone(), Signal::PropertiesChanged(changes));
    assert_eq!(Signal::Seeked(5).clone(), Signal::Seeked(5));
}
