use xosms::error::MethodError;
use xosms::events::{Button, Delivery, EventKind, HostEvent};
use xosms::publish::Metadata;
use xosms::router::MprisPlayer;
use xosms::state::MprisPlayerState;

fn player() -> MprisPlayer {
    MprisPlayer::new(MprisPlayerState::new("My Player".to_string(), true))
}

fn button(listener: usize, handle: u64, button: Button) -> Delivery {
    Delivery { listener, handle, event: HostEvent::Button(button) }
}

#[test]
fn play_reaches_the_listener_exactly_once() {
    let mut player = player();
    assert!(player.add_listener(EventKind::ButtonPressed, 1, 100));
    player.state_mut().set_can_play(true);
    assert_eq!(player.play(), Ok(vec![button(1, 100, Button::Play)]));
}

#[test]
fn play_is_dropped_while_disabled() {
    let mut player = player();
    assert!(player.add_listener(EventKind::ButtonPressed, 1, 100));
    assert_eq!(player.play(), Ok(vec![]));
}

#[test]
fn stop_fails_without_control() {
    let mut player = player();
    assert!(player.add_listener(EventKind::ButtonPressed, 1, 100));
    player.state_mut().set_can_control(false);
    assert_eq!(
        player.stop(),
        Err(MethodError::Failed("This media player cannot be controlled".to_string()))
    );
    player.state_mut().set_can_control(true);
    assert_eq!(player.stop(), Ok(vec![button(1, 100, Button::Stop)]));
}

#[test]
fn play_pause_fails_where_pause_is_disabled() {
    let mut player = player();
    assert!(player.add_listener(EventKind::ButtonPressed, 1, 100));
    assert_eq!(
        player.play_pause(),
        Err(MethodError::Failed("This media player cannot be paused".to_string()))
    );
    player.state_mut().set_can_pause(true);
    assert_eq!(player.play_pause(), Ok(vec![button(1, 100, Button::PlayPause)]));
    assert_eq!(player.pause(), Ok(vec![button(1, 100, Button::Pause)]));
}

#[test]
fn next_and_previous_go_by_their_own_flags() {
    let mut player = player();
    assert!(player.add_listener(EventKind::ButtonPressed, 1, 100));
    assert_eq!(player.next(), Ok(vec![]));
    assert_eq!(player.previous(), Ok(vec![]));
    assert_eq!(player.pause(), Ok(vec![]));
    player.state_mut().set_can_go_next(true);
    assert_eq!(player.next(), Ok(vec![button(1, 100, Button::Next)]));
    assert_eq!(player.previous(), Ok(vec![]));
    player.state_mut().set_can_go_previous(true);
    assert_eq!(player.previous(), Ok(vec![button(1, 100, Button::Previous)]));
}

#[test]
fn buttons_without_a_flag_are_never_let_through() {
    let mut player = player();
    assert!(player.add_listener(EventKind::ButtonPressed, 1, 100));
    player.state_mut().set_can_play(true);
    player.state_mut().set_can_pause(true);
    for other in [
        Button::Record,
        Button::FastForward,
        Button::Rewind,
        Button::ChannelUp,
        Button::ChannelDown,
    ] {
        assert_eq!(player.press(other), Ok(vec![]));
    }
}

#[test]
fn buttons_reach_button_listeners_only() {
    let mut player = player();
    assert!(player.add_listener(EventKind::PositionChanged, 1, 100));
    assert!(player.add_listener(EventKind::PositionSeeked, 2, 200));
    player.state_mut().set_can_play(true);
    assert_eq!(player.play(), Ok(vec![]));
}

#[test]
fn seek_reaches_seek_listeners_when_enabled() {
    let mut player = player();
    assert!(player.add_listener(EventKind::PositionSeeked, 2, 200));
    assert!(player.add_listener(EventKind::ButtonPressed, 1, 100));
    assert_eq!(player.seek(5_000_000), Ok(vec![]));
    player.state_mut().set_can_seek(true);
    assert_eq!(
        player.seek(-5_000_000),
        Ok(vec![Delivery { listener: 2, handle: 200, event: HostEvent::PositionSeeked(-5_000_000) }])
    );
}

fn seekable() -> MprisPlayer {
    let mut player = player();
    assert!(player.add_listener(EventKind::PositionChanged, 3, 300));
    player.state_mut().set_can_seek(true);
    player.state_mut().set_track_id("17".to_string());
    let now = std::time::Instant::now();
    player.state_mut().apply_timeline(60_000_000, 1_000_000, 9, now).unwrap();
    player
}

#[test]
fn set_position_for_the_published_track_is_routed() {
    let player = seekable();
    assert_eq!(
        player.set_position("/xosms/trackid/17", 30_000_000),
        Ok(vec![Delivery {
            listener: 3,
            handle: 300,
            event: HostEvent::PositionChanged(30_000_000)
        }])
    );
    assert_eq!(player.set_position("/xosms/trackid/17", 0).unwrap().len(), 1);
    assert_eq!(player.set_position("/xosms/trackid/17", 60_000_000).unwrap().len(), 1);
}

#[test]
fn set_position_for_another_track_is_dropped() {
    let player = seekable();
    assert_eq!(player.set_position("/xosms/trackid/16", 30_000_000), Ok(vec![]));
    assert_eq!(player.set_position("17", 30_000_000), Ok(vec![]));
    assert_eq!(player.set_position("", 30_000_000), Ok(vec![]));
}

#[test]
fn set_position_outside_the_timeline_is_dropped() {
    let player = seekable();
    assert_eq!(player.set_position("/xosms/trackid/17", -1), Ok(vec![]));
    assert_eq!(player.set_position("/xosms/trackid/17", 60_000_001), Ok(vec![]));
}

#[test]
fn set_position_is_dropped_while_seeking_is_disabled() {
    let mut player = seekable();
    player.state_mut().set_can_seek(false);
    assert_eq!(player.set_position("/xosms/trackid/17", 30_000_000), Ok(vec![]));
}

#[test]
fn listeners_are_kept_per_class() {
    let mut player = player();
    assert!(player.add_listener(EventKind::ButtonPressed, 1, 100));
    assert!(player.add_listener(EventKind::PositionChanged, 1, 101));
    assert!(!player.add_listener(EventKind::ButtonPressed, 1, 102));
    assert_eq!(player.remove_listener(EventKind::ButtonPressed, 1), Some(100));
    assert_eq!(player.remove_listener(EventKind::ButtonPressed, 1), None);
    assert_eq!(player.remove_listener(EventKind::PositionSeeked, 1), None);
    assert_eq!(player.remove_listener(EventKind::PositionChanged, 1), Some(101));
}

#[test]
fn clearing_leaves_the_state_alone() {
    let mut player = player();
    assert!(player.add_listener(EventKind::ButtonPressed, 1, 100));
    player.state_mut().set_can_play(true);
    player.clear_listeners();
    assert_eq!(player.play(), Ok(vec![]));
    assert!(player.state().can_play());
}

#[test]
fn root_interface_answers() {
    let mut player = player();
    assert_eq!(player.raise(), Ok(()));
    assert_eq!(player.quit(), Ok(()));
    assert_eq!(player.can_quit(), Ok(false));
    assert_eq!(player.fullscreen(), Ok(false));
    assert_eq!(
        player.set_fullscreen(true),
        Err(MethodError::Failed("Fullscreen cannot be set".to_string()))
    );
    assert_eq!(player.can_set_fullscreen(), Ok(false));
    assert_eq!(player.can_raise(), Ok(false));
    assert_eq!(player.has_track_list(), Ok(false));
    assert_eq!(player.identity(), Ok("My Player".to_string()));
    assert_eq!(
        player.desktop_entry(),
        Err(MethodError::NoProperty("DesktopEntry is not implemented".to_string()))
    );
    assert_eq!(player.supported_uri_schemes(), Ok(vec![]));
    assert_eq!(player.supported_mime_types(), Ok(vec![]));
}

#[test]
fn player_interface_answers() {
    let mut player = seekable();
    assert_eq!(
        player.open_uri("file:///x".to_string()),
        Err(MethodError::Failed("OpenUri is not supported".to_string()))
    );
    assert_eq!(player.playback_status(), Ok("Stopped".to_string()));
    assert_eq!(
        player.loop_status(),
        Err(MethodError::NoProperty("LoopStatus is not implemented".to_string()))
    );
    assert_eq!(
        player.set_loop_status("Track".to_string()),
        Err(MethodError::NoProperty("LoopStatus is not implemented".to_string()))
    );
    assert_eq!(
        player.shuffle(),
        Err(MethodError::NoProperty("Shuffle is not implemented".to_string()))
    );
    assert_eq!(
        player.set_shuffle(true),
        Err(MethodError::NoProperty("Shuffle is not implemented".to_string()))
    );
    assert_eq!(player.rate(), Ok(1_000_000));
    assert_eq!(player.minimum_rate(), Ok(1_000_000));
    assert_eq!(player.maximum_rate(), Ok(1_000_000));
    assert_eq!(player.set_rate(0), Ok(()));
    assert_eq!(player.volume(), Ok(1_000_000));
    assert_eq!(player.set_volume(400_000), Ok(()));
    assert_eq!(player.volume(), Ok(400_000));
    assert_eq!(player.position(), Ok(1_000_000));
    assert_eq!(player.can_seek(), Ok(true));
    assert_eq!(player.can_control(), Ok(true));
    assert_eq!(player.can_play(), Ok(false));
    assert_eq!(player.can_pause(), Ok(false));
    assert_eq!(player.can_go_next(), Ok(false));
    assert_eq!(player.can_go_previous(), Ok(false));
    assert_eq!(
        player.metadata(),
        Ok(Metadata {
            track_id: "/xosms/trackid/17".to_string(),
            length: 60_000_000,
            art_url: String::new(),
            title: String::new(),
            album: String::new(),
            artist: String::new(),
            album_artist: String::new(),
        })
    );
}

#[test]
fn playback_status_reads_by_its_bus_name() {
    let mut player = player();
    player
        .state_mut()
        .set_playback_status(xosms::kinds::MediaPlayerPlaybackStatus::Playing)
        .unwrap();
    assert_eq!(player.playback_status(), Ok("Playing".to_string()));
    player
        .state_mut()
        .set_playback_status(xosms::kinds::MediaPlayerPlaybackStatus::Paused)
        .unwrap();
    assert_eq!(player.playback_status(), Ok("Paused".to_string()));
}
