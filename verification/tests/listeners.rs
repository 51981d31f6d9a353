use xosms::events::{Button, Delivery, EventKind, HostEvent};
use xosms::listeners::ListenerTable;

#[test]
fn a_new_table_holds_nobody() {
    let table = ListenerTable::new();
    assert!(!table.contains(1));
    assert!(table.dispatch(HostEvent::Button(Button::Play)).is_empty());
}

#[test]
fn a_listener_is_added_once() {
    let mut table = ListenerTable::new();
    assert!(table.add(7, 70));
    assert!(table.contains(7));
    assert!(!table.add(7, 71));
    let deliveries = table.dispatch(HostEvent::Button(Button::Next));
    assert_eq!(
        deliveries,
        vec![Delivery { listener: 7, handle: 70, event: HostEvent::Button(Button::Next) }]
    );
}

#[test]
fn removing_takes_the_listener_out() {
    let mut table = ListenerTable::new();
    assert!(table.add(7, 70));
    assert!(table.add(8, 80));
    assert_eq!(table.remove(7), Some(70));
    assert!(!table.contains(7));
    assert!(table.contains(8));
    assert_eq!(table.remove(7), None);
    let deliveries = table.dispatch(HostEvent::PositionChanged(5));
    assert_eq!(
        deliveries,
        vec![Delivery { listener: 8, handle: 80, event: HostEvent::PositionChanged(5) }]
    );
}

#[test]
fn removing_what_is_not_there_changes_nothing() {
    let mut table = ListenerTable::new();
    assert!(table.add(1, 10));
    assert_eq!(table.remove(2), None);
    assert!(table.contains(1));
    assert_eq!(table.dispatch(HostEvent::PositionSeeked(-3)).len(), 1);
}

#[test]
fn every_listener_is_invoked_exactly_once() {
    let mut table = ListenerTable::new();
    for identity in 0..50usize {
        assert!(table.add(identity, 1000 + identity as u64));
    }
    let mut deliveries = table.dispatch(HostEvent::Button(Button::Pause));
    assert_eq!(deliveries.len(), 50);
    deliveries.sort_by_key(|delivery| delivery.listener);
    for (index, delivery) in deliveries.iter().enumerate() {
        assert_eq!(delivery.listener, index);
        assert_eq!(delivery.handle, 1000 + index as u64);
        assert_eq!(delivery.event, HostEvent::Button(Button::Pause));
    }
}

#[test]
fn clearing_releases_everybody() {
    let mut table = ListenerTable::new();
    assert!(table.add(1, 10));
    assert!(table.add(2, 20));
    table.clear();
    assert!(!table.contains(1));
    assert!(!table.contains(2));
    assert!(table.dispatch(HostEvent::Button(Button::Stop)).is_empty());
    assert!(table.add(1, 11));
}

#[test]
fn button_names_are_what_the_host_receives() {
    assert_eq!(Button::Play.name(), "play");
    assert_eq!(Button::Pause.name(), "pause");
    assert_eq!(Button::Stop.name(), "stop");
    assert_eq!(Button::PlayPause.name(), "playpause");
    assert_eq!(Button::Next.name(), "next");
    assert_eq!(Button::Previous.name(), "previous");
    assert_eq!(Button::Record.name(), "record");
    assert_eq!(Button::FastForward.name(), "fastforward");
    assert_eq!(Button::Rewind.name(), "rewind");
    assert_eq!(Button::ChannelUp.name(), "channelup");
    assert_eq!(Button::ChannelDown.name(), "channeldown");
}

#[test]
fn remote_commands_name_the_six_transport_buttons() {
    assert_eq!(Button::from_command("pause"), Some(Button::Pause));
    assert_eq!(Button::from_command("play"), Some(Button::Play));
    assert_eq!(Button::from_command("stop"), Some(Button::Stop));
    assert_eq!(Button::from_command("playpause"), Some(Button::PlayPause));
    assert_eq!(Button::from_command("next"), Some(Button::Next));
    assert_eq!(Button::from_command("previous"), Some(Button::Previous));
    assert_eq!(Button::from_command("record"), None);
    assert_eq!(Button::from_command(""), None);
    assert_eq!(Button::from_command("Play"), None);
}

#[test]
fn transport_control_numbers_name_their_buttons() {
    let expected = [
        Button::Play,
        Button::Pause,
        Button::Stop,
        Button::Record,
        Button::FastForward,
        Button::Rewind,
        Button::Next,
        Button::Previous,
        Button::ChannelUp,
        Button::ChannelDown,
    ];
    for (code, button) in expected.iter().enumerate() {
        assert_eq!(Button::from_smtc(code as i32), Some(*button));
    }
    assert_eq!(Button::from_smtc(10), None);
    assert_eq!(Button::from_smtc(-1), None);
}

#[test]
fn event_names_stand_for_their_classes() {
    assert_eq!(EventKind::from_name("buttonpressed"), Some(EventKind::ButtonPressed));
    assert_eq!(EventKind::from_name("positionchanged"), Some(EventKind::PositionChanged));
    assert_eq!(EventKind::from_name("positionseeked"), Some(EventKind::PositionSeeked));
    assert_eq!(EventKind::from_name("volumechanged"), None);
    assert_eq!(EventKind::from_name(""), None);
}
