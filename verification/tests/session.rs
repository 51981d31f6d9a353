use xosms::error::MediaError;
use xosms::publish::{PropertiesChanged, Signal};
use xosms::session::{
    DBusSession, PendingAnswer, PumpAction, ReleaseNameReply, RequestNameReply, ANSWER_BOUND_SECS,
};

fn connected() -> DBusSession {
    let mut session = DBusSession::new();
    session.connection_opened(true);
    session
}

#[test]
fn a_new_session_first_connects() {
    let mut session = DBusSession::new();
    assert!(!session.is_connected());
    assert!(!session.owns_name());
    assert!(!session.has_exited());
    assert_eq!(session.pending_signals(), 0);
    assert_eq!(session.next_action(), PumpAction::Connect);
}

#[test]
fn a_failed_connection_is_tried_again() {
    let mut session = DBusSession::new();
    session.register("myplayer");
    session.connection_opened(false);
    assert_eq!(session.next_action(), PumpAction::Connect);
    assert_eq!(session.next_action(), PumpAction::Connect);
    session.connection_opened(true);
    assert!(session.is_connected());
    assert_eq!(
        session.next_action(),
        PumpAction::RequestName("org.mpris.MediaPlayer2.myplayer".to_string())
    );
}

#[test]
fn an_idle_pump_polls_without_dispatching() {
    let mut session = connected();
    assert_eq!(session.next_action(), PumpAction::Poll { dispatch: false });
    assert_eq!(session.next_action(), PumpAction::Poll { dispatch: false });
}

#[test]
fn only_the_primary_owner_owns_the_name() {
    for reply in [
        RequestNameReply::InQueue,
        RequestNameReply::Exists,
        RequestNameReply::AlreadyOwner,
        RequestNameReply::Failed,
    ] {
        let mut session = connected();
        assert!(!session.name_requested("org.mpris.MediaPlayer2.a".to_string(), reply));
        assert!(!session.owns_name());
        assert_eq!(session.next_action(), PumpAction::Poll { dispatch: false });
    }
    let mut session = connected();
    assert!(session
        .name_requested("org.mpris.MediaPlayer2.a".to_string(), RequestNameReply::PrimaryOwner));
    assert!(session.owns_name());
    assert_eq!(session.next_action(), PumpAction::Poll { dispatch: true });
}

#[test]
fn only_a_release_counts_as_released() {
    let session = connected();
    assert!(session.name_released(ReleaseNameReply::Released));
    assert!(!session.name_released(ReleaseNameReply::NonExistent));
    assert!(!session.name_released(ReleaseNameReply::NotOwner));
    assert!(!session.name_released(ReleaseNameReply::Failed));
}

#[test]
fn requests_come_before_signals() {
    let mut session = connected();
    session.emit_message(Signal::Seeked(1));
    session.unregister("b");
    session.register("a");
    assert_eq!(
        session.next_action(),
        PumpAction::RequestName("org.mpris.MediaPlayer2.a".to_string())
    );
    session.name_requested("org.mpris.MediaPlayer2.a".to_string(), RequestNameReply::PrimaryOwner);
    assert_eq!(
        session.next_action(),
        PumpAction::ReleaseName("org.mpris.MediaPlayer2.b".to_string())
    );
    assert!(!session.owns_name());
    assert_eq!(session.next_action(), PumpAction::Send(Signal::Seeked(1)));
    assert_eq!(session.next_action(), PumpAction::Poll { dispatch: false });
}

#[test]
fn giving_back_what_is_not_owned_gets_no_answer() {
    let mut session = connected();
    session.unregister("a");
    assert_eq!(session.next_action(), PumpAction::DropRequest);
    assert_eq!(session.next_action(), PumpAction::Poll { dispatch: false });
}

#[test]
fn signals_leave_in_the_order_in_which_they_came() {
    let mut session = connected();
    let mut changes = PropertiesChanged::new();
    changes.can_play = Some(true);
    session.emit_message(Signal::Seeked(1));
    session.emit_message(Signal::PropertiesChanged(changes.clone()));
    session.emit_message(Signal::Seeked(2));
    assert_eq!(session.pending_signals(), 3);
    assert_eq!(session.next_action(), PumpAction::Send(Signal::Seeked(1)));
    assert_eq!(session.next_action(), PumpAction::Send(Signal::PropertiesChanged(changes)));
    session.emit_message(Signal::Seeked(3));
    assert_eq!(session.next_action(), PumpAction::Send(Signal::Seeked(2)));
    assert_eq!(session.next_action(), PumpAction::Send(Signal::Seeked(3)));
    assert_eq!(session.pending_signals(), 0);
    assert_eq!(session.next_action(), PumpAction::Poll { dispatch: false });
}

#[test]
fn registrations_are_served_one_by_one() {
    let mut session = connected();
    session.register("a");
    session.register("b");
    assert_eq!(
        session.next_action(),
        PumpAction::RequestName("org.mpris.MediaPlayer2.a".to_string())
    );
    assert_eq!(
        session.next_action(),
        PumpAction::RequestName("org.mpris.MediaPlayer2.b".to_string())
    );
    assert_eq!(session.next_action(), PumpAction::Poll { dispatch: false });
}

#[test]
fn teardown_releases_the_name_and_leaves() {
    let mut session = connected();
    session.name_requested("org.mpris.MediaPlayer2.a".to_string(), RequestNameReply::PrimaryOwner);
    session.emit_message(Signal::Seeked(1));
    session.terminate();
    assert_eq!(
        session.next_action(),
        PumpAction::ReleaseName("org.mpris.MediaPlayer2.a".to_string())
    );
    assert_eq!(session.next_action(), PumpAction::Exit);
    assert!(session.has_exited());
    assert!(!session.owns_name());
    assert_eq!(session.next_action(), PumpAction::Exit);
}

#[test]
fn teardown_without_a_name_or_a_connection_leaves_at_once() {
    let mut session = connected();
    session.terminate();
    assert_eq!(session.next_action(), PumpAction::Exit);
    let mut session = DBusSession::new();
    session.terminate();
    assert_eq!(session.next_action(), PumpAction::Exit);
    assert!(session.has_exited());
}

#[test]
fn a_name_can_be_registered_again_after_it_was_given_back() {
    let mut session = connected();
    session.register("a");
    let first = match session.next_action() {
        PumpAction::RequestName(name) => name,
        other => panic!("unexpected action {:?}", other),
    };
    assert!(session.name_requested(first, RequestNameReply::PrimaryOwner));
    session.unregister("a");
    assert_eq!(
        session.next_action(),
        PumpAction::ReleaseName("org.mpris.MediaPlayer2.a".to_string())
    );
    assert!(session.name_released(ReleaseNameReply::Released));
    session.register("a");
    let second = match session.next_action() {
        PumpAction::RequestName(name) => name,
        other => panic!("unexpected action {:?}", other),
    };
    assert_eq!(second, "org.mpris.MediaPlayer2.a");
    assert!(session.name_requested(second, RequestNameReply::PrimaryOwner));
    assert!(session.owns_name());
}

#[test]
fn the_answer_to_a_registration_has_three_meanings() {
    assert_eq!(DBusSession::registration_result(Some(true)), Ok(()));
    assert_eq!(DBusSession::registration_result(Some(false)), Err(MediaError::NameTaken));
    assert_eq!(DBusSession::registration_result(None), Err(MediaError::Timeout));
}

#[test]
fn a_pending_answer_hands_the_answer_over() {
    let (sender, pending) = PendingAnswer::new();
    sender.send(true).unwrap();
    assert_eq!(pending.wait(), Some(true));
    let (sender, pending) = PendingAnswer::new();
    sender.send(false).unwrap();
    assert_eq!(pending.wait(), Some(false));
}

#[test]
fn a_grant_is_a_registration() {
    let (sender, pending) = PendingAnswer::new();
    sender.send(true).unwrap();
    assert_eq!(pending.wait_for_registration(), Ok(()));
}

#[test]
fn a_refusal_is_a_taken_name() {
    let (sender, pending) = PendingAnswer::new();
    sender.send(false).unwrap();
    assert_eq!(pending.wait_for_registration(), Err(MediaError::NameTaken));
}

#[test]
fn a_dropped_request_is_a_timeout() {
    let (sender, pending) = PendingAnswer::new();
    drop(sender);
    assert_eq!(pending.wait_for_registration(), Err(MediaError::Timeout));
}

#[test]
fn silence_is_a_timeout_after_the_bound() {
    assert_eq!(ANSWER_BOUND_SECS, 1);
    let (sender, pending) = PendingAnswer::new();
    let started = std::time::Instant::now();
    assert_eq!(pending.wait(), None);
    let waited = started.elapsed();
    assert!(waited >= std::time::Duration::from_millis(900));
    assert!(waited < std::time::Duration::from_secs(10));
    drop(sender);
}
