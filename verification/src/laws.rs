//! What holds of the session as a whole, proved from the contracts of its
//! parts.

use crate::error::MethodError;
use crate::events::{Button, Delivery, HostEvent};
use crate::kinds::{MediaPlayerMediaType, MediaPlayerPlaybackStatus};
use crate::listeners::lemma_delivery_count;
use crate::platform::{flag_update, published, status_update, Capability, Platform};
use crate::player::{after_timeline, announced, MediaPlayerView};
use crate::publish::{no_changes, PropertiesChangedView, SignalView};
use crate::router::{button_enabled, button_routed, position_request_accepted, PlayerView};
use crate::service::{display_of, service_changed, ServiceView};
use crate::session::{pump_step, PumpActionView, SessionView};
use crate::state::StateView;
use crate::text::spec_track_path;
use crate::timeline::{distance, is_seek, timeline_fault, timeline_valid};
use std::time::Instant;
use vstd::prelude::*;

verus! {

/// A timeline with `0 <= position <= duration` has no fault, and once it is
/// set the state holds exactly that duration and position, and the moment at
/// which it was set, whether or not the position jumped. Every other
/// timeline has a fault, for which the setters leave the player as it was.
pub proof fn lemma_timeline_is_kept(
    before: MediaPlayerView,
    duration: int,
    position: int,
    seek: bool,
    now: Instant,
)
    ensures
        timeline_valid(duration, position) <==> timeline_fault(duration, position) is None,
        after_timeline(before, duration, position, seek, now).player.state.duration == duration,
        after_timeline(before, duration, position, seek, now).player.state.position == position,
        after_timeline(before, duration, position, seek, now).player.state.last_updated_position
            == now,
        timeline_valid(duration, position) ==> timeline_valid(
            after_timeline(before, duration, position, seek, now).player.state.duration,
            after_timeline(before, duration, position, seek, now).player.state.position,
        ),
{
}

/// Setting a playback status that is known a second time leaves the state
/// as the first time left it, and each of the two calls queues its own
/// signal for the bus: two equal signals wait behind those that waited
/// before.
pub proof fn lemma_setting_twice_publishes_twice(
    before: MediaPlayerView,
    status: MediaPlayerPlaybackStatus,
)
    ensures
        ({
            let change = PropertiesChangedView { playback_status: Some(status), ..no_changes() };
            let once = announced(
                before,
                StateView { playback_status: status, ..before.player.state },
                change,
            );
            let twice = announced(
                once,
                StateView { playback_status: status, ..once.player.state },
                change,
            );
            &&& twice.player == once.player
            &&& twice.active == once.active
            &&& twice.service_name == once.service_name
            &&& twice.session.outbox == before.session.outbox.push(
                SignalView::PropertiesChanged(change),
            ).push(SignalView::PropertiesChanged(change))
            &&& twice.session.outbox.len() == before.session.outbox.len() + 2
        }),
{
}

/// A setter of the player that is accepted queues exactly one signal, behind
/// those that waited before, and that signal carries the change.
pub proof fn lemma_one_signal_for_each_change(
    before: MediaPlayerView,
    state: StateView,
    changes: PropertiesChangedView,
)
    ensures
        announced(before, state, changes).session.outbox.len() == before.session.outbox.len() + 1,
        announced(before, state, changes).session.outbox.last() == SignalView::PropertiesChanged(
            changes,
        ),
        announced(before, state, changes).session.outbox.drop_last() == before.session.outbox,
{
    assert(before.session.outbox.push(SignalView::PropertiesChanged(changes)).drop_last()
        =~= before.session.outbox);
}

/// On a media service, setting a playback status that is known a second
/// time leaves the state as the first time left it, and each of the two
/// calls queues the same update for the platform.
pub proof fn lemma_service_publishes_each_time(
    before: ServiceView,
    status: MediaPlayerPlaybackStatus,
)
    ensures
        ({
            let update = status_update(before.platform, status);
            let once = service_changed(
                before,
                StateView { playback_status: status, ..before.state },
                update,
            );
            let twice = service_changed(
                once,
                StateView { playback_status: status, ..once.state },
                status_update(once.platform, status),
            );
            &&& twice.state == once.state
            &&& twice.outbox == published(published(before.outbox, update), update)
            &&& before.platform != Platform::Unsupported ==> twice.outbox.len()
                == before.outbox.len() + 2
        }),
{
}

/// A button that the state lets through reaches every button listener
/// exactly once, so with one listener there is exactly one delivery, and it
/// carries that button. A button that the state does not let through reaches
/// nobody; for stop and play-pause the caller is told so with an error, for
/// the others the request is dropped without one.
pub proof fn lemma_button_gating(
    player: PlayerView,
    button: Button,
    outcome: Result<Vec<Delivery>, MethodError>,
)
    requires
        button_routed(player, button, outcome),
    ensures
        button_enabled(player.state, button) ==> outcome is Ok
            && player.button_pressed.dom().finite() && outcome->Ok_0@.len()
            == player.button_pressed.dom().len() && forall|i: int|
            0 <= i < outcome->Ok_0@.len() ==> (#[trigger] outcome->Ok_0@[i]).event
                == HostEvent::Button(button),
        !button_enabled(player.state, button) && (button == Button::Stop || button
            == Button::PlayPause) ==> outcome is Err,
        !button_enabled(player.state, button) && button != Button::Stop && button
            != Button::PlayPause ==> outcome is Ok && outcome->Ok_0@.len() == 0,
{
    if button_enabled(player.state, button) {
        lemma_delivery_count(outcome->Ok_0@, player.button_pressed, HostEvent::Button(button));
    }
}

/// A change of position that is not larger than the playback rate is never
/// a jump, however little time has passed; a larger one is a jump exactly
/// when less than a second has passed.
pub proof fn lemma_seek_rule(previous: int, position: int, rate: int, elapsed_secs: int)
    ensures
        distance(previous, position) <= rate ==> !is_seek(previous, position, rate, elapsed_secs),
        distance(previous, position) > rate ==> (is_seek(previous, position, rate, elapsed_secs)
            <==> elapsed_secs < 1),
{
}

/// A request to set the position that names another track than the one
/// published now is not accepted, whatever else it says.
pub proof fn lemma_stale_request_is_dropped(state: StateView, track: Seq<char>, position: int)
    requires
        track != spec_track_path(state.track_id),
    ensures
        !position_request_accepted(state, track, position),
{
}

/// What a setter of the player puts into the state is what the paired getter
/// reads from it afterwards.
pub proof fn lemma_player_round_trip(
    before: MediaPlayerView,
    changes: PropertiesChangedView,
    enabled: bool,
    text: Seq<char>,
    rate: int,
    status: MediaPlayerPlaybackStatus,
    media_type: MediaPlayerMediaType,
)
    ensures
        ({
            let state = StateView { can_play: enabled, ..before.player.state };
            announced(before, state, changes).player.state.can_play == enabled
        }),
        ({
            let state = StateView { can_pause: enabled, ..before.player.state };
            announced(before, state, changes).player.state.can_pause == enabled
        }),
        ({
            let state = StateView { can_go_previous: enabled, ..before.player.state };
            announced(before, state, changes).player.state.can_go_previous == enabled
        }),
        ({
            let state = StateView { can_go_next: enabled, ..before.player.state };
            announced(before, state, changes).player.state.can_go_next == enabled
        }),
        ({
            let state = StateView { can_seek: enabled, ..before.player.state };
            announced(before, state, changes).player.state.can_seek == enabled
        }),
        ({
            let state = StateView { playback_rate: rate, ..before.player.state };
            announced(before, state, changes).player.state.playback_rate == rate
        }),
        ({
            let state = StateView { playback_status: status, ..before.player.state };
            announced(before, state, changes).player.state.playback_status == status
        }),
        ({
            let state = StateView { media_type: media_type, ..before.player.state };
            announced(before, state, changes).player.state.media_type == media_type
        }),
        ({
            let state = StateView { title: text, ..before.player.state };
            announced(before, state, changes).player.state.title == text
        }),
        ({
            let state = StateView { artist: text, ..before.player.state };
            announced(before, state, changes).player.state.artist == text
        }),
        ({
            let state = StateView { album_title: text, ..before.player.state };
            announced(before, state, changes).player.state.album_title == text
        }),
        ({
            let state = StateView { track_id: text, ..before.player.state };
            announced(before, state, changes).player.state.track_id == text
        }),
{
}

/// What a setter of the media service puts into the state is what the
/// paired getter reads from it afterwards, on every platform.
pub proof fn lemma_service_round_trip(
    before: ServiceView,
    enabled: bool,
    text: Seq<char>,
    status: MediaPlayerPlaybackStatus,
    media_type: MediaPlayerMediaType,
)
    ensures
        service_changed(
            before,
            StateView { can_control: enabled, ..before.state },
            flag_update(before.platform, Capability::Control, enabled),
        ).state.can_control == enabled,
        service_changed(
            before,
            StateView { can_play: enabled, ..before.state },
            flag_update(before.platform, Capability::Play, enabled),
        ).state.can_play == enabled,
        service_changed(
            before,
            StateView { can_pause: enabled, ..before.state },
            flag_update(before.platform, Capability::Pause, enabled),
        ).state.can_pause == enabled,
        service_changed(
            before,
            StateView { can_go_previous: enabled, ..before.state },
            flag_update(before.platform, Capability::Previous, enabled),
        ).state.can_go_previous == enabled,
        service_changed(
            before,
            StateView { can_go_next: enabled, ..before.state },
            flag_update(before.platform, Capability::Next, enabled),
        ).state.can_go_next == enabled,
        service_changed(
            before,
            StateView { playback_status: status, ..before.state },
            status_update(before.platform, status),
        ).state.playback_status == status,
        MediaPlayerPlaybackStatus::spec_from_code(status.spec_code()) == status,
        ({
            let state = StateView { media_type: media_type, ..before.state };
            service_changed(before, state, display_of(before.platform, state)).state.media_type
                == media_type
        }),
        MediaPlayerMediaType::spec_from_code(media_type.spec_code()) == media_type,
        ({
            let state = StateView { artist: text, ..before.state };
            service_changed(before, state, display_of(before.platform, state)).state.artist == text
        }),
        ({
            let state = StateView { album_artist: text, ..before.state };
            service_changed(before, state, display_of(before.platform, state)).state.album_artist
                == text
        }),
        ({
            let state = StateView { album_title: text, ..before.state };
            service_changed(before, state, display_of(before.platform, state)).state.album_title
                == text
        }),
        ({
            let state = StateView { title: text, ..before.state };
            service_changed(before, state, display_of(before.platform, state)).state.title == text
        }),
        ({
            let state = StateView { track_id: text, ..before.state };
            service_changed(before, state, display_of(before.platform, state)).state.track_id
                == text
        }),
{
}

/// The actions of the next `steps` steps of the pump, in their order.
pub open spec fn pump_actions(session: SessionView, steps: nat) -> Seq<PumpActionView>
    decreases steps,
{
    if steps == 0 {
        Seq::empty()
    } else {
        seq![pump_step(session).1] + pump_actions(pump_step(session).0, (steps - 1) as nat)
    }
}

/// The session after the next `steps` steps of the pump.
pub open spec fn pump_after(session: SessionView, steps: nat) -> SessionView
    decreases steps,
{
    if steps == 0 {
        session
    } else {
        pump_after(pump_step(session).0, (steps - 1) as nat)
    }
}

/// A pump in its steady state, with no request waiting: it has a
/// connection, and was not told to shut down.
pub open spec fn steady(session: SessionView) -> bool {
    &&& session.connected
    &&& !session.terminating
    &&& !session.exited
    &&& session.register_queue.len() == 0
    &&& session.unregister_queue.len() == 0
}

/// The signals that wait leave in the order in which they were queued: a
/// steady pump sends them one by one from the oldest to the newest, and then
/// nothing waits any more.
pub proof fn lemma_signals_leave_in_order(session: SessionView)
    requires
        steady(session),
    ensures
        pump_actions(session, session.outbox.len()) == Seq::new(
            session.outbox.len(),
            |i: int| PumpActionView::Send(session.outbox[i]),
        ),
        pump_after(session, session.outbox.len()) == (SessionView {
            outbox: Seq::empty(),
            ..session
        }),
    decreases session.outbox.len(),
{
    let sent = Seq::new(session.outbox.len(), |i: int| PumpActionView::Send(session.outbox[i]));
    if session.outbox.len() == 0 {
        assert(pump_actions(session, 0) =~= sent);
        assert(session.outbox =~= Seq::empty());
    } else {
        let next = pump_step(session).0;
        assert(next.outbox == session.outbox.drop_first());
        assert(steady(next));
        lemma_signals_leave_in_order(next);
        let rest = Seq::new(next.outbox.len(), |i: int| PumpActionView::Send(next.outbox[i]));
        assert(pump_actions(session, session.outbox.len()) == seq![pump_step(session).1]
            + pump_actions(next, next.outbox.len()));
        assert(seq![pump_step(session).1] + rest =~= sent);
    }
}

/// A running pump that was told to shut down has left after two steps at
/// the most, owning no name; if it owned one and had a connection, its first
/// step gives the name back.
pub proof fn lemma_teardown_releases_the_name(session: SessionView)
    requires
        session.terminating,
        !session.exited,
    ensures
        pump_after(session, 2).exited,
        pump_after(session, 2).owned_name is None,
        session.connected && session.owned_name is Some ==> pump_step(session).1
            == PumpActionView::ReleaseName(session.owned_name->Some_0),
{
    let first = pump_step(session).0;
    let second = pump_step(first).0;
    assert(pump_after(session, 2) == pump_after(first, 1));
    assert(pump_after(first, 1) == pump_after(second, 0));
    assert(pump_after(second, 0) == second);
}

} // verus!
