//! The session's place on the bus, as a state machine.
//!
//! One background thread owns the connection. This module holds everything
//! that thread and its callers decide: the queues through which the callers
//! reach it, which name it owns, what it has to do next, and what follows
//! from each answer of the bus. The thread itself only carries out the
//! actions and reports the answers.

use crate::error::MediaError;
use crate::publish::{signal_views, Signal, SignalView};
use crate::text::{bus_name, spec_bus_name};
use oneshot::{Receiver, Sender};
use std::time::Duration;
use vstd::prelude::*;
use vstd::string::*;

verus! {

/// The answer of the bus to a request for a name.
#[derive(Clone, Copy, Debug, PartialEq, Eq, Structural)]
pub enum RequestNameReply {
    /// The name is ours.
    PrimaryOwner,
    /// The name has an owner; we wait in its queue.
    InQueue,
    /// The name has an owner and we do not wait.
    Exists,
    /// The name was ours already.
    AlreadyOwner,
    /// The bus did not answer the request.
    Failed,
}

/// The answer of the bus to giving a name back.
#[derive(Clone, Copy, Debug, PartialEq, Eq, Structural)]
pub enum ReleaseNameReply {
    /// The name was given back.
    Released,
    /// Nobody owned the name.
    NonExistent,
    /// Somebody else owns the name.
    NotOwner,
    /// The bus did not answer the request.
    Failed,
}

/// What the pump thread has to do next.
#[derive(Debug, PartialEq, Eq)]
pub enum PumpAction {
    /// Open a connection to the session bus and report with
    /// `connection_opened`.
    Connect,
    /// Ask the bus for the name and report with `name_requested`; its answer
    /// goes back to the caller who asked.
    RequestName(String),
    /// Give the name back and report with `name_released`; its answer goes
    /// back to the caller who asked, if one did.
    ReleaseName(String),
    /// A caller asked to give a name back while none was owned: the request
    /// gets no answer.
    DropRequest,
    /// Send the signal.
    Send(Signal),
    /// Read what has arrived without waiting; hand every call that was
    /// received to the player if `dispatch` is set, and drop it otherwise.
    Poll { dispatch: bool },
    /// Leave the thread.
    Exit,
}

/// An action as plain mathematical values.
pub enum PumpActionView {
    Connect,
    RequestName(Seq<char>),
    ReleaseName(Seq<char>),
    DropRequest,
    Send(SignalView),
    Poll { dispatch: bool },
    Exit,
}

impl View for PumpAction {
    type V = PumpActionView;

    open spec fn view(&self) -> PumpActionView {
        match self {
            PumpAction::Connect => PumpActionView::Connect,
            PumpAction::RequestName(name) => PumpActionView::RequestName(name@),
            PumpAction::ReleaseName(name) => PumpActionView::ReleaseName(name@),
            PumpAction::DropRequest => PumpActionView::DropRequest,
            PumpAction::Send(signal) => PumpActionView::Send(signal@),
            PumpAction::Poll { dispatch } => PumpActionView::Poll { dispatch: *dispatch },
            PumpAction::Exit => PumpActionView::Exit,
        }
    }
}

/// The session as plain mathematical values. The queues are in the order in
/// which their entries arrived.
pub struct SessionView {
    /// Whether the pump has a connection to the bus.
    pub connected: bool,
    /// The bus name that the session owns, if it owns one.
    pub owned_name: Option<Seq<char>>,
    /// The names that callers asked to register.
    pub register_queue: Seq<Seq<char>>,
    /// The names that callers asked to give back.
    pub unregister_queue: Seq<Seq<char>>,
    /// The signals that wait to be sent.
    pub outbox: Seq<SignalView>,
    /// Whether the session was told to shut down.
    pub terminating: bool,
    /// Whether the pump has left its thread.
    pub exited: bool,
}

/// The views of a queue of names, in the queue's order.
pub open spec fn name_views(names: Seq<String>) -> Seq<Seq<char>> {
    Seq::new(names.len(), |i: int| names[i]@)
}

/// A session that was just created: no connection, no name, nothing queued.
pub open spec fn idle_session() -> SessionView {
    SessionView {
        connected: false,
        owned_name: None,
        register_queue: Seq::empty(),
        unregister_queue: Seq::empty(),
        outbox: Seq::empty(),
        terminating: false,
        exited: false,
    }
}

/// One step of the pump: the session afterwards and the action to carry out.
///
/// A pump that has left stays away. One that was told to shut down gives its
/// name back, if it owns one, and leaves. One without a connection opens one.
/// Otherwise the requests to register come first, then the requests to give a
/// name back, then the signals, each queue from its front; when all are
/// empty the pump reads what has arrived.
pub open spec fn pump_step(session: SessionView) -> (SessionView, PumpActionView) {
    if session.exited {
        (session, PumpActionView::Exit)
    } else if session.terminating {
        match session.owned_name {
            Some(name) if session.connected => (
                SessionView { owned_name: None, ..session },
                PumpActionView::ReleaseName(name),
            ),
            _ => (SessionView { owned_name: None, exited: true, ..session }, PumpActionView::Exit),
        }
    } else if !session.connected {
        (session, PumpActionView::Connect)
    } else if session.register_queue.len() > 0 {
        (
            SessionView { register_queue: session.register_queue.drop_first(), ..session },
            PumpActionView::RequestName(session.register_queue[0]),
        )
    } else if session.unregister_queue.len() > 0 {
        if session.owned_name is Some {
            (
                SessionView {
                    owned_name: None,
                    unregister_queue: session.unregister_queue.drop_first(),
                    ..session
                },
                PumpActionView::ReleaseName(session.unregister_queue[0]),
            )
        } else {
            (
                SessionView { unregister_queue: session.unregister_queue.drop_first(), ..session },
                PumpActionView::DropRequest,
            )
        }
    } else if session.outbox.len() > 0 {
        (
            SessionView { outbox: session.outbox.drop_first(), ..session },
            PumpActionView::Send(session.outbox[0]),
        )
    } else {
        (session, PumpActionView::Poll { dispatch: session.owned_name is Some })
    }
}

/// What a caller makes of the answer to its request to register: success
/// where the pump said yes, a taken name where it said no, and a timeout
/// where it said nothing within the caller's bound.
pub open spec fn spec_registration_result(reply: Option<bool>) -> Result<(), MediaError> {
    match reply {
        Some(true) => Ok(()),
        Some(false) => Err(MediaError::NameTaken),
        None => Err(MediaError::Timeout),
    }
}

/// `oneshot::Sender`, declared so that it can stand in signatures.
#[verifier::external_type_specification]
#[verifier::external_body]
#[verifier::reject_recursive_types(T)]
pub struct ExSender<T>(Sender<T>);

/// `oneshot::Receiver`, declared so that it can stand in fields and
/// signatures.
#[verifier::external_type_specification]
#[verifier::external_body]
#[verifier::reject_recursive_types(T)]
pub struct ExReceiver<T>(Receiver<T>);

/// `oneshot::RecvError`, declared because the receiving end is known to
/// Verus together with what it yields when it is awaited.
#[verifier::external_type_specification]
#[verifier::external_body]
pub struct ExRecvError(oneshot::RecvError);

/// `oneshot::channel`: the two ends of a new channel for one message.
/// Nothing is claimed of them.
#[verifier::external_body]
fn answer_channel() -> (ends: (Sender<bool>, Receiver<bool>)) {
    oneshot::channel()
}

/// `oneshot::Receiver::recv_timeout`: the message, if one arrives within the
/// bound. Whether one arrives is up to the other thread and the clock, so
/// nothing is claimed of the answer.
#[verifier::external_body]
fn receive_within(receiver: &Receiver<bool>, bound_secs: u64) -> (answer: Option<bool>) {
    receiver.recv_timeout(Duration::from_secs(bound_secs)).ok()
}

/// The whole seconds that a caller waits for the pump's answer.
pub const ANSWER_BOUND_SECS: u64 = 1;

/// The answer of the pump to one request, which has yet to arrive.
pub struct PendingAnswer {
    receiver: Receiver<bool>,
}

impl PendingAnswer {
    /// A place for one answer, and the end through which the pump gives it.
    pub fn new() -> (ends: (Sender<bool>, PendingAnswer)) {
        let (sender, receiver) = answer_channel();
        (sender, PendingAnswer { receiver })
    }

    /// Waits for the answer, but not longer than the bound; `None` stands
    /// for no answer. The pump is not held up by a caller that waits, and a
    /// caller is not held up for longer than the bound by a pump that does
    /// not answer.
    pub fn wait(self) -> (reply: Option<bool>) {
        receive_within(&self.receiver, ANSWER_BOUND_SECS)
    }

    /// Waits for the answer to a request to register and says what it means:
    /// success, a taken name, or a timeout.
    pub fn wait_for_registration(self) -> (result: Result<(), MediaError>)
        ensures
            exists|reply: Option<bool>| result == #[trigger] spec_registration_result(reply),
    {
        let reply = self.wait();
        DBusSession::registration_result(reply)
    }
}

/// The session's queues and what it owns on the bus.
pub struct DBusSession {
    connected: bool,
    owned_name: Option<String>,
    register_name: Vec<String>,
    unregister_name: Vec<String>,
    emit_message: Vec<Signal>,
    terminating: bool,
    exited: bool,
}

impl View for DBusSession {
    type V = SessionView;

    closed spec fn view(&self) -> SessionView {
        SessionView {
            connected: self.connected,
            owned_name: match self.owned_name {
                Some(name) => Some(name@),
                None => None,
            },
            register_queue: name_views(self.register_name@),
            unregister_queue: name_views(self.unregister_name@),
            outbox: signal_views(self.emit_message@),
            terminating: self.terminating,
            exited: self.exited,
        }
    }
}

impl DBusSession {
    /// A session without a connection, without a name and with empty queues.
    pub fn new() -> (session: DBusSession)
        ensures
            session@ == idle_session(),
    {
        let session = DBusSession {
            connected: false,
            owned_name: None,
            register_name: Vec::new(),
            unregister_name: Vec::new(),
            emit_message: Vec::new(),
            terminating: false,
            exited: false,
        };
        assert(session@.register_queue =~= Seq::empty());
        assert(session@.unregister_queue =~= Seq::empty());
        assert(session@.outbox =~= Seq::empty());
        session
    }

    /// Asks the pump to register the bus name of `name`. The answer arrives
    /// later; `registration_result` says what it means.
    pub fn register(&mut self, name: &str)
        ensures
            final(self)@ == (SessionView {
                register_queue: old(self)@.register_queue.push(spec_bus_name(name@)),
                ..old(self)@
            }),
    {
        self.register_name.push(bus_name(name));
        assert(self@.register_queue =~= old(self)@.register_queue.push(
            spec_bus_name(name@),
        ));
    }

    /// Asks the pump to give the bus name of `name` back.
    pub fn unregister(&mut self, name: &str)
        ensures
            final(self)@ == (SessionView {
                unregister_queue: old(self)@.unregister_queue.push(spec_bus_name(name@)),
                ..old(self)@
            }),
    {
        self.unregister_name.push(bus_name(name));
        assert(self@.unregister_queue =~= old(self)@.unregister_queue.push(
            spec_bus_name(name@),
        ));
    }

    /// Queues a signal behind those that wait already.
    pub fn emit_message(&mut self, message: Signal)
        ensures
            final(self)@ == (SessionView {
                outbox: old(self)@.outbox.push(message@),
                ..old(self)@
            }),
    {
        self.emit_message.push(message);
        assert(self@.outbox =~= old(self)@.outbox.push(message@));
    }

    /// Tells the session to shut down: at its next step the pump gives the
    /// name back, if it owns one, and then leaves.
    pub fn terminate(&mut self)
        ensures
            final(self)@ == (SessionView { terminating: true, ..old(self)@ }),
    {
        self.terminating = true;
    }

    /// What a caller makes of the answer to its request to register; `None`
    /// stands for no answer within the caller's bound.
    pub fn registration_result(reply: Option<bool>) -> (result: Result<(), MediaError>)
        ensures
            result == spec_registration_result(reply),
    {
        match reply {
            Some(true) => Ok(()),
            Some(false) => Err(MediaError::NameTaken),
            None => Err(MediaError::Timeout),
        }
    }

    /// Whether the pump has a connection to the bus.
    pub fn is_connected(&self) -> (connected: bool)
        ensures
            connected == self@.connected,
    {
        self.connected
    }

    /// Whether the session owns a bus name.
    pub fn owns_name(&self) -> (owns: bool)
        ensures
            owns == (self@.owned_name is Some),
    {
        self.owned_name.is_some()
    }

    /// Whether the pump has left its thread.
    pub fn has_exited(&self) -> (exited: bool)
        ensures
            exited == self@.exited,
    {
        self.exited
    }

    /// How many signals wait to be sent.
    pub fn pending_signals(&self) -> (pending: usize)
        ensures
            pending == self@.outbox.len(),
    {
        self.emit_message.len()
    }

    /// Takes the next step of the pump and says what the thread has to do.
    pub fn next_action(&mut self) -> (action: PumpAction)
        ensures
            (final(self)@, action@) == pump_step(old(self)@),
    {
        if self.exited {
            return PumpAction::Exit;
        }
        if self.terminating {
            let owned = self.owned_name.take();
            match owned {
                Some(name) => {
                    if self.connected {
                        return PumpAction::ReleaseName(name);
                    }
                },
                None => {},
            }
            self.exited = true;
            return PumpAction::Exit;
        }
        if !self.connected {
            return PumpAction::Connect;
        }
        if self.register_name.len() > 0 {
            let name = self.register_name.remove(0);
            assert(self@.register_queue =~= old(self)@.register_queue.drop_first());
            return PumpAction::RequestName(name);
        }
        if self.unregister_name.len() > 0 {
            let name = self.unregister_name.remove(0);
            assert(self@.unregister_queue =~= old(self)@.unregister_queue.drop_first());
            if self.owned_name.is_some() {
                self.owned_name = None;
                return PumpAction::ReleaseName(name);
            }
            return PumpAction::DropRequest;
        }
        if self.emit_message.len() > 0 {
            let signal = self.emit_message.remove(0);
            assert(self@.outbox =~= old(self)@.outbox.drop_first());
            return PumpAction::Send(signal);
        }
        PumpAction::Poll { dispatch: self.owned_name.is_some() }
    }

    /// Reports whether the connection could be opened. Where it could not,
    /// the next step tries again.
    pub fn connection_opened(&mut self, opened: bool)
        ensures
            final(self)@ == (SessionView { connected: opened, ..old(self)@ }),
    {
        self.connected = opened;
    }

    /// Reports the answer of the bus to a request for `name`, and says what
    /// goes back to the caller: `true` exactly when the session is now the
    /// primary owner, in which case it owns the name from here on.
    pub fn name_requested(&mut self, name: String, reply: RequestNameReply) -> (granted: bool)
        ensures
            granted == (reply == RequestNameReply::PrimaryOwner),
            granted ==> final(self)@ == (SessionView { owned_name: Some(name@), ..old(self)@ }),
            !granted ==> final(self)@ == old(self)@,
    {
        match reply {
            RequestNameReply::PrimaryOwner => {
                self.owned_name = Some(name);
                true
            },
            _ => false,
        }
    }

    /// Reports the answer of the bus to giving a name back, and says what
    /// goes back to the caller: `true` exactly when the name was released.
    pub fn name_released(&self, reply: ReleaseNameReply) -> (released: bool)
        ensures
            released == (reply == ReleaseNameReply::Released),
    {
        match reply {
            ReleaseNameReply::Released => true,
            _ => false,
        }
    }
}

} // verus!
