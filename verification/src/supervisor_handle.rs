//! The handle through which a running supervisor is asked to act.
//!
//! Each request names the action to deliver and the receiver on which its answer arrives. The
//! runtime delivers the one and waits on the other; what came back is read by the functions of
//! this module.
use crate::actor::ActorState;
use crate::channel::Delivery;
use crate::error::{recv_error_debug, relay, relayed, ActorError};
use crate::handle::{ActorHandle, Handle};
use crate::supervisor::{initial, Reply, Supervisee, Supervisor, SupervisorAction, SupervisorActionReply, SupervisorResult};
use crate::ActorId;
use vstd::prelude::*;
use vstd::string::*;

verus! {

/// What a request through a supervisor's handle comes to.
pub type HandleResult<T> = Result<T, ActorError<SupervisorAction>>;

/// How long a heartbeat may take, in seconds.
pub const HEARTBEAT_SECONDS: u64 = 5;

/// An action to deliver and where its answer arrives.
#[verifier::reject_recursive_types(R)]
pub struct Request<R> {
    /// The action, bound for the supervisor.
    pub delivery: Delivery<SupervisorAction>,
    /// Where the supervisor's answer arrives.
    pub answer: flume::Receiver<R>,
}

/// What ended the wait for a heartbeat.
pub enum HeartbeatEvent {
    /// The time for it ran out.
    TimedOut,
    /// The wait for the answer came back.
    Answered(Result<SupervisorResult<()>, flume::RecvError>),
}

/// Whether `request` asks the supervisor behind `channel` for `action`, and `reply`, on which the
/// action is answered, is the sending end that belongs to the receiver of the request.
pub open spec fn asks<R>(
    request: Request<R>,
    channel: flume::Sender<SupervisorAction>,
    reply: Reply<R>,
    action: SupervisorAction,
) -> bool {
    &&& call_ensures(flume::bounded::<R>, (1usize,), (reply, request.answer))
    &&& request.delivery == (Delivery { channel, event: action })
}

/// Whether `request` asks for the identifiers of all registered actors.
pub open spec fn asks_ids(
    request: Request<Vec<ActorId>>,
    channel: flume::Sender<SupervisorAction>,
) -> bool {
    exists|reply: Reply<Vec<ActorId>>| #[trigger]
        asks(request, channel, reply, SupervisorAction::GetCurrentIds { reply })
}

/// Whether `request` asks for the heartbeat of actor `id`.
pub open spec fn asks_heartbeat(
    request: Request<SupervisorResult<()>>,
    channel: flume::Sender<SupervisorAction>,
    id: ActorId,
) -> bool {
    exists|reply: SupervisorActionReply<()>| #[trigger]
        asks(request, channel, reply, SupervisorAction::Heartbeat { id, reply })
}

/// Reads what delivering a request came back with: where to wait, or the error to end with.
pub fn awaiting<M, R>(
    sent: Result<(), flume::SendError<M>>,
    answer: flume::Receiver<R>,
) -> (next: Result<flume::Receiver<R>, ActorError<M>>)
    ensures
        match sent {
            Ok(()) => next == Ok::<flume::Receiver<R>, ActorError<M>>(answer),
            Err(e) => next == Err::<flume::Receiver<R>, ActorError<M>>(ActorError::SendError(e)),
        },
{
    match sent {
        Ok(()) => Ok(answer),
        Err(e) => Err(ActorError::from(e)),
    }
}

/// How a wait for an answer is reported that ended without one.
pub open spec fn unanswered(error: ActorError<SupervisorAction>) -> bool {
    &&& error matches ActorError::ActorError(text)
    &&& text@ == "Send error "@ + "Disconnected"@
}

fn no_answer(e: flume::RecvError) -> (error: ActorError<SupervisorAction>)
    ensures
        unanswered(error),
{
    ActorError::ActorError("Send error ".to_owned().concat(recv_error_debug(&e).as_str()))
}

/// What a request comes to whose answer was waited for: the supervisor's own result, or the text
/// of what ended the wait.
pub open spec fn concluded<T>(
    received: Result<SupervisorResult<T>, flume::RecvError>,
    result: HandleResult<T>,
) -> bool {
    match received {
        Ok(Ok(value)) => result == Ok::<T, ActorError<SupervisorAction>>(value),
        Ok(Err(e)) => result matches Err(error) && relayed(e, error),
        Err(_) => result matches Err(error) && unanswered(error),
    }
}

/// Reads the supervisor's answer.
pub fn conclude<T>(received: Result<SupervisorResult<T>, flume::RecvError>) -> (result: HandleResult<
    T,
>)
    ensures
        concluded(received, result),
{
    match received {
        Ok(Ok(value)) => Ok(value),
        Ok(Err(e)) => Err(relay(e)),
        Err(e) => Err(no_answer(e)),
    }
}

/// Reads the supervisor's list of identifiers.
pub fn conclude_ids(received: Result<Vec<ActorId>, flume::RecvError>) -> (result: HandleResult<
    Vec<ActorId>,
>)
    ensures
        match received {
            Ok(ids) => result == Ok::<Vec<ActorId>, ActorError<SupervisorAction>>(ids),
            Err(_) => result matches Err(error) && unanswered(error),
        },
{
    match received {
        Ok(ids) => Ok(ids),
        Err(e) => Err(no_answer(e)),
    }
}

/// What a heartbeat comes to.
pub open spec fn heartbeat_concluded(
    id: ActorId,
    event: HeartbeatEvent,
    result: HandleResult<()>,
) -> bool {
    match event {
        HeartbeatEvent::TimedOut => result == Err::<(), ActorError<SupervisorAction>>(
            ActorError::HeartbeatTimeout(id),
        ),
        HeartbeatEvent::Answered(received) => concluded(received, result),
    }
}

/// Reads what ended the wait for a heartbeat.
pub fn conclude_heartbeat(id: ActorId, event: HeartbeatEvent) -> (result: HandleResult<()>)
    ensures
        heartbeat_concluded(id, event, result),
{
    match event {
        HeartbeatEvent::TimedOut => Err(ActorError::HeartbeatTimeout(id)),
        HeartbeatEvent::Answered(received) => conclude(received),
    }
}

/// Reaches a supervisor that runs as an actor. A supervisor can also be used on its own.
pub struct SupervisorHandle {
    handle: ActorHandle<
        SupervisorAction,
        flume::Sender<SupervisorAction>,
        flume::Receiver<SupervisorAction>,
    >,
}

impl Clone for SupervisorHandle {
    fn clone(&self) -> (copy: Self)
        ensures
            copy.channel() == self.channel(),
    {
        SupervisorHandle { handle: self.handle.clone() }
    }
}

impl SupervisorHandle {
    /// The channel to the supervisor.
    pub closed spec fn channel(&self) -> flume::Sender<SupervisorAction> {
        self.handle.sender()
    }

    /// A supervisor without actors, and the handle to it.
    pub fn new() -> (pair: (Supervisor, Self))
        ensures
            initial(pair.0@),
            pair.0@.wf(),
            call_ensures(
                flume::unbounded::<SupervisorAction>,
                (),
                (pair.1.channel(), pair.0.inbox()),
            ),
    {
        let (tx, rx) = flume::unbounded();
        let (supervisor, handle) = ActorHandle::new(Supervisor::new, tx, rx);
        (supervisor, SupervisorHandle { handle })
    }

    /// Asks for the setup of a new actor.
    pub fn new_supervisee_setup(&self) -> (request: Request<SupervisorResult<Supervisee>>)
        ensures
            exists|reply: SupervisorActionReply<Supervisee>| #[trigger]
                asks(request, self.channel(), reply, SupervisorAction::NewActorSetup { reply }),
    {
        let (tx, rx) = flume::bounded(1);
        let msg = SupervisorAction::NewActorSetup { reply: tx };
        let request = Request { delivery: self.handle.send(msg), answer: rx };
        assert(asks(request, self.channel(), tx, SupervisorAction::NewActorSetup { reply: tx }));
        request
    }

    /// Asks to start or restart an actor that is stopped.
    pub fn start_actor(&self, id: ActorId) -> (request: Request<SupervisorResult<()>>)
        ensures
            exists|reply: SupervisorActionReply<()>| #[trigger]
                asks(request, self.channel(), reply, SupervisorAction::Start { id, reply }),
    {
        let (tx, rx) = flume::bounded(1);
        let msg = SupervisorAction::Start { id, reply: tx };
        let request = Request { delivery: self.handle.send(msg), answer: rx };
        assert(asks(request, self.channel(), tx, SupervisorAction::Start { id, reply: tx }));
        request
    }

    /// Asks to stop an actor from processing events.
    pub fn suspend_actor(&self, id: ActorId) -> (request: Request<SupervisorResult<()>>)
        ensures
            exists|reply: SupervisorActionReply<()>| #[trigger]
                asks(request, self.channel(), reply, SupervisorAction::Suspend { id, reply }),
    {
        let (tx, rx) = flume::bounded(1);
        let msg = SupervisorAction::Suspend { id, reply: tx };
        let request = Request { delivery: self.handle.send(msg), answer: rx };
        assert(asks(request, self.channel(), tx, SupervisorAction::Suspend { id, reply: tx }));
        request
    }

    /// Asks to shut an actor down.
    pub fn shutdown_actor(&self, id: ActorId) -> (request: Request<SupervisorResult<()>>)
        ensures
            exists|reply: SupervisorActionReply<()>| #[trigger]
                asks(request, self.channel(), reply, SupervisorAction::Shutdown { id, reply }),
    {
        let (tx, rx) = flume::bounded(1);
        let msg = SupervisorAction::Shutdown { id, reply: tx };
        let request = Request { delivery: self.handle.send(msg), answer: rx };
        assert(asks(request, self.channel(), tx, SupervisorAction::Shutdown { id, reply: tx }));
        request
    }

    /// Asks for an actor's state.
    pub fn actor_state(&self, id: ActorId) -> (request: Request<SupervisorResult<ActorState>>)
        ensures
            exists|reply: SupervisorActionReply<ActorState>| #[trigger]
                asks(request, self.channel(), reply, SupervisorAction::State { id, reply }),
    {
        let (tx, rx) = flume::bounded(1);
        let msg = SupervisorAction::State { id, reply: tx };
        let request = Request { delivery: self.handle.send(msg), answer: rx };
        assert(asks(request, self.channel(), tx, SupervisorAction::State { id, reply: tx }));
        request
    }

    /// Asks for the identifiers of all registered actors.
    pub fn ids(&self) -> (request: Request<Vec<ActorId>>)
        ensures
            asks_ids(request, self.channel()),
    {
        let (tx, rx) = flume::bounded(1);
        let msg = SupervisorAction::GetCurrentIds { reply: tx };
        let request = Request { delivery: self.handle.send(msg), answer: rx };
        assert(asks(request, self.channel(), tx, SupervisorAction::GetCurrentIds { reply: tx }));
        request
    }

    /// Asks for an actor's heartbeat, to be waited for no longer than [`HEARTBEAT_SECONDS`].
    pub fn heartbeat(&self, id: ActorId) -> (request: Request<SupervisorResult<()>>)
        ensures
            asks_heartbeat(request, self.channel(), id),
    {
        let (tx, rx) = flume::bounded(1);
        let msg = SupervisorAction::Heartbeat { id, reply: tx };
        let request = Request { delivery: self.handle.send(msg), answer: rx };
        assert(asks(request, self.channel(), tx, SupervisorAction::Heartbeat { id, reply: tx }));
        request
    }
}

} // verus!
