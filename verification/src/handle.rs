//! Handles, through which actors are reached.
use crate::actor::{Actor, ActorState, Event};
use crate::channel::{ChannelRx, ChannelTx, Delivery, PriorityChannelRx, PriorityChannelTx};
use crate::error::ActorError;
use crate::priority::PriorityEvent;
use crate::supervisor::SupervisorMessage;
use crate::ActorId;
use core::marker::PhantomData;
use vstd::prelude::*;

verus! {

/// Marks a type of states that a handle can report.
pub trait State {

}

/// Sends events to an actor.
pub trait Handle<T: Event + Send> {
    /// The states of the actor.
    type State;

    /// What sending yields.
    type Result;

    /// Sends an event to the actor.
    fn send(&self, event: T) -> Self::Result;
}

/// Sends events with priorities to an actor.
pub trait PriorityHandle<T: Event + Send> {
    /// The states of the actor.
    type State;

    /// What sending yields.
    type Result;

    /// Sends an event with a priority to the actor.
    fn send_with_priority(&self, event: T, priority: PriorityEvent) -> Self::Result;
}

/// Sends to an actor through the channel from which the actor takes its events.
#[verifier::reject_recursive_types(T)]
#[verifier::reject_recursive_types(R)]
pub struct ActorHandle<T: Event + Send, S: ChannelTx<T>, R: ChannelRx<T>> {
    sender: S,
    phantom: PhantomData<(T, R)>,
}

impl<T: Event + Send, S: ChannelTx<T>, R: ChannelRx<T>> ActorHandle<T, S, R> {
    /// The channel to the actor.
    pub closed spec fn sender(&self) -> S {
        self.sender
    }

    /// Builds an actor on the receiving end of a channel, and the handle to it on the sending end.
    pub fn new<A: Actor<T> + Sized + 'static>(
        constructor: impl FnOnce(R) -> A,
        sender: S,
        receiver: R,
    ) -> (pair: (A, Self))
        requires
            call_requires(constructor, (receiver,)),
        ensures
            call_ensures(constructor, (receiver,), pair.0),
            pair.1.sender() == sender,
    {
        let actor = constructor(receiver);
        (actor, ActorHandle { sender, phantom: PhantomData })
    }
}

impl<T: Event + Send, S: ChannelTx<T> + Clone, R: ChannelRx<T>> Clone for ActorHandle<T, S, R> {
    fn clone(&self) -> (copy: Self)
        ensures
            call_ensures(S::clone, (&self.sender(),), copy.sender()),
    {
        ActorHandle { sender: self.sender.clone(), phantom: PhantomData }
    }
}

impl<T: Event + Send + Sync, S: ChannelTx<T> + Send + Sync, R: ChannelRx<T> + Send + Sync> Handle<
    T,
> for ActorHandle<T, S, R> {
    type State = Box<dyn State>;
    type Result = <S as ChannelTx<T>>::Result;

    fn send(&self, event: T) -> (result: Self::Result)
        ensures
            call_ensures(S::send_event, (&self.sender(), event), result),
    {
        self.sender.send_event(event)
    }
}

impl<
    T: Event + Send + Sync,
    S: PriorityChannelTx<T> + Send + Sync,
    R: PriorityChannelRx<T> + Send + Sync,
> PriorityHandle<T> for ActorHandle<T, S, R> {
    type State = Box<dyn State>;
    type Result = <S as ChannelTx<T>>::Result;

    fn send_with_priority(&self, event: T, priority: PriorityEvent) -> (result: Self::Result)
        ensures
            call_ensures(S::send_with_priority, (&self.sender(), event, priority), result),
    {
        self.sender.send_with_priority(event, priority)
    }
}

/// Sends to an actor that is supervised, and to the actor's supervision line.
#[verifier::reject_recursive_types(T)]
pub struct SupervisedActorHandle<T: Event + Send> {
    sender: flume::Sender<T>,
    broadcast: flume::Sender<SupervisorMessage>,
    id: ActorId,
}

/// A question for an actor's state: what to deliver, and where the answer arrives.
pub struct StateQuery {
    /// The question, bound for the actor's supervision line.
    pub delivery: Delivery<SupervisorMessage>,
    /// Where the actor's state arrives.
    pub answer: flume::Receiver<ActorState>,
}

impl<T: Event + Send> Clone for SupervisedActorHandle<T> {
    fn clone(&self) -> (copy: Self)
        ensures
            copy == *self,
    {
        SupervisedActorHandle {
            sender: self.sender.clone(),
            broadcast: self.broadcast.clone(),
            id: self.id,
        }
    }
}

impl<T: Event + Send> Handle<T> for SupervisedActorHandle<T> {
    type State = ActorState;
    type Result = Delivery<T>;

    fn send(&self, event: T) -> (delivery: Delivery<T>)
        ensures
            delivery == (Delivery { channel: self.events(), event }),
    {
        self.sender.send_event(event)
    }
}

/// A handle to an actor that is supervised.
pub trait SupervisedHandle<T: Event + Send>: Handle<T> {
    /// What a subscription yields.
    type Rx;

    /// How a request through the handle fails.
    type Error;

    /// What sending to the supervision line yields.
    type Sending;

    /// What asking for the actor's state yields.
    type Query;

    /// Shuts the actor down.
    fn send_shutdown(&self) -> Self::Sending;

    /// Starts or restarts the actor.
    fn send_start(&self) -> Self::Sending;

    /// The channel on which the actor takes its events.
    fn subscribe_direct(&self) -> Self::Rx;

    /// Asks for the actor's state.
    fn actor_state(&self) -> Self::Query;
}

impl<T: Event + Send> SupervisedHandle<T> for SupervisedActorHandle<T> {
    type Rx = flume::Sender<T>;
    type Error = ActorError<SupervisorMessage>;
    type Sending = Delivery<SupervisorMessage>;
    type Query = StateQuery;

    fn send_shutdown(&self) -> (delivery: Delivery<SupervisorMessage>)
        ensures
            delivery == (Delivery { channel: self.line(), event: SupervisorMessage::Shutdown }),
    {
        self.supervisor_send(SupervisorMessage::Shutdown)
    }

    fn send_start(&self) -> (delivery: Delivery<SupervisorMessage>)
        ensures
            delivery == (Delivery { channel: self.line(), event: SupervisorMessage::Start }),
    {
        self.supervisor_send(SupervisorMessage::Start)
    }

    fn subscribe_direct(&self) -> (channel: flume::Sender<T>)
        ensures
            channel == self.events(),
    {
        self.handle_subscribe_direct()
    }

    fn actor_state(&self) -> (query: StateQuery)
        ensures
            asks_state(self.line(), query),
    {
        self.get_state()
    }
}

/// Whether `query` asks the actor behind `line` for its state, to be answered on a channel of its
/// own for one answer.
pub open spec fn asks_state(line: flume::Sender<SupervisorMessage>, query: StateQuery) -> bool {
    exists|reply: flume::Sender<ActorState>|
        {
            &&& #[trigger] call_ensures(
                flume::bounded::<ActorState>,
                (1usize,),
                (reply, query.answer),
            )
            &&& query.delivery == (Delivery {
                channel: line,
                event: SupervisorMessage::State { reply },
            })
        }
}

impl<T: Event + Send> SupervisedActorHandle<T> {
    /// The channel on which the actor takes its events.
    pub closed spec fn events(&self) -> flume::Sender<T> {
        self.sender
    }

    /// The line on which the actor takes the messages of its supervisor.
    pub closed spec fn line(&self) -> flume::Sender<SupervisorMessage> {
        self.broadcast
    }

    /// The actor's identifier.
    pub closed spec fn id(&self) -> ActorId {
        self.id
    }

    /// Builds an actor on a new channel of events and the given inbox, and the handle to it.
    pub fn new<A: Actor<T>>(
        broadcast: flume::Sender<SupervisorMessage>,
        bcast_rx: flume::Receiver<SupervisorMessage>,
        id: ActorId,
        constructor: impl FnOnce(flume::Receiver<T>, flume::Receiver<SupervisorMessage>) -> A,
    ) -> (pair: (A, Self))
        requires
            forall|receiver: flume::Receiver<T>| #[trigger]
                call_requires(constructor, (receiver, bcast_rx)),
        ensures
            exists|receiver: flume::Receiver<T>|
                {
                    &&& call_ensures(flume::unbounded::<T>, (), (pair.1.events(), receiver))
                    &&& #[trigger] call_ensures(constructor, (receiver, bcast_rx), pair.0)
                },
            pair.1.line() == broadcast,
            pair.1.id() == id,
    {
        let (sender, receiver) = flume::unbounded();
        let actor = constructor(receiver, bcast_rx);
        let handle = SupervisedActorHandle { sender, broadcast, id };
        let pair = (actor, handle);
        assert(call_ensures(constructor, (receiver, bcast_rx), pair.0));
        pair
    }

    /// The channel on which the actor takes its events.
    pub fn handle_subscribe_direct(&self) -> (channel: flume::Sender<T>)
        ensures
            channel == self.events(),
    {
        self.sender.clone()
    }

    /// The line on which the actor takes the messages of its supervisor.
    pub fn handle_subscribe_bcast(&self) -> (line: flume::Sender<SupervisorMessage>)
        ensures
            line == self.line(),
    {
        self.broadcast.clone()
    }

    /// Asks for the actor's state.
    pub fn get_state(&self) -> (query: StateQuery)
        ensures
            asks_state(self.line(), query),
    {
        let (tx, rx) = flume::bounded(1);
        let msg = SupervisorMessage::State { reply: tx };
        let query = StateQuery { delivery: self.supervisor_send(msg), answer: rx };
        assert(call_ensures(flume::bounded::<ActorState>, (1usize,), (tx, query.answer)));
        query
    }

    /// Sends an event to the actor.
    pub fn send(&self, event: T) -> (delivery: Delivery<T>)
        ensures
            delivery == (Delivery { channel: self.events(), event }),
    {
        Delivery { channel: self.sender.clone(), event }
    }

    /// Sends a message on the actor's supervision line.
    pub(crate) fn supervisor_send(&self, msg: SupervisorMessage) -> (delivery: Delivery<
        SupervisorMessage,
    >)
        ensures
            delivery == (Delivery { channel: self.line(), event: msg }),
    {
        Delivery { channel: self.broadcast.clone(), event: msg }
    }
}

} // verus!
