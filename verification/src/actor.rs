//! What an actor is.
use crate::channel::PriorityChannelRx;
use vstd::prelude::*;

verus! {

/// Marks a type of events that an actor takes.
pub trait Event {

}

/// An actor for events of type `T`.
pub trait Actor<T: Event + Send> {
    /// The end of a channel from which the actor takes its events.
    type Rx;

    /// How the actor fails.
    type Error;

    /// What running the actor yields: what the runtime carries on with, such as a future.
    type Result;

    /// Runs the actor.
    fn run(self) -> Self::Result where Self: Sized;
}

/// The states that an actor reports.
#[derive(Clone, Debug, PartialEq, Eq, Structural)]
pub enum ActorState {
    Stopped,
    Started,
    Running,
    Stopping,
    Shuttingdown,
}

/// An actor that takes the messages of a supervisor besides its events.
pub trait SupervisedActor<T: Event + Send>: Actor<T> {

}

/// An actor that takes its events in order of priority.
pub trait PriorityActor<T: Event + Send>: Actor<T> where Self: Sized {
    /// The end of a priority channel from which the actor takes its events.
    type Rx: PriorityChannelRx<T>;

    /// Runs the actor as [`Actor::run`] does. Nothing is stated of the result: a clause on it
    /// stands for a call of `run` on the actor, which could mean either of the two methods.
    fn run(self) -> <Self as Actor<T>>::Result {
        <Self as Actor<T>>::run(self)
    }
}

} // verus!
