//! An actor framework whose supervision logic is verified.
//!
//! Actors take events from channels and are reached through handles. A [`Supervisor`] keeps a line
//! to each actor in its care: it hands out identifiers, starts, stops and shuts actors down, and
//! checks their heartbeats. The crate decides what is sent to whom and what follows from each
//! outcome. It does not wait: wherever something has to be waited for, a function says what for
//! and another takes what came of it, so that any asynchronous runtime can drive it.

pub mod actor;
pub mod channel;
pub mod errand;
pub mod error;
pub mod guarantees;
pub mod handle;
pub mod laws;
pub mod priority;
pub mod recovery;
pub mod supervision;
pub mod supervisor;
pub mod supervisor_handle;
pub mod task;
pub mod text;

pub use actor::{Actor, ActorState, Event, PriorityActor, SupervisedActor};
pub use channel::{
    Channel, ChannelRx, ChannelTx, Delivery, PriorityChannelRx, PriorityChannelTx,
    PriorityDelivery, PriorityRx, PriorityTx,
};
pub use error::ActorError;
pub use handle::{
    ActorHandle, Handle, PriorityHandle, State, SupervisedActorHandle, SupervisedHandle,
};
pub use priority::PriorityEvent;
pub use supervision::{HeartbeatPass, Supervision};
pub use supervisor::{Supervisor, SupervisorAction, SupervisorMessage};
pub use supervisor_handle::SupervisorHandle;

use vstd::prelude::*;

verus! {

/// Identifies a supervised actor.
pub type ActorId = u16;

/// The handle to an actor that takes its events in order of priority.
pub type PriorityActorHandle<T> = ActorHandle<T, PriorityTx<T>, PriorityRx<T>>;

/// Builds an actor on a new unbounded priority channel, and the handle to it.
pub fn new_priority_actor_with_handle<T: Event + Send, A: Actor<T> + Sized + 'static>(
    constructor: impl FnOnce(async_priority_channel::Receiver<T, PriorityEvent>) -> A,
) -> (pair: (A, PriorityActorHandle<T>))
    requires
        forall|receiver: PriorityRx<T>| #[trigger] call_requires(constructor, (receiver,)),
    ensures
        exists|receiver: PriorityRx<T>|
            {
                &&& call_ensures(
                    async_priority_channel::unbounded::<T, PriorityEvent>,
                    (),
                    (pair.1.sender(), receiver),
                )
                &&& #[trigger] call_ensures(constructor, (receiver,), pair.0)
            },
{
    let (tx, rx) = async_priority_channel::unbounded();
    let pair = ActorHandle::new(constructor, tx, rx);
    assert(call_ensures(constructor, (rx,), pair.0));
    pair
}

} // verus!
