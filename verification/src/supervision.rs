//! Supervision of running actors by heartbeat.
//!
//! A pass asks the supervisor which actors are registered and checks the heartbeat of each in turn.
//! Where a check fails, the recovery function that the caller provided runs before the next check.
//! The runtime makes the requests and waits; the pass says which request is due and what follows
//! from its outcome.
use crate::recovery::{callable, called, Recovery};
use crate::supervisor::SupervisorResult;
use crate::supervisor_handle::{asks_heartbeat, asks_ids, HandleResult, Request, SupervisorHandle};
use crate::ActorId;
use vstd::prelude::*;

verus! {

/// Supervision of the actors of one supervisor.
pub struct Supervision<B: Send + Clone, F: Fn(ActorId, Option<B>)> {
    handle: SupervisorHandle,
    recovery: Recovery<B, F>,
}

impl<B: Send + Clone, F: Fn(ActorId, Option<B>)> Supervision<B, F> {
    /// The handle to the supervisor.
    pub closed spec fn handle(&self) -> SupervisorHandle {
        self.handle
    }

    /// What runs for an actor whose heartbeat fails.
    pub closed spec fn recovery(&self) -> F {
        self.recovery.function()
    }

    /// The argument that the recovery gets a clone of.
    pub closed spec fn argument(&self) -> Option<B> {
        self.recovery.argument()
    }

    /// The actors for which the recovery ran so far, in order.
    pub closed spec fn recovered(&self) -> Seq<ActorId> {
        self.recovery@
    }

    /// Supervises the actors behind `handle`, with a recovery function and an argument for it.
    pub fn new(handle: SupervisorHandle, handler_func: F, optional_arg: Option<B>) -> (supervision:
        Self)
        ensures
            supervision.handle() == handle,
            supervision.recovery() == handler_func,
            supervision.argument() == optional_arg,
            supervision.recovered() == Seq::<ActorId>::empty(),
    {
        Supervision { handle, recovery: Recovery::new(handler_func, optional_arg) }
    }

    /// The request that a pass begins with, for the identifiers of all registered actors.
    pub fn ids(&self) -> (request: Request<Vec<ActorId>>)
        ensures
            asks_ids(request, self.handle().channel()),
    {
        self.handle.ids()
    }

    /// The request that checks one actor.
    pub fn heartbeat_check(&self, id: ActorId) -> (request: Request<SupervisorResult<()>>)
        ensures
            asks_heartbeat(request, self.handle().channel(), id),
    {
        self.handle.heartbeat(id)
    }

    /// Begins a pass over the actors that were listed. Without a list there is none to check.
    pub fn begin(self, listed: HandleResult<Vec<ActorId>>) -> (pass: HeartbeatPass<B, F>)
        ensures
            pass.supervision() == self,
            pass@ == (PassView {
                ids: match listed {
                    Ok(ids) => ids@,
                    Err(_) => Seq::empty(),
                },
                next: 0,
                recovered: self.recovered(),
            }),
    {
        let ids: Vec<ActorId> = match listed {
            Ok(ids) => ids,
            Err(_) => Vec::new(),
        };
        HeartbeatPass { supervision: self, ids, next: 0 }
    }
}

/// How far a pass is.
#[verifier::ext_equal]
pub struct PassView {
    /// The actors to check, in order.
    pub ids: Seq<ActorId>,
    /// How many of them are checked.
    pub next: nat,
    /// The actors for which the recovery ran, in order.
    pub recovered: Seq<ActorId>,
}

impl PassView {
    /// The pass stands within its list.
    pub open spec fn wf(self) -> bool {
        self.next <= self.ids.len()
    }

    /// The pass after the actor that is due was checked.
    pub open spec fn after_check(self, alive: bool) -> PassView {
        PassView {
            ids: self.ids,
            next: self.next + 1,
            recovered: if alive {
                self.recovered
            } else {
                self.recovered.push(self.ids[self.next as int])
            },
        }
    }
}

/// A pass over the heartbeats of listed actors.
pub struct HeartbeatPass<B: Send + Clone, F: Fn(ActorId, Option<B>)> {
    supervision: Supervision<B, F>,
    ids: Vec<ActorId>,
    next: usize,
}

impl<B: Send + Clone, F: Fn(ActorId, Option<B>)> View for HeartbeatPass<B, F> {
    type V = PassView;

    closed spec fn view(&self) -> PassView {
        PassView {
            ids: self.ids@,
            next: self.next as nat,
            recovered: self.supervision.recovered(),
        }
    }
}

impl<B: Send + Clone, F: Fn(ActorId, Option<B>)> HeartbeatPass<B, F> {
    /// The supervision that the pass belongs to.
    pub closed spec fn supervision(&self) -> Supervision<B, F> {
        self.supervision
    }

    /// The actor to check next, with the request for it; none once the pass is over.
    pub fn due(&self) -> (due: Option<(ActorId, Request<SupervisorResult<()>>)>)
        ensures
            match due {
                Some((id, request)) => {
                    &&& self@.next < self@.ids.len()
                    &&& id == self@.ids[self@.next as int]
                    &&& asks_heartbeat(request, self.supervision().handle().channel(), id)
                },
                None => self@.next >= self@.ids.len(),
            },
    {
        if self.next < self.ids.len() {
            let id: ActorId = self.ids[self.next];
            Some((id, self.supervision.heartbeat_check(id)))
        } else {
            None
        }
    }

    /// Takes the outcome of the check that was due, and runs the recovery if the check failed.
    pub fn checked(&mut self, outcome: HandleResult<()>)
        requires
            old(self)@.next < old(self)@.ids.len(),
            outcome is Err ==> callable(
                old(self).supervision().recovery(),
                old(self)@.ids[old(self)@.next as int],
                old(self).supervision().argument(),
            ),
        ensures
            final(self)@ == old(self)@.after_check(outcome is Ok),
            final(self).supervision().handle() == old(self).supervision().handle(),
            final(self).supervision().recovery() == old(self).supervision().recovery(),
            final(self).supervision().argument() == old(self).supervision().argument(),
            outcome is Err ==> called(
                old(self).supervision().recovery(),
                old(self)@.ids[old(self)@.next as int],
                old(self).supervision().argument(),
            ),
    {
        let id: ActorId = self.ids[self.next];
        assert(self.next < self.ids.len());
        if outcome.is_err() {
            self.supervision.recovery.run(id);
        }
        self.next = self.next + 1;
    }
}

} // verus!
