//! What runs for an actor whose heartbeat fails.
use crate::errand::Lender;
use crate::ActorId;
use vstd::prelude::*;

verus! {

/// Whether `copy` is a clone of the optional argument `arg`.
pub open spec fn cloned_arg<B: Clone>(arg: Option<B>, copy: Option<B>) -> bool {
    match arg {
        Some(value) => copy matches Some(other) && cloned::<B>(value, other),
        None => copy is None,
    }
}

/// Whether `f` can be called for `id` with every clone of `arg`.
pub open spec fn callable<B: Clone, F: Fn(ActorId, Option<B>)>(
    f: F,
    id: ActorId,
    arg: Option<B>,
) -> bool {
    forall|copy: Option<B>|
        cloned_arg(arg, copy) ==> #[trigger] call_requires(f, (id, copy))
}

/// Whether `f` was called for `id` with a clone of `arg`.
pub open spec fn called<B: Clone, F: Fn(ActorId, Option<B>)>(
    f: F,
    id: ActorId,
    arg: Option<B>,
) -> bool {
    exists|copy: Option<B>|
        cloned_arg(arg, copy) && #[trigger] call_ensures(f, (id, copy), ())
}

/// A function to call for actors that failed, and the argument that it gets a clone of. Its view is
/// the record of the actors it was called for, once for each time that an actor stands in it; the
/// record exists in contracts only. There is no other way to the function than [`Recovery::run`],
/// and no other way there than to borrow the function for one call, which goes on the record.
pub struct Recovery<B: Send + Clone, F: Fn(ActorId, Option<B>)> {
    lender: Lender<F>,
    argument: Option<B>,
}

impl<B: Send + Clone, F: Fn(ActorId, Option<B>)> View for Recovery<B, F> {
    type V = Seq<ActorId>;

    closed spec fn view(&self) -> Seq<ActorId> {
        self.lender@
    }
}

impl<B: Send + Clone, F: Fn(ActorId, Option<B>)> Recovery<B, F> {
    /// What runs.
    pub closed spec fn function(&self) -> F {
        self.lender.function()
    }

    /// The argument that the function gets a clone of.
    pub closed spec fn argument(&self) -> Option<B> {
        self.argument
    }

    /// A recovery that ran for nobody.
    pub fn new(function: F, argument: Option<B>) -> (recovery: Self)
        ensures
            recovery.function() == function,
            recovery.argument() == argument,
            recovery@ == Seq::<ActorId>::empty(),
    {
        Recovery { lender: Lender::new(function), argument }
    }

    /// Runs the recovery for one actor.
    pub fn run(&mut self, id: ActorId)
        requires
            callable(old(self).function(), id, old(self).argument()),
        ensures
            called(old(self).function(), id, old(self).argument()),
            final(self)@ == old(self)@.push(id),
            final(self).function() == old(self).function(),
            final(self).argument() == old(self).argument(),
    {
        let arg = self.argument.clone();
        assert(cloned_arg(self.argument, arg));
        self.lender.lend(id).run(arg);
        assert(call_ensures(old(self).function(), (id, arg), ()));
    }
}

} // verus!
