//! Calls that are made once.
//!
//! A [`Lender`] keeps a function and cannot call it: nothing is known of the function's type. It
//! lends the function out for one actor at a time, as an [`Errand`], and records for whom. An errand
//! can be run only by giving it up, and to the errand the function is one that may be called a
//! single time. So the record holds an actor as often as the function may be called for it.
use crate::ActorId;
use vstd::prelude::*;

verus! {

/// A function that is to be called once, for one actor.
pub struct Errand<G> {
    call: G,
    id: ActorId,
}

impl<G> Errand<G> {
    /// What is to be called.
    pub closed spec fn call(self) -> G {
        self.call
    }

    /// The actor that it is to be called for.
    pub closed spec fn id(self) -> ActorId {
        self.id
    }

    /// Calls the function, which uses the errand up.
    pub fn run<B>(self, arg: Option<B>) where G: FnOnce(ActorId, Option<B>)
        requires
            call_requires(self.call(), (self.id(), arg)),
        ensures
            call_ensures(self.call(), (self.id(), arg), ()),
    {
        (self.call)(self.id, arg)
    }
}

/// Keeps a function and lends it out. Its view is the record of the actors that it was lent out
/// for, which exists in contracts only.
pub struct Lender<F> {
    function: F,
    record: Ghost<Seq<ActorId>>,
}

impl<F> View for Lender<F> {
    type V = Seq<ActorId>;

    closed spec fn view(&self) -> Seq<ActorId> {
        self.record@
    }
}

impl<F> Lender<F> {
    /// What is lent out.
    pub closed spec fn function(&self) -> F {
        self.function
    }

    /// A lender that has lent nothing out.
    pub fn new(function: F) -> (lender: Self)
        ensures
            lender.function() == function,
            lender@ == Seq::<ActorId>::empty(),
    {
        Lender { function, record: Ghost(Seq::empty()) }
    }

    /// Lends the function out for one call, for one actor.
    pub fn lend(&mut self, id: ActorId) -> (errand: Errand<&F>)
        ensures
            *errand.call() == old(self).function(),
            errand.id() == id,
            final(self)@ == old(self)@.push(id),
            final(self).function() == old(self).function(),
    {
        self.record = Ghost(self.record@.push(id));
        Errand { call: &self.function, id }
    }
}

} // verus!
