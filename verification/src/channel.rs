//! Channels to actors.
//!
//! Sending to a channel that may be full has to wait for room, which is the runtime's part. So
//! sending an event through one of the traits here yields a [`Delivery`]: the channel, the event
//! and, for a priority channel, its priority. The runtime hands the event over. The one kind of
//! channel that never makes its sender wait is an unbounded one, and an [`Outbox`]
//! hands messages to such channels at once.
use crate::actor::Event;
use crate::priority::PriorityEvent;
use vstd::prelude::*;

verus! {

/// `flume::Sender`, the sending end of a channel.
#[verifier::external_type_specification]
#[verifier::external_body]
#[verifier::reject_recursive_types(T)]
pub struct ExSender<T>(flume::Sender<T>);

/// `flume::Receiver`, the receiving end of a channel.
#[verifier::external_type_specification]
#[verifier::external_body]
#[verifier::reject_recursive_types(T)]
pub struct ExReceiver<T>(flume::Receiver<T>);

/// `flume::SendError`, which a refused send comes back with.
#[verifier::external_type_specification]
#[verifier::external_body]
#[verifier::reject_recursive_types(T)]
pub struct ExSendError<T>(flume::SendError<T>);

/// `async_priority_channel::Sender`, the sending end of a priority channel.
#[verifier::external_type_specification]
#[verifier::external_body]
#[verifier::reject_recursive_types(I)]
#[verifier::reject_recursive_types(P)]
pub struct ExPrioritySender<I, P>(async_priority_channel::Sender<I, P>) where P: Ord;

/// `async_priority_channel::Receiver`, the receiving end of a priority channel.
#[verifier::external_type_specification]
#[verifier::external_body]
#[verifier::reject_recursive_types(I)]
#[verifier::reject_recursive_types(P)]
pub struct ExPriorityReceiver<I, P>(async_priority_channel::Receiver<I, P>) where P: Ord;

/// `async_priority_channel::SendError`, which a refused send comes back with.
#[verifier::external_type_specification]
#[verifier::external_body]
#[verifier::reject_recursive_types(T)]
pub struct ExPrioritySendError<T>(async_priority_channel::SendError<T>);

/// `flume::unbounded` opens a channel without a limit and returns its two ends. That two ends
/// belong together is said by naming them as the result of one call.
pub assume_specification<T>[ flume::unbounded::<T> ]() -> (ends: (
    flume::Sender<T>,
    flume::Receiver<T>,
))
;

/// `flume::bounded` opens a channel with room for `cap` messages and returns its two ends. That two
/// ends belong together, and the room between them, is said by naming them as the result of one
/// call.
pub assume_specification<T>[ flume::bounded::<T> ](cap: usize) -> (ends: (
    flume::Sender<T>,
    flume::Receiver<T>,
))
;

/// `flume::Sender::clone` returns another handle to the same sending end: what is sent through
/// either goes to the same channel.
pub assume_specification<T>[ <flume::Sender<T> as Clone>::clone ](tx: &flume::Sender<T>) -> (copy:
    flume::Sender<T>)
    ensures
        copy == *tx,
;

/// `async_priority_channel::unbounded` opens a priority channel without a limit and returns its two
/// ends. That two ends belong together is said by naming them as the result of one call.
pub assume_specification<I, P>[ async_priority_channel::unbounded::<I, P> ]() -> (ends: (
    async_priority_channel::Sender<I, P>,
    async_priority_channel::Receiver<I, P>,
)) where P: Ord
;

/// `async_priority_channel::Sender::clone` returns another handle to the same sending end: what is
/// sent through either goes to the same channel. It gives up only if handles to one channel were
/// made and leaked until they are more than half of what a `usize` counts.
pub assume_specification<I, P>[ <async_priority_channel::Sender<I, P> as Clone>::clone ](
    tx: &async_priority_channel::Sender<I, P>,
) -> (copy: async_priority_channel::Sender<I, P>) where P: Ord
    ensures
        copy == *tx,
;

/// Whether `tx` is a sending end that a call of `flume::unbounded` returned.
pub open spec fn unbounded_end<T>(tx: flume::Sender<T>) -> bool {
    exists|rx: flume::Receiver<T>| #[trigger] call_ensures(flume::unbounded::<T>, (), (tx, rx))
}

/// `flume::Sender::send` hands `msg` to the channel, or back to the caller if no receiver is left.
/// On an unbounded channel it does not wait. Which of the two happens depends on whoever holds the
/// receivers, so nothing is claimed of the outcome.
#[verifier::external_body]
fn channel_send<T>(tx: &flume::Sender<T>, msg: T) -> (sent: Result<(), flume::SendError<T>>)
    requires
        unbounded_end(*tx),
{
    tx.send(msg)
}

/// Whether `sent` is what `flume::Sender::send` came back with for `message` on `channel`.
pub closed spec fn posted<T>(
    channel: flume::Sender<T>,
    message: T,
    sent: Result<(), flume::SendError<T>>,
) -> bool {
    call_ensures(channel_send::<T>, (&channel, message), sent)
}

/// A message that was handed to a channel, and what came back.
#[verifier::reject_recursive_types(T)]
pub struct Posting<T> {
    pub channel: flume::Sender<T>,
    pub message: T,
    pub sent: Result<(), flume::SendError<T>>,
}

/// Opens lines, which are unbounded channels, and hands messages to them. Its view is the record of
/// all that it handed over. The record and the lines that it opened exist in contracts only; since
/// it sends on its own lines alone, nothing goes out on a line that is not on the record of the
/// outbox that opened it.
#[verifier::reject_recursive_types(T)]
pub struct Outbox<T> {
    record: Ghost<Seq<Posting<T>>>,
    lines: Ghost<Set<flume::Sender<T>>>,
}

impl<T> View for Outbox<T> {
    type V = Seq<Posting<T>>;

    closed spec fn view(&self) -> Seq<Posting<T>> {
        self.record@
    }
}

impl<T> Outbox<T> {
    /// The lines that it opened.
    pub closed spec fn lines(&self) -> Set<flume::Sender<T>> {
        self.lines@
    }

    /// Every line is unbounded.
    #[verifier::type_invariant]
    closed spec fn unbounded_lines(self) -> bool {
        forall|line: flume::Sender<T>| #[trigger]
            self.lines@.contains(line) ==> unbounded_end(line)
    }

    /// An outbox that has opened no line and handed nothing over.
    pub fn new() -> (outbox: Self)
        ensures
            outbox@ == Seq::<Posting<T>>::empty(),
            outbox.lines() == Set::<flume::Sender<T>>::empty(),
    {
        Outbox { record: Ghost(Seq::empty()), lines: Ghost(Set::empty()) }
    }

    /// Opens a line.
    pub fn open_line(&mut self) -> (ends: (flume::Sender<T>, flume::Receiver<T>))
        ensures
            call_ensures(flume::unbounded::<T>, (), ends),
            final(self).lines() == old(self).lines().insert(ends.0),
            final(self)@ == old(self)@,
    {
        proof {
            use_type_invariant(&*self);
        }
        let (tx, rx) = flume::unbounded();
        assert(unbounded_end(tx));
        self.lines = Ghost(self.lines@.insert(tx));
        (tx, rx)
    }

    /// Hands a message to one of its lines, without waiting.
    pub fn post(&mut self, line: &flume::Sender<T>, message: T) -> (sent: Result<
        (),
        flume::SendError<T>,
    >)
        requires
            old(self).lines().contains(*line),
        ensures
            posted(*line, message, sent),
            final(self)@ == old(self)@.push(Posting { channel: *line, message, sent }),
            final(self).lines() == old(self).lines(),
    {
        proof {
            use_type_invariant(&*self);
        }
        let ghost handed = message;
        let sent = channel_send(line, message);
        self.record = Ghost(self.record@.push(Posting { channel: *line, message: handed, sent }));
        sent
    }
}

/// What an outbox posts is handed to that very line, and what comes back is what `flume::Sender::send`
/// came back with. The message can be handed over no more than once, since it is given away.
proof fn law_posting_is_sending<T>(
    outbox: &mut Outbox<T>,
    line: &flume::Sender<T>,
    message: T,
    sent: Result<(), flume::SendError<T>>,
)
    requires
        call_ensures(Outbox::<T>::post, (outbox, line, message), sent),
    ensures
        call_ensures(channel_send::<T>, (line, message), sent),
        final(outbox)@.len() == old(outbox)@.len() + 1,
        final(outbox)@.drop_last() == old(outbox)@,
        final(outbox)@.last().channel == *line,
        final(outbox)@.last().message == message,
        final(outbox)@.last().sent == sent,
        final(outbox).lines() == old(outbox).lines(),
{
    assert(final(outbox)@.drop_last() =~= old(outbox)@);
}

/// What counts as posted was handed to `flume::Sender::send` with that outcome.
proof fn law_posted_is_sent<T>(
    line: flume::Sender<T>,
    message: T,
    sent: Result<(), flume::SendError<T>>,
)
    requires
        posted(line, message, sent),
    ensures
        call_ensures(channel_send::<T>, (&line, message), sent),
{
}

/// A line that an outbox opens is an unbounded channel whose ends are both handed out, and opening
/// it sends nothing.
proof fn law_opened_line<T>(
    outbox: &mut Outbox<T>,
    ends: (flume::Sender<T>, flume::Receiver<T>),
)
    requires
        call_ensures(Outbox::<T>::open_line, (outbox,), ends),
    ensures
        call_ensures(flume::unbounded::<T>, (), ends),
        final(outbox)@ == old(outbox)@,
        forall|line: flume::Sender<T>| #[trigger]
            final(outbox).lines().contains(line) <==> old(outbox).lines().contains(line) || line
                == ends.0,
{
}

/// The receiving end of a priority channel.
pub type PriorityRx<E> = async_priority_channel::Receiver<E, PriorityEvent>;

/// The sending end of a priority channel.
pub type PriorityTx<E> = async_priority_channel::Sender<E, PriorityEvent>;

/// An event on its way to a channel.
#[verifier::reject_recursive_types(E)]
pub struct Delivery<E> {
    /// Where the event goes.
    pub channel: flume::Sender<E>,
    pub event: E,
}

/// An event on its way to a priority channel.
#[verifier::reject_recursive_types(E)]
pub struct PriorityDelivery<E> {
    /// Where the event goes.
    pub channel: PriorityTx<E>,
    pub event: E,
    /// How urgent the event is.
    pub priority: PriorityEvent,
}

/// Marks a channel.
pub trait Channel {

}

/// The sending end of a channel for events.
pub trait ChannelTx<E: Event + Send> {
    /// What sending yields.
    type Result;

    /// How sending fails.
    type Error;

    /// Sends an event.
    fn send_event(&self, s: E) -> Self::Result;
}

/// The receiving end of a channel for events.
pub trait ChannelRx<E: Event + Send> {

}

/// The sending end of a channel for events with priorities.
pub trait PriorityChannelTx<E: Event + Send>: ChannelTx<E> {
    /// What sending yields.
    type Result;

    /// How sending fails.
    type Error;

    /// Sends an event with a priority.
    fn send_with_priority(&self, s: E, priority: PriorityEvent) -> <Self as ChannelTx<E>>::Result;
}

/// The receiving end of a channel for events with priorities.
pub trait PriorityChannelRx<E: Event + Send>: ChannelRx<E> {

}

impl<E: Event + Send> PriorityChannelRx<E> for async_priority_channel::Receiver<E, PriorityEvent> {

}

impl<E: Event + Send> ChannelTx<E> for flume::Sender<E> {
    type Result = Delivery<E>;

    type Error = flume::SendError<E>;

    fn send_event(&self, s: E) -> (delivery: Delivery<E>)
        ensures
            delivery == (Delivery { channel: *self, event: s }),
    {
        Delivery { channel: self.clone(), event: s }
    }
}

impl<E: Event + Send> ChannelRx<E> for flume::Receiver<E> {

}

impl<E: Event + Send> ChannelTx<E> for async_priority_channel::Sender<E, PriorityEvent> {
    type Result = PriorityDelivery<E>;

    type Error = async_priority_channel::SendError<(E, PriorityEvent)>;

    /// Sends an event with the default priority.
    fn send_event(&self, s: E) -> (delivery: PriorityDelivery<E>)
        ensures
            delivery == (PriorityDelivery {
                channel: *self,
                event: s,
                priority: PriorityEvent::Low,
            }),
    {
        PriorityDelivery { channel: self.clone(), event: s, priority: PriorityEvent::default() }
    }
}

impl<E: Event + Send> PriorityChannelTx<E> for async_priority_channel::Sender<E, PriorityEvent> {
    type Result = PriorityDelivery<E>;

    type Error = async_priority_channel::SendError<(E, PriorityEvent)>;

    fn send_with_priority(&self, s: E, priority: PriorityEvent) -> (delivery: PriorityDelivery<E>)
        ensures
            delivery == (PriorityDelivery { channel: *self, event: s, priority }),
    {
        PriorityDelivery { channel: self.clone(), event: s, priority }
    }
}

impl<E: Event + Send> ChannelRx<E> for async_priority_channel::Receiver<E, PriorityEvent> {

}

} // verus!
