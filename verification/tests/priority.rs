use futures::executor::block_on;
use glommactor::{
    new_priority_actor_with_handle, Actor, ActorError, ChannelTx, Event, Handle, PriorityActor,
    PriorityChannelTx, PriorityDelivery, PriorityEvent, PriorityHandle, PriorityRx,
};

#[derive(Debug, PartialEq)]
struct Hello(u8);

impl Event for Hello {}

struct HelloActor {
    receiver: PriorityRx<Hello>,
}

impl HelloActor {
    fn new(receiver: PriorityRx<Hello>) -> Self {
        Self { receiver }
    }
}

impl Actor<Hello> for HelloActor {
    type Rx = PriorityRx<Hello>;
    type Error = ActorError<Hello>;
    type Result = (Hello, PriorityEvent);

    fn run(self) -> (Hello, PriorityEvent) {
        block_on(self.receiver.recv()).expect("Failed to receive event")
    }
}

impl PriorityActor<Hello> for HelloActor {
    type Rx = PriorityRx<Hello>;
}

fn deliver(delivery: PriorityDelivery<Hello>) {
    block_on(delivery.channel.send(delivery.event, delivery.priority))
        .expect("Failed to deliver event");
}

#[test]
fn ord() {
    assert_eq!(
        PriorityEvent::BestEffort.cmp(&PriorityEvent::Low),
        std::cmp::Ordering::Less
    );
    assert_eq!(
        PriorityEvent::Low.cmp(&PriorityEvent::RealTime),
        std::cmp::Ordering::Less
    );
    assert_eq!(
        PriorityEvent::RealTime.cmp(&PriorityEvent::High),
        std::cmp::Ordering::Greater
    );
}

#[test]
fn priority_event() {
    let (tx, rx) = async_priority_channel::bounded::<Hello, PriorityEvent>(10);
    let (test_sender, test_rx) = flume::unbounded();
    let actor = HelloActor::new(rx);

    block_on(tx.send(Hello(0), PriorityEvent::BestEffort)).expect("Faied to send from actor handle");
    block_on(tx.send(Hello(0), PriorityEvent::Low)).expect("Faied to send from actor handle");
    block_on(tx.send(Hello(0), PriorityEvent::High)).expect("Faied to send from actor handle");
    block_on(tx.send(Hello(0), PriorityEvent::RealTime)).expect("Faied to send from actor handle");

    let (_, priority) = PriorityActor::run(actor);
    println!("Hello method received {:?} priority message!!", priority);
    test_sender.send(priority).expect("Failed to send result");

    assert_eq!(
        test_rx.recv().expect("Unable to recv test result"),
        PriorityEvent::RealTime
    );
}

#[test]
fn comparisons_agree_on_all_pairs() {
    let order = [
        PriorityEvent::BestEffort,
        PriorityEvent::Low,
        PriorityEvent::High,
        PriorityEvent::RealTime,
    ];
    for (i, a) in order.iter().enumerate() {
        for (j, b) in order.iter().enumerate() {
            assert_eq!(a.cmp(b), i.cmp(&j));
            assert_eq!(a.partial_cmp(b), Some(i.cmp(&j)));
            assert_eq!(a == b, i == j);
            assert_eq!(a < b, i < j);
        }
    }
}

#[test]
fn default_priority_is_low() {
    assert_eq!(PriorityEvent::default(), PriorityEvent::Low);
}

#[test]
fn events_come_out_in_order_of_priority() {
    let (actor, handle) = new_priority_actor_with_handle(HelloActor::new);
    let copy = handle.clone();
    deliver(handle.send_with_priority(Hello(1), PriorityEvent::BestEffort));
    deliver(copy.send(Hello(2)));
    deliver(handle.send_with_priority(Hello(3), PriorityEvent::RealTime));
    deliver(handle.send_with_priority(Hello(4), PriorityEvent::High));

    let receiver = actor.receiver;
    assert_eq!(receiver.capacity(), None);
    assert_eq!(
        receiver.try_recv(),
        Ok((Hello(3), PriorityEvent::RealTime))
    );
    assert_eq!(receiver.try_recv(), Ok((Hello(4), PriorityEvent::High)));
    assert_eq!(receiver.try_recv(), Ok((Hello(2), PriorityEvent::Low)));
    assert_eq!(
        receiver.try_recv(),
        Ok((Hello(1), PriorityEvent::BestEffort))
    );
    assert!(receiver.try_recv().is_err());
}

#[test]
fn sending_without_priority_is_sending_with_default() {
    let (tx, rx) = async_priority_channel::unbounded::<Hello, PriorityEvent>();
    let plain = tx.send_event(Hello(7));
    let with_default = tx.send_with_priority(Hello(7), PriorityEvent::default());
    assert_eq!(plain.priority, with_default.priority);
    assert_eq!(plain.event, with_default.event);
    deliver(plain);
    deliver(with_default);
    assert_eq!(rx.try_recv(), Ok((Hello(7), PriorityEvent::Low)));
    assert_eq!(rx.try_recv(), Ok((Hello(7), PriorityEvent::Low)));
}
