use glommactor::error::report_delivery;
use glommactor::supervisor::report_state;
use glommactor::supervisor_handle::awaiting;
use glommactor::{
    Actor, ActorError, ActorHandle, ActorState, Delivery, Event, Handle, SupervisedActor,
    SupervisedActorHandle, SupervisedHandle, SupervisorHandle, SupervisorMessage,
};

type Reply<T> = flume::Sender<T>;

#[derive(Debug)]
enum HelloEvent {
    SayHello { reply: Reply<()> },
}

impl Event for HelloEvent {}

struct HelloActor {
    receiver: flume::Receiver<HelloEvent>,
}

impl HelloActor {
    fn new(receiver: flume::Receiver<HelloEvent>) -> Self {
        Self { receiver }
    }

    fn say_hello(&mut self) {
        println!("Hello hi hey!!");
    }
}

impl Actor<HelloEvent> for HelloActor {
    type Rx = flume::Receiver<HelloEvent>;
    type Error = ActorError<HelloEvent>;
    type Result = Result<(), ActorError<HelloEvent>>;

    fn run(mut self) -> Self::Result {
        let HelloEvent::SayHello { reply } =
            self.receiver.recv().expect("Failed to receive event");
        self.say_hello();
        reply.send(()).expect("Failed to send reply");
        Ok(())
    }
}

struct Supervised {
    receiver: flume::Receiver<HelloEvent>,
    supervisor: flume::Receiver<SupervisorMessage>,
}

impl Supervised {
    fn new(
        receiver: flume::Receiver<HelloEvent>,
        supervisor: flume::Receiver<SupervisorMessage>,
    ) -> Self {
        Self {
            receiver,
            supervisor,
        }
    }
}

impl Actor<HelloEvent> for Supervised {
    type Rx = flume::Receiver<HelloEvent>;
    type Error = ActorError<HelloEvent>;
    type Result = ();

    fn run(self) {}
}

impl SupervisedActor<HelloEvent> for Supervised {}

fn deliver<E>(delivery: Delivery<E>) -> Result<(), flume::SendError<E>> {
    delivery.channel.send(delivery.event)
}

fn supervised() -> (Supervised, SupervisedActorHandle<HelloEvent>) {
    let (mut supervisor, _handle) = SupervisorHandle::new();
    let (tx, rx, id) = supervisor.new_supervisee_setup().unwrap();
    SupervisedActorHandle::new(tx, rx, id, Supervised::new)
}

#[test]
fn single_event() {
    let (sender, receiver) = flume::unbounded();
    let (actor, handle) = ActorHandle::new(HelloActor::new, sender, receiver);

    let (tx, rx) = flume::bounded(1);
    let msg = HelloEvent::SayHello { reply: tx };
    deliver(handle.send(msg)).expect("Faied to send from actor handle");
    actor.run().expect("Failed to say hello");
    rx.recv().expect("Failed to recv from actor handle");
}

#[test]
fn clones_of_a_handle_reach_the_same_actor() {
    let (sender, receiver) = flume::unbounded();
    let (actor, handle) = ActorHandle::new(HelloActor::new, sender, receiver);
    let (tx, _rx) = flume::bounded(2);
    deliver(handle.clone().send(HelloEvent::SayHello { reply: tx.clone() })).unwrap();
    deliver(handle.send(HelloEvent::SayHello { reply: tx })).unwrap();
    assert_eq!(actor.receiver.len(), 2);
}

#[test]
fn building_a_handle_sends_nothing_and_asks_for_no_matching_ends() {
    let (sender, other_end) = flume::unbounded();
    let (other_sender, receiver) = flume::unbounded();
    let (tx, _rx) = flume::bounded(1);
    other_sender
        .send(HelloEvent::SayHello { reply: tx.clone() })
        .unwrap();
    let (actor, handle) = ActorHandle::new(HelloActor::new, sender, receiver);
    assert_eq!(other_end.len(), 0);
    assert_eq!(actor.receiver.len(), 1);

    deliver(handle.send(HelloEvent::SayHello { reply: tx })).unwrap();
    assert_eq!(other_end.len(), 1);
    assert_eq!(actor.receiver.len(), 1);
}

#[test]
fn event_to_a_gone_actor_comes_back() {
    let (actor, handle) = supervised();
    drop(actor);
    let (tx, _rx) = flume::bounded(1);
    let sent = deliver(handle.send(HelloEvent::SayHello { reply: tx }));
    let error = report_delivery(sent).unwrap_err();
    assert!(matches!(&error, ActorError::SendError(_)));
    assert_eq!(error.message(), "Send Errorsending on a closed channel");
}

#[test]
fn supervised_handle_sends_events_and_messages() {
    let (actor, handle) = supervised();
    assert!(matches!(
        actor.supervisor.try_recv(),
        Ok(SupervisorMessage::SetId { .. })
    ));

    let (tx, _rx) = flume::bounded(1);
    report_delivery(deliver(handle.send(HelloEvent::SayHello { reply: tx }))).unwrap();
    assert_eq!(actor.receiver.len(), 1);

    report_delivery(deliver(handle.send_start())).unwrap();
    report_delivery(deliver(handle.send_shutdown())).unwrap();
    assert!(matches!(
        actor.supervisor.try_recv(),
        Ok(SupervisorMessage::Start)
    ));
    assert!(matches!(
        actor.supervisor.try_recv(),
        Ok(SupervisorMessage::Shutdown)
    ));
    assert!(actor.supervisor.try_recv().is_err());
}

#[test]
fn supervised_handle_gives_out_its_channels() {
    let (actor, handle) = supervised();
    let copy = handle.clone();
    let direct = copy.subscribe_direct();
    assert!(direct.same_channel(&handle.handle_subscribe_direct()));
    assert_eq!(direct.capacity(), None);
    let (tx, _rx) = flume::bounded(1);
    direct.send(HelloEvent::SayHello { reply: tx }).unwrap();
    assert_eq!(actor.receiver.len(), 1);

    let line = copy.handle_subscribe_bcast();
    assert!(line.same_channel(&handle.handle_subscribe_bcast()));
    line.send(SupervisorMessage::Stop).unwrap();
    assert_eq!(actor.supervisor.len(), 2);
}

#[test]
fn state_of_an_actor() {
    let (actor, handle) = supervised();
    let query = handle.actor_state();
    assert_eq!(query.answer.capacity(), Some(1));
    let answer = awaiting(deliver(query.delivery), query.answer).unwrap();
    let _set_id = actor.supervisor.try_recv().unwrap();
    match actor.supervisor.try_recv() {
        Ok(SupervisorMessage::State { reply }) => reply.send(ActorState::Stopped).unwrap(),
        _ => panic!("no question for the state"),
    }
    assert_eq!(report_state(answer.recv()).unwrap(), ActorState::Stopped);
}

#[test]
fn state_of_an_actor_that_does_not_answer() {
    let (actor, handle) = supervised();
    let query = handle.get_state();
    let answer = awaiting(deliver(query.delivery), query.answer).unwrap();
    drop(actor);
    drop(handle);
    let error = report_state(answer.recv()).unwrap_err();
    assert_eq!(
        error.message(),
        "Actor error Send cancelled receiving on a closed channel"
    );
}

#[test]
fn state_of_a_gone_actor() {
    let (actor, handle) = supervised();
    drop(actor);
    let query = handle.get_state();
    let error = awaiting(deliver(query.delivery), query.answer).unwrap_err();
    assert!(matches!(error, ActorError::SendError(_)));
}
