use glommactor::supervisor::{
    report_heartbeat, report_send, report_state, EventLoop, Response, Turn,
};
use glommactor::supervisor_handle::{
    awaiting, conclude, conclude_heartbeat, conclude_ids, HeartbeatEvent, HEARTBEAT_SECONDS,
};
use glommactor::{
    Actor, ActorError, ActorId, ActorState, Delivery, Supervision, Supervisor, SupervisorAction,
    SupervisorHandle, SupervisorMessage,
};
use std::cell::RefCell;
use std::collections::HashSet;

type Line = flume::Sender<SupervisorMessage>;
type Inbox = flume::Receiver<SupervisorMessage>;

fn supervisor() -> Supervisor {
    let (_tx, rx) = flume::unbounded();
    Supervisor::new(rx)
}

fn set_up(supervisor: &mut Supervisor) -> (Line, Inbox, ActorId) {
    supervisor.new_supervisee_setup().unwrap()
}

fn deliver<E>(delivery: Delivery<E>) -> Result<(), flume::SendError<E>> {
    delivery.channel.send(delivery.event)
}

fn answer(response: Response) {
    match response {
        Response::Setup { reply, result } => {
            reply.send(result).ok();
        }
        Response::Done { reply, result } => {
            reply.send(result).ok();
        }
        Response::Ids { reply, ids } => {
            reply.send(ids).ok();
        }
        Response::State { reply, result } => {
            reply.send(result).ok();
        }
        _ => panic!("still waits"),
    }
}

fn carry_out(supervisor: &mut Supervisor, response: Response) {
    match response.awaited() {
        Some(awaited) => {
            let reported = awaited.recv();
            answer(supervisor.resume(response, reported));
        }
        None => answer(response),
    }
}

fn answer_state(inbox: &Inbox, state: ActorState) {
    loop {
        match inbox.try_recv().expect("no question for the state") {
            SupervisorMessage::State { reply } => {
                reply.send(state).unwrap();
                return;
            }
            _ => {}
        }
    }
}

#[test]
fn setup_greets_the_actor_with_its_id() {
    let mut supervisor = supervisor();
    let (line, inbox, id) = set_up(&mut supervisor);
    assert!(id < ActorId::MAX);
    assert_eq!(line.capacity(), None);
    match inbox.try_recv() {
        Ok(SupervisorMessage::SetId { id: told }) => assert_eq!(told, id),
        _ => panic!("no greeting"),
    }
    assert!(inbox.try_recv().is_err());
    assert_eq!(supervisor.get_current_ids(), vec![id]);
    line.send(SupervisorMessage::Stop).unwrap();
    assert!(matches!(inbox.try_recv(), Ok(SupervisorMessage::Stop)));
}

#[test]
fn ids_are_unique_until_all_are_taken() {
    let mut supervisor = supervisor();
    let mut actors = Vec::new();
    let mut ids = HashSet::new();
    for _ in 0..ActorId::MAX {
        let (line, inbox, id) = set_up(&mut supervisor);
        assert!(ids.insert(id));
        actors.push((line, inbox, id));
    }
    assert!(!ids.contains(&ActorId::MAX));
    let error = supervisor.new_supervisee_setup().unwrap_err();
    assert!(matches!(&error, ActorError::SystemError(_)));
    assert_eq!(error.message(), "System error too many actors");

    let (_line, _inbox, id) = actors.pop().unwrap();
    supervisor.shutdown_actor(id).unwrap();
    let (_line, _inbox, again) = set_up(&mut supervisor);
    assert_eq!(again, id);
    assert!(supervisor.new_supervisee_setup().is_err());
}

#[test]
fn shutdown_sends_and_keeps_the_actor_registered() {
    let mut supervisor = supervisor();
    let (_line, inbox, id) = set_up(&mut supervisor);
    supervisor.shutdown_actor(id).unwrap();
    let _greeting = inbox.try_recv().unwrap();
    assert!(matches!(inbox.try_recv(), Ok(SupervisorMessage::Shutdown)));
    assert_eq!(supervisor.get_current_ids(), vec![id]);
}

#[test]
fn shutdown_of_a_gone_actor_fails() {
    let mut supervisor = supervisor();
    let (_line, inbox, id) = set_up(&mut supervisor);
    drop(inbox);
    let error = supervisor.shutdown_actor(id).unwrap_err();
    assert!(matches!(&error, ActorError::ActorError(_)));
    assert_eq!(error.message(), "Actor error Send error \"SendError(..)\"");
}

#[test]
fn settled_shutdowns() {
    let mut supervisor = supervisor();
    let (_line, _inbox, id) = set_up(&mut supervisor);
    let refused = Err(flume::SendError(SupervisorMessage::Shutdown));
    assert!(supervisor.settle_shutdown(id, refused).is_err());
    assert!(supervisor.settle_shutdown(id, Ok(())).is_ok());
}

#[test]
fn stop_and_start_send_their_messages() {
    let mut supervisor = supervisor();
    let (_line, inbox, id) = set_up(&mut supervisor);
    supervisor.stop_actor(id).unwrap();
    supervisor.start_actor(id).unwrap();
    let _greeting = inbox.try_recv().unwrap();
    assert!(matches!(inbox.try_recv(), Ok(SupervisorMessage::Stop)));
    assert!(matches!(inbox.try_recv(), Ok(SupervisorMessage::Start)));
    drop(inbox);
    assert!(supervisor.stop_actor(id).is_err());
    assert!(supervisor.start_actor(id).is_err());
}

#[test]
fn unknown_actors() {
    let mut supervisor = supervisor();
    assert!(supervisor.shutdown_actor(5).is_ok());
    assert!(supervisor.stop_actor(5).is_ok());
    assert!(supervisor.start_actor(5).is_ok());
    let error = supervisor.actor_state(5).unwrap_err();
    assert!(matches!(&error, ActorError::SystemError(_)));
    assert_eq!(error.message(), "System error No such actor ID");
    assert!(supervisor.send_heartbeat(5).is_err());
    assert!(supervisor.get_current_ids().is_empty());
}

#[test]
fn only_the_addressed_actor_is_sent_to() {
    let mut supervisor = supervisor();
    let (_a_line, a_inbox, a) = set_up(&mut supervisor);
    let (_b_line, b_inbox, _b) = set_up(&mut supervisor);
    supervisor.stop_actor(a).unwrap();
    assert_eq!(a_inbox.len(), 2);
    assert_eq!(b_inbox.len(), 1);
}

#[test]
fn shutdown_all_reaches_every_actor() {
    let mut supervisor = supervisor();
    let (_a_line, a_inbox, _a) = set_up(&mut supervisor);
    let (_b_line, b_inbox, _b) = set_up(&mut supervisor);
    let (_c_line, c_inbox, _c) = set_up(&mut supervisor);
    drop(b_inbox);
    let (reply, answer) = flume::bounded(1);
    let response = supervisor.process(SupervisorAction::ShutdownAll { reply });
    carry_out(&mut supervisor, response);
    assert!(answer.recv().unwrap().is_ok());
    for inbox in [a_inbox, c_inbox] {
        let _greeting = inbox.try_recv().unwrap();
        assert!(matches!(inbox.try_recv(), Ok(SupervisorMessage::Shutdown)));
        assert!(inbox.try_recv().is_err());
    }
    assert_eq!(supervisor.get_current_ids().len(), 3);
}

#[test]
fn reports() {
    assert!(report_send(Ok(())).is_ok());
    let error = report_send(Err(flume::SendError(SupervisorMessage::Start))).unwrap_err();
    assert_eq!(error.message(), "Actor error Send error \"SendError(..)\"");
    assert_eq!(
        report_state(Ok(ActorState::Running)).unwrap(),
        ActorState::Running
    );
    let error = report_state(Err(flume::RecvError::Disconnected)).unwrap_err();
    assert_eq!(
        error.message(),
        "Actor error Send cancelled receiving on a closed channel"
    );
    assert!(report_heartbeat(Ok(ActorState::Stopped)).is_ok());
    assert!(matches!(
        report_heartbeat(Err(ActorError::Unknown)),
        Err(ActorError::Unknown)
    ));
}

fn take_turn(event_loop: &mut EventLoop) -> Response {
    let received = event_loop.receiver().recv();
    match event_loop.turn(received) {
        Turn::Respond(response) => response,
        Turn::Exit(_) => panic!("ended early"),
    }
}

#[test]
fn running_supervisor_answers_requests() {
    let (supervisor, handle) = SupervisorHandle::new();
    let mut event_loop = supervisor.run();

    let request = handle.clone().new_supervisee_setup();
    assert_eq!(request.answer.capacity(), Some(1));
    let setup = awaiting(deliver(request.delivery), request.answer).unwrap();
    answer(take_turn(&mut event_loop));
    let (_line, inbox, id) = conclude(setup.recv()).unwrap();
    assert!(matches!(
        inbox.try_recv(),
        Ok(SupervisorMessage::SetId { .. })
    ));

    let request = handle.suspend_actor(id);
    let suspended = awaiting(deliver(request.delivery), request.answer).unwrap();
    answer(take_turn(&mut event_loop));
    conclude(suspended.recv()).unwrap();
    assert!(matches!(inbox.try_recv(), Ok(SupervisorMessage::Stop)));

    let request = handle.start_actor(id);
    let started = awaiting(deliver(request.delivery), request.answer).unwrap();
    let response = take_turn(&mut event_loop);
    answer_state(&inbox, ActorState::Stopped);
    let reported = response.awaited().unwrap().recv();
    answer(event_loop.resume(response, reported));
    conclude(started.recv()).unwrap();
    assert!(matches!(inbox.try_recv(), Ok(SupervisorMessage::Start)));

    let request = handle.shutdown_actor(id);
    let shut_down = awaiting(deliver(request.delivery), request.answer).unwrap();
    answer(take_turn(&mut event_loop));
    conclude(shut_down.recv()).unwrap();
    assert!(matches!(inbox.try_recv(), Ok(SupervisorMessage::Shutdown)));

    let request = handle.ids();
    deliver(request.delivery).unwrap();
    answer(take_turn(&mut event_loop));
    assert_eq!(conclude_ids(request.answer.recv()).unwrap(), vec![id]);
}

#[test]
fn event_loop_takes_actions_in_order_until_the_inbox_is_closed() {
    let (supervisor, handle) = SupervisorHandle::new();
    let mut event_loop = supervisor.run();
    let unknown = handle.actor_state(3);
    deliver(unknown.delivery).unwrap();
    let setup = handle.new_supervisee_setup();
    deliver(setup.delivery).unwrap();
    let ids = handle.ids();
    deliver(ids.delivery).unwrap();
    let refused = handle.heartbeat(ActorId::MAX);
    deliver(refused.delivery).unwrap();
    drop(handle);

    let mut turns = 0;
    let result = loop {
        let received = event_loop.receiver().recv();
        match event_loop.turn(received) {
            Turn::Respond(response) => answer(response),
            Turn::Exit(result) => break result,
        }
        turns += 1;
    };
    assert_eq!(turns, 4);
    assert!(matches!(
        result,
        Err(ActorError::RecvError(flume::RecvError::Disconnected))
    ));
    assert!(conclude(unknown.answer.recv()).is_err());
    let (_line, _inbox, id) = conclude(setup.answer.recv()).unwrap();
    assert_eq!(conclude_ids(ids.answer.recv()).unwrap(), vec![id]);
    let event = HeartbeatEvent::Answered(refused.answer.recv());
    assert!(conclude_heartbeat(ActorId::MAX, event).is_err());
}

#[test]
fn id_that_is_handed_out_again_is_reached_on_its_new_line() {
    let mut supervisor = supervisor();
    let mut actors = Vec::new();
    for _ in 0..ActorId::MAX {
        actors.push(set_up(&mut supervisor));
    }
    let (_old_line, old_inbox, id) = actors.pop().unwrap();
    supervisor.shutdown_actor(id).unwrap();
    assert!(matches!(
        old_inbox.drain().last(),
        Some(SupervisorMessage::Shutdown)
    ));

    let (_line, inbox, again) = set_up(&mut supervisor);
    assert_eq!(again, id);
    supervisor.stop_actor(id).unwrap();
    supervisor.start_actor(id).unwrap();
    supervisor.shutdown_actor(id).unwrap();
    match inbox.try_recv() {
        Ok(SupervisorMessage::SetId { id: told }) => assert_eq!(told, id),
        _ => panic!("no greeting"),
    }
    assert!(matches!(inbox.try_recv(), Ok(SupervisorMessage::Stop)));
    assert!(matches!(inbox.try_recv(), Ok(SupervisorMessage::Start)));
    assert!(matches!(inbox.try_recv(), Ok(SupervisorMessage::Shutdown)));
    assert!(inbox.try_recv().is_err());
    assert!(old_inbox.try_recv().is_err());
}

#[test]
fn only_the_wait_for_a_start_has_a_time_limit() {
    let (mut supervisor, handle) = SupervisorHandle::new();
    let (_line, inbox, id) = set_up(&mut supervisor);
    let start = handle.start_actor(id);
    let response = supervisor.process(start.delivery.event);
    assert_eq!(response.time_limit(), Some(HEARTBEAT_SECONDS));
    answer(supervisor.resume(response, Err(flume::RecvError::Disconnected)));
    assert!(conclude(start.answer.recv()).is_ok());
    assert!(matches!(
        inbox.drain().last(),
        Some(SupervisorMessage::Start)
    ));

    let response = supervisor.process(handle.actor_state(id).delivery.event);
    assert_eq!(response.time_limit(), None);
    let response = supervisor.process(handle.heartbeat(id).delivery.event);
    assert_eq!(response.time_limit(), None);
}

#[test]
fn start_leaves_an_actor_alone_that_is_not_stopped() {
    let states = [
        ActorState::Started,
        ActorState::Running,
        ActorState::Stopping,
        ActorState::Shuttingdown,
    ];
    for state in states {
        let (mut supervisor, handle) = SupervisorHandle::new();
        let (_line, inbox, id) = set_up(&mut supervisor);
        let request = handle.start_actor(id);
        let response = supervisor.process(request.delivery.event);
        match &response {
            Response::AwaitStart { id: whom, .. } => assert_eq!(*whom, id),
            _ => panic!("does not ask for the state"),
        }
        answer_state(&inbox, state);
        carry_out(&mut supervisor, response);
        assert!(conclude(request.answer.recv()).is_ok());
        assert!(inbox.try_recv().is_err());
    }
}

#[test]
fn start_reaches_a_stopped_actor() {
    let (mut supervisor, handle) = SupervisorHandle::new();
    let (_line, inbox, id) = set_up(&mut supervisor);
    let request = handle.start_actor(id);
    let response = supervisor.process(request.delivery.event);
    answer_state(&inbox, ActorState::Stopped);
    carry_out(&mut supervisor, response);
    assert!(conclude(request.answer.recv()).is_ok());
    assert!(matches!(inbox.try_recv(), Ok(SupervisorMessage::Start)));
    assert!(inbox.try_recv().is_err());
}

#[test]
fn start_reaches_an_actor_that_does_not_report() {
    let (mut supervisor, handle) = SupervisorHandle::new();
    let (_line, inbox, id) = set_up(&mut supervisor);
    let request = handle.start_actor(id);
    let response = supervisor.process(request.delivery.event);
    while inbox.try_recv().is_ok() {}
    carry_out(&mut supervisor, response);
    assert!(conclude(request.answer.recv()).is_ok());
    assert!(matches!(inbox.try_recv(), Ok(SupervisorMessage::Start)));
}

#[test]
fn start_of_an_actor_that_is_gone_fails() {
    let (mut supervisor, handle) = SupervisorHandle::new();
    let (_line, inbox, id) = set_up(&mut supervisor);
    let request = handle.start_actor(id);
    let response = supervisor.process(request.delivery.event);
    while inbox.try_recv().is_ok() {}
    drop(inbox);
    carry_out(&mut supervisor, response);
    let error = conclude(request.answer.recv()).unwrap_err();
    assert_eq!(error.message(), "Actor error Send error \"SendError(..)\"");

    let request = handle.start_actor(id);
    let response = supervisor.process(request.delivery.event);
    assert!(response.awaited().is_none());
    carry_out(&mut supervisor, response);
    let error = conclude(request.answer.recv()).unwrap_err();
    assert_eq!(error.message(), "Actor error Send error \"SendError(..)\"");

    let request = handle.start_actor(id ^ 1);
    let response = supervisor.process(request.delivery.event);
    assert!(response.awaited().is_none());
    carry_out(&mut supervisor, response);
    assert!(conclude(request.answer.recv()).is_ok());
}

#[test]
fn other_actions_may_be_processed_while_one_waits() {
    let (mut supervisor, handle) = SupervisorHandle::new();
    let (_line, inbox, id) = set_up(&mut supervisor);
    let request = handle.start_actor(id);
    let response = supervisor.process(request.delivery.event);
    let stop = handle.suspend_actor(id);
    let stopped = supervisor.process(stop.delivery.event);
    carry_out(&mut supervisor, stopped);
    assert!(conclude(stop.answer.recv()).is_ok());
    answer_state(&inbox, ActorState::Running);
    carry_out(&mut supervisor, response);
    assert!(conclude(request.answer.recv()).is_ok());
    assert!(matches!(inbox.try_recv(), Ok(SupervisorMessage::Stop)));
    assert!(inbox.try_recv().is_err());
}

#[test]
fn running_supervisor_ends_when_all_handles_are_gone() {
    let (supervisor, handle) = SupervisorHandle::new();
    let mut event_loop = supervisor.run();
    drop(handle);
    let received = event_loop.receiver().recv();
    assert!(received.is_err());
    match event_loop.turn(received) {
        Turn::Exit(result) => assert!(matches!(result, Err(ActorError::RecvError(_)))),
        Turn::Respond(_) => panic!("did not end"),
    }
}

#[test]
fn request_to_a_gone_supervisor_fails() {
    let (supervisor, handle) = SupervisorHandle::new();
    drop(supervisor);
    let request = handle.start_actor(1);
    let error = awaiting(deliver(request.delivery), request.answer).unwrap_err();
    match error {
        ActorError::SendError(flume::SendError(SupervisorAction::Start { id, .. })) => {
            assert_eq!(id, 1)
        }
        _ => panic!("not the refused action"),
    }
}

#[test]
fn state_and_heartbeat_wait_for_the_actor() {
    let (mut supervisor, handle) = SupervisorHandle::new();
    let (_line, inbox, id) = set_up(&mut supervisor);

    let request = handle.actor_state(id);
    let response = supervisor.process(request.delivery.event);
    assert!(matches!(&response, Response::AwaitState { .. }));
    answer_state(&inbox, ActorState::Running);
    carry_out(&mut supervisor, response);
    assert_eq!(
        conclude(request.answer.recv()).unwrap(),
        ActorState::Running
    );

    let request = handle.heartbeat(id);
    let response = supervisor.process(request.delivery.event);
    assert!(matches!(&response, Response::AwaitHeartbeat { .. }));
    answer_state(&inbox, ActorState::Stopped);
    carry_out(&mut supervisor, response);
    let event = HeartbeatEvent::Answered(request.answer.recv());
    assert!(conclude_heartbeat(id, event).is_ok());
}

#[test]
fn actor_that_drops_the_question_has_no_heartbeat() {
    let (mut supervisor, handle) = SupervisorHandle::new();
    let (_line, inbox, id) = set_up(&mut supervisor);
    let request = handle.heartbeat(id);
    let response = supervisor.process(request.delivery.event);
    while inbox.try_recv().is_ok() {}
    carry_out(&mut supervisor, response);
    let event = HeartbeatEvent::Answered(request.answer.recv());
    let error = conclude_heartbeat(id, event).unwrap_err();
    assert_eq!(
        error.message(),
        "Actor error Send cancelled receiving on a closed channel"
    );
}

#[test]
fn heartbeat_and_state_of_a_gone_actor_are_refused_at_once() {
    let (mut supervisor, handle) = SupervisorHandle::new();
    let (_line, inbox, id) = set_up(&mut supervisor);
    drop(inbox);
    let request = handle.heartbeat(id);
    match supervisor.process(request.delivery.event) {
        Response::Done { result, .. } => {
            assert_eq!(
                result.unwrap_err().message(),
                "Actor error Send error \"SendError(..)\""
            );
        }
        _ => panic!("waits for a gone actor"),
    }
    let request = handle.actor_state(id);
    match supervisor.process(request.delivery.event) {
        Response::State { result, .. } => assert!(result.is_err()),
        _ => panic!("waits for a gone actor"),
    }
}

#[test]
fn heartbeat_times_out() {
    assert_eq!(HEARTBEAT_SECONDS, 5);
    let error = conclude_heartbeat(7, HeartbeatEvent::TimedOut).unwrap_err();
    assert!(matches!(&error, ActorError::HeartbeatTimeout(7)));
    assert_eq!(error.message(), "Actor heartbeat timed out 7");
}

#[test]
fn answers_that_never_come() {
    let error = conclude::<()>(Err(flume::RecvError::Disconnected)).unwrap_err();
    assert_eq!(error.message(), "Actor error Send error Disconnected");
    let error = conclude_ids(Err(flume::RecvError::Disconnected)).unwrap_err();
    assert_eq!(error.message(), "Actor error Send error Disconnected");
}

#[test]
fn response_that_waits_for_nothing_stays() {
    let (reply, _answer) = flume::bounded(1);
    let response = Response::Ids {
        reply,
        ids: vec![3, 4],
    };
    assert!(response.awaited().is_none());
    match supervisor().resume(response, Ok(ActorState::Running)) {
        Response::Ids { ids, .. } => assert_eq!(ids, vec![3, 4]),
        _ => panic!("changed"),
    }
}

#[test]
fn pass_recovers_exactly_the_failed_actors() {
    let (mut supervisor, handle) = SupervisorHandle::new();
    let recovered = RefCell::new(Vec::new());
    let supervision = Supervision::new(
        handle,
        |id: ActorId, arg: Option<&str>| recovered.borrow_mut().push((id, arg)),
        Some("again"),
    );
    let request = supervision.ids();
    assert!(matches!(
        request.delivery.event,
        SupervisorAction::GetCurrentIds { .. }
    ));
    let response = supervisor.process(request.delivery.event);
    carry_out(&mut supervisor, response);
    assert!(conclude_ids(request.answer.recv()).unwrap().is_empty());

    let mut pass = supervision.begin(Ok(vec![4, 9, 2]));
    let outcomes = [
        Err(ActorError::HeartbeatTimeout(4)),
        Ok(()),
        Err(ActorError::Unknown),
    ];
    let mut checked = Vec::new();
    for outcome in outcomes {
        let (id, request) = pass.due().unwrap();
        match request.delivery.event {
            SupervisorAction::Heartbeat { id: asked, .. } => assert_eq!(asked, id),
            _ => panic!("no heartbeat"),
        }
        checked.push(id);
        pass.checked(outcome);
    }
    assert!(pass.due().is_none());
    assert_eq!(checked, vec![4, 9, 2]);
    assert_eq!(
        *recovered.borrow(),
        vec![(4, Some("again")), (2, Some("again"))]
    );
}

#[test]
fn pass_without_a_list_checks_nothing() {
    let (_supervisor, handle) = SupervisorHandle::new();
    let supervision =
        Supervision::new(handle, |_: ActorId, _: Option<()>| panic!("recovered"), None);
    let pass = supervision.begin(Err(ActorError::ChannelClosed));
    assert!(pass.due().is_none());
}

#[test]
fn ids_come_back_only_by_a_shutdown_that_gets_through() {
    let mut supervisor = supervisor();
    let mut actors = Vec::new();
    for _ in 0..ActorId::MAX {
        actors.push(set_up(&mut supervisor));
    }
    let (_line, inbox, id) = actors.pop().unwrap();
    drop(inbox);
    assert!(supervisor.shutdown_actor(id).is_err());
    assert!(supervisor.stop_actor(actors[0].2).is_ok());
    assert!(supervisor.new_supervisee_setup().is_err());

    supervisor.shutdown_all();
    for (_line, inbox, _id) in &actors {
        assert!(matches!(inbox.drain().last(), Some(SupervisorMessage::Shutdown)));
    }
    for _ in 0..actors.len() {
        let (_line, _inbox, again) = set_up(&mut supervisor);
        assert_ne!(again, id);
    }
    assert!(supervisor.new_supervisee_setup().is_err());
    assert_eq!(supervisor.get_current_ids().len(), ActorId::MAX as usize);
}
