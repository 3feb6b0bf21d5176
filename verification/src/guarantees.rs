//! What each action, request and call comes to, clause by clause: who is sent what, what is
//! answered, and what is left as it was.
use crate::actor::{Actor, ActorState, Event};
use crate::channel::{
    posted, ChannelRx, ChannelTx, Delivery, PriorityChannelRx, PriorityChannelTx, PriorityDelivery,
    PriorityRx, PriorityTx,
};
use crate::error::{relay, report_delivery, ActorError};
use crate::handle::{
    ActorHandle, Handle, PriorityHandle, StateQuery, SupervisedActorHandle, SupervisedHandle,
};
use crate::priority::PriorityEvent;
use crate::recovery::Recovery;
use crate::supervision::{HeartbeatPass, Supervision};
use crate::supervisor::{
    processed, report_heartbeat, report_send, report_state, resumed, turned, EventLoop,
    Received, Reply, Reported, Response, Sent, Supervisee, Supervisor, SupervisorAction,
    SupervisorActionReply, SupervisorMessage, SupervisorResult, SupervisorView, Turn,
};
use crate::supervisor_handle::{
    awaiting, conclude, conclude_heartbeat, conclude_ids, HandleResult, HeartbeatEvent, Request,
    SupervisorHandle,
};
use crate::{new_priority_actor_with_handle, ActorId, PriorityActorHandle};
use vstd::prelude::*;

verus! {

// Actions.

/// Stopping a registered actor sends it one message, which is to stop, and the answer is success
/// exactly if that message got through. Nothing else changes.
pub proof fn law_suspend(
    pre: SupervisorView,
    id: ActorId,
    reply: SupervisorActionReply<()>,
    post: SupervisorView,
    response: Response,
)
    requires
        processed(pre, SupervisorAction::Suspend { id, reply }, post, response),
        pre.handles.contains_key(id),
    ensures
        post.handles == pre.handles,
        post.ids == pre.ids,
        post.outbox.len() == pre.outbox.len() + 1,
        post.outbox.drop_last() == pre.outbox,
        post.outbox.last().channel == pre.handles[id],
        post.outbox.last().message == SupervisorMessage::Stop,
        posted(pre.handles[id], SupervisorMessage::Stop, post.outbox.last().sent),
        response matches Response::Done { reply: to, result } && to == reply && (result is Ok
            <==> post.outbox.last().sent is Ok) && (result is Err ==> (result matches Err(
            ActorError::ActorError(text),
        ) && text@ == "Send error "@ + "\"SendError(..)\""@)),
{
    assert(post.outbox.drop_last() =~= pre.outbox);
}

/// Shutting a registered actor down sends it one message, which is to shut down, and the answer is
/// success exactly if that message got through. Its identifier is free afterwards exactly if it was
/// before or the message got through; no other identifier is touched.
pub proof fn law_shutdown(
    pre: SupervisorView,
    id: ActorId,
    reply: SupervisorActionReply<()>,
    post: SupervisorView,
    response: Response,
)
    requires
        processed(pre, SupervisorAction::Shutdown { id, reply }, post, response),
        pre.handles.contains_key(id),
    ensures
        post.handles == pre.handles,
        forall|other: ActorId| #[trigger]
            post.ids.contains(other) <==> pre.ids.contains(other) || (other == id
                && post.outbox.last().sent is Ok),
        post.outbox.len() == pre.outbox.len() + 1,
        post.outbox.drop_last() == pre.outbox,
        post.outbox.last().channel == pre.handles[id],
        post.outbox.last().message == SupervisorMessage::Shutdown,
        posted(pre.handles[id], SupervisorMessage::Shutdown, post.outbox.last().sent),
        response matches Response::Done { reply: to, result } && to == reply && (result is Ok
            <==> post.outbox.last().sent is Ok) && (result is Err ==> (result matches Err(
            ActorError::ActorError(text),
        ) && text@ == "Send error "@ + "\"SendError(..)\""@)),
{
    assert(post.outbox.drop_last() =~= pre.outbox);
}

/// Shutting all actors down sends one message for each registered actor and no more: there is an
/// order of the registered actors in which each is sent a shutdown on its own line. An identifier is
/// free afterwards exactly if it was before or the shutdown of its actor got through. The answer is
/// success in any case.
pub proof fn law_shutdown_all(
    pre: SupervisorView,
    reply: SupervisorActionReply<()>,
    post: SupervisorView,
    response: Response,
)
    requires
        processed(pre, SupervisorAction::ShutdownAll { reply }, post, response),
    ensures
        response == (Response::Done { reply, result: Ok(()) }),
        post.handles == pre.handles,
        post.outbox.len() == pre.outbox.len() + pre.handles.dom().len(),
        pre.outbox.is_prefix_of(post.outbox),
        exists|order: Seq<ActorId>|
            {
                &&& #[trigger] order.no_duplicates()
                &&& forall|id: ActorId| #[trigger]
                    order.contains(id) <==> pre.handles.contains_key(id)
                &&& forall|i: int|
                    0 <= i < order.len() ==> {
                        let posting = post.outbox[pre.outbox.len() + i];
                        &&& posting.channel == pre.handles[#[trigger] order[i]]
                        &&& posting.message == SupervisorMessage::Shutdown
                        &&& posted(posting.channel, SupervisorMessage::Shutdown, posting.sent)
                        &&& post.ids.contains(order[i]) <==> pre.ids.contains(order[i])
                            || posting.sent is Ok
                    }
            },
        forall|id: ActorId|
            !pre.handles.contains_key(id) ==> (#[trigger] post.ids.contains(id)
                <==> pre.ids.contains(id)),
{
    let (keys, outcomes) = choose|keys: Seq<ActorId>, outcomes: Seq<Sent>|
        crate::supervisor::lists_registered(pre, keys)
            && #[trigger] crate::supervisor::shut_down_each(pre, keys, outcomes, post);
    keys.unique_seq_to_set();
    assert(pre.outbox =~= post.outbox.take(pre.outbox.len() as int));
    assert forall|id: ActorId| #[trigger]
        keys.contains(id) <==> pre.handles.contains_key(id) by {
        assert(keys.to_set().contains(id) <==> keys.contains(id));
    }
    assert forall|i: int| 0 <= i < keys.len() implies {
        let posting = post.outbox[pre.outbox.len() + i];
        &&& posting.channel == pre.handles[#[trigger] keys[i]]
        &&& posting.message == SupervisorMessage::Shutdown
        &&& posted(posting.channel, SupervisorMessage::Shutdown, posting.sent)
        &&& post.ids.contains(keys[i]) <==> pre.ids.contains(keys[i]) || posting.sent is Ok
    } by {
        if post.ids.contains(keys[i]) && !pre.ids.contains(keys[i]) {
            let k = choose|k: int|
                0 <= k < keys.len() && #[trigger] keys[k] == keys[i] && outcomes[k] is Ok;
            assert(k == i);
        }
    }
    assert forall|id: ActorId| !pre.handles.contains_key(id) implies (#[trigger] post.ids.contains(
        id,
    ) <==> pre.ids.contains(id)) by {
        if post.ids.contains(id) && !pre.ids.contains(id) {
            let k = choose|k: int|
                0 <= k < keys.len() && #[trigger] keys[k] == id && outcomes[k] is Ok;
            assert(keys.contains(id));
        }
    }
    assert(keys.no_duplicates());
}

/// Where no two actors share a line, shutting all down puts exactly one message on the line of each
/// registered actor, which is to shut down, and frees its identifier if that message got through.
pub proof fn law_shutdown_all_once_each(
    pre: SupervisorView,
    reply: SupervisorActionReply<()>,
    post: SupervisorView,
    response: Response,
    id: ActorId,
)
    requires
        processed(pre, SupervisorAction::ShutdownAll { reply }, post, response),
        forall|a: ActorId, b: ActorId|
            #![trigger pre.handles[a], pre.handles[b]]
            pre.handles.contains_key(a) && pre.handles.contains_key(b) && pre.handles[a]
                == pre.handles[b] ==> a == b,
        pre.handles.contains_key(id),
    ensures
        exists|k: int|
            {
                &&& pre.outbox.len() <= k < post.outbox.len()
                &&& #[trigger] post.outbox[k].channel == pre.handles[id]
                &&& post.outbox[k].message == SupervisorMessage::Shutdown
                &&& post.outbox[k].sent is Ok ==> post.ids.contains(id)
                &&& forall|other: int|
                    pre.outbox.len() <= other < post.outbox.len() && other != k ==> (
                    #[trigger] post.outbox[other]).channel != pre.handles[id]
            },
{
    law_shutdown_all(pre, reply, post, response);
    let order = choose|order: Seq<ActorId>|
        {
            &&& #[trigger] order.no_duplicates()
            &&& forall|id: ActorId| #[trigger] order.contains(id) <==> pre.handles.contains_key(id)
            &&& forall|i: int|
                0 <= i < order.len() ==> {
                    let posting = post.outbox[pre.outbox.len() + i];
                    &&& posting.channel == pre.handles[#[trigger] order[i]]
                    &&& posting.message == SupervisorMessage::Shutdown
                    &&& posted(posting.channel, SupervisorMessage::Shutdown, posting.sent)
                    &&& post.ids.contains(order[i]) <==> pre.ids.contains(order[i])
                        || posting.sent is Ok
                }
        };
    order.unique_seq_to_set();
    assert(order.to_set() =~= pre.handles.dom());
    assert(order.contains(id));
    let i = choose|i: int| 0 <= i < order.len() && order[i] == id;
    let k = pre.outbox.len() + i;
    assert(post.outbox[k].channel == pre.handles[order[i]]);
    assert forall|other: int|
        pre.outbox.len() <= other < post.outbox.len() && other != k implies (
    #[trigger] post.outbox[other]).channel != pre.handles[id] by {
        let j = other - pre.outbox.len();
        assert(post.outbox[pre.outbox.len() + j].channel == pre.handles[order[j]]);
        assert(order.contains(order[j]));
        assert(order[j] != order[i]);
    }
}

/// The list of identifiers names every registered actor once and nobody else, so that it is as long
/// as there are registered actors. Nothing changes.
pub proof fn law_current_ids(
    pre: SupervisorView,
    reply: Reply<Vec<ActorId>>,
    post: SupervisorView,
    response: Response,
)
    requires
        processed(pre, SupervisorAction::GetCurrentIds { reply }, post, response),
    ensures
        post == pre,
        response matches Response::Ids { reply: to, ids } && to == reply && ids@.no_duplicates() && (
        forall|id: ActorId| #[trigger] ids@.contains(id) <==> pre.handles.contains_key(id))
            && ids@.len() == pre.handles.dom().len(),
{
    if let Response::Ids { ids, .. } = response {
        ids@.unique_seq_to_set();
        assert forall|id: ActorId| #[trigger]
            ids@.contains(id) <==> pre.handles.contains_key(id) by {
            assert(ids@.to_set().contains(id) <==> ids@.contains(id));
        }
    }
}

/// A setup succeeds exactly if an identifier is free. It takes one that is, registers the actor under
/// it on the line that is handed out with the inbox at its other end, and greets the actor there
/// with that identifier. All other actors and identifiers stay as they are.
pub proof fn law_setup(
    pre: SupervisorView,
    reply: SupervisorActionReply<Supervisee>,
    post: SupervisorView,
    response: Response,
)
    requires
        processed(pre, SupervisorAction::NewActorSetup { reply }, post, response),
    ensures
        response matches Response::Setup { reply: to, result } && to == reply && match result {
            Ok((line, inbox, id)) => {
                &&& pre.ids.contains(id)
                &&& call_ensures(flume::unbounded::<SupervisorMessage>, (), (line, inbox))
                &&& post.handles.contains_key(id)
                &&& post.handles[id] == line
                &&& forall|other: ActorId| #[trigger]
                    post.ids.contains(other) <==> pre.ids.contains(other) && other != id
                &&& forall|other: ActorId| #[trigger]
                    post.handles.contains_key(other) <==> pre.handles.contains_key(other) || other
                        == id
                &&& forall|other: ActorId|
                    other != id && pre.handles.contains_key(other)
                        ==> #[trigger] post.handles[other] == pre.handles[other]
                &&& post.outbox.len() == pre.outbox.len() + 1
                &&& post.outbox.drop_last() == pre.outbox
                &&& post.outbox.last().channel == line
                &&& post.outbox.last().message == (SupervisorMessage::SetId { id })
                &&& posted(line, SupervisorMessage::SetId { id }, post.outbox.last().sent)
            },
            Err(e) => {
                &&& forall|id: ActorId| !#[trigger] pre.ids.contains(id)
                &&& post == pre
                &&& e matches ActorError::SystemError(text)
                &&& text@ == "too many actors"@
            },
        },
{
    if !pre.ids.is_empty() {
        assert(post.outbox.drop_last() =~= pre.outbox);
    }
}

/// Asking a registered actor for its state sends it one message, the question, with an end of a new
/// channel for one answer. If the question got through, the wait is on the other end of that
/// channel, and if not, the answer says so. Nothing else changes.
pub proof fn law_state_question(
    pre: SupervisorView,
    id: ActorId,
    reply: SupervisorActionReply<ActorState>,
    post: SupervisorView,
    response: Response,
)
    requires
        processed(pre, SupervisorAction::State { id, reply }, post, response),
        pre.handles.contains_key(id),
    ensures
        post.handles == pre.handles,
        post.ids == pre.ids,
        post.outbox.len() == pre.outbox.len() + 1,
        post.outbox.drop_last() == pre.outbox,
        post.outbox.last().channel == pre.handles[id],
        posted(pre.handles[id], post.outbox.last().message, post.outbox.last().sent),
        post.outbox.last().message matches SupervisorMessage::State { reply: asked } && if post.outbox.last().sent is Ok {
            response matches Response::AwaitState { reply: to, answer } && to == reply
                && call_ensures(flume::bounded::<ActorState>, (1usize,), (asked, answer))
        } else {
            response matches Response::State {
                reply: to,
                result: Err(ActorError::ActorError(text)),
            } && to == reply && text@ == "Send error "@ + "\"SendError(..)\""@
        },
{
    assert(post.outbox.drop_last() =~= pre.outbox);
}

/// A heartbeat asks a registered actor for its state, in the same way.
pub proof fn law_heartbeat_question(
    pre: SupervisorView,
    id: ActorId,
    reply: SupervisorActionReply<()>,
    post: SupervisorView,
    response: Response,
)
    requires
        processed(pre, SupervisorAction::Heartbeat { id, reply }, post, response),
        pre.handles.contains_key(id),
    ensures
        post.handles == pre.handles,
        post.ids == pre.ids,
        post.outbox.len() == pre.outbox.len() + 1,
        post.outbox.drop_last() == pre.outbox,
        post.outbox.last().channel == pre.handles[id],
        posted(pre.handles[id], post.outbox.last().message, post.outbox.last().sent),
        post.outbox.last().message matches SupervisorMessage::State { reply: asked } && if post.outbox.last().sent is Ok {
            response matches Response::AwaitHeartbeat { reply: to, answer } && to == reply
                && call_ensures(flume::bounded::<ActorState>, (1usize,), (asked, answer))
        } else {
            response matches Response::Done {
                reply: to,
                result: Err(ActorError::ActorError(text)),
            } && to == reply && text@ == "Send error "@ + "\"SendError(..)\""@
        },
{
    assert(post.outbox.drop_last() =~= pre.outbox);
}

/// A start asks a registered actor for its state first, in the same way, and sends nothing else
/// before the actor has answered.
pub proof fn law_start_question(
    pre: SupervisorView,
    id: ActorId,
    reply: SupervisorActionReply<()>,
    post: SupervisorView,
    response: Response,
)
    requires
        processed(pre, SupervisorAction::Start { id, reply }, post, response),
        pre.handles.contains_key(id),
    ensures
        post.handles == pre.handles,
        post.ids == pre.ids,
        post.outbox.len() == pre.outbox.len() + 1,
        post.outbox.drop_last() == pre.outbox,
        post.outbox.last().channel == pre.handles[id],
        posted(pre.handles[id], post.outbox.last().message, post.outbox.last().sent),
        post.outbox.last().message matches SupervisorMessage::State { reply: asked } && if post.outbox.last().sent is Ok {
            response matches Response::AwaitStart { id: whom, reply: to, answer } && whom == id && to
                == reply && call_ensures(flume::bounded::<ActorState>, (1usize,), (asked, answer))
        } else {
            response matches Response::Done {
                reply: to,
                result: Err(ActorError::ActorError(text)),
            } && to == reply && text@ == "Send error "@ + "\"SendError(..)\""@
        },
{
    assert(post.outbox.drop_last() =~= pre.outbox);
}

/// An action about an actor that is not registered sends nothing and changes nothing. To shut down,
/// stop or start the actor succeeds; to ask for its state or its heartbeat fails, and says why.
pub proof fn law_unregistered(
    pre: SupervisorView,
    id: ActorId,
    done: SupervisorActionReply<()>,
    state: SupervisorActionReply<ActorState>,
    post: SupervisorView,
    response: Response,
)
    requires
        !pre.handles.contains_key(id),
    ensures
        processed(pre, SupervisorAction::Shutdown { id, reply: done }, post, response) ==> post == pre
            && response == (Response::Done { reply: done, result: Ok(()) }),
        processed(pre, SupervisorAction::Suspend { id, reply: done }, post, response) ==> post == pre
            && response == (Response::Done { reply: done, result: Ok(()) }),
        processed(pre, SupervisorAction::Start { id, reply: done }, post, response) ==> post == pre
            && response == (Response::Done { reply: done, result: Ok(()) }),
        processed(pre, SupervisorAction::State { id, reply: state }, post, response) ==> post == pre
            && (response matches Response::State {
            reply: to,
            result: Err(ActorError::SystemError(text)),
        } && to == state && text@ == "No such actor ID"@),
        processed(pre, SupervisorAction::Heartbeat { id, reply: done }, post, response) ==> post
            == pre && (response matches Response::Done {
            reply: to,
            result: Err(ActorError::SystemError(text)),
        } && to == done && text@ == "No such actor ID"@),
{
}

// Waits.

/// The state that an actor reports is the answer to the question for it, whichever state that is.
/// Without a report the answer says what ended the wait. Nothing is sent and nothing changes.
pub proof fn law_state_answer(
    pre: SupervisorView,
    reply: SupervisorActionReply<ActorState>,
    answer: flume::Receiver<ActorState>,
    reported: Reported,
    post: SupervisorView,
    after: Response,
)
    requires
        resumed(pre, Response::AwaitState { reply, answer }, reported, post, after),
    ensures
        post == pre,
        reported matches Ok(state) ==> after == (Response::State { reply, result: Ok(state) }),
        reported is Err ==> (after matches Response::State {
            reply: to,
            result: Err(ActorError::ActorError(text)),
        } && to == reply && text@ == "Send cancelled "@ + "receiving on a closed channel"@),
{
}

/// A heartbeat succeeds whichever state the actor reports. Without a report the answer says what
/// ended the wait. Nothing is sent and nothing changes.
pub proof fn law_heartbeat_answer(
    pre: SupervisorView,
    reply: SupervisorActionReply<()>,
    answer: flume::Receiver<ActorState>,
    reported: Reported,
    post: SupervisorView,
    after: Response,
)
    requires
        resumed(pre, Response::AwaitHeartbeat { reply, answer }, reported, post, after),
    ensures
        post == pre,
        reported is Ok ==> after == (Response::Done { reply, result: Ok(()) }),
        reported is Err ==> (after matches Response::Done {
            reply: to,
            result: Err(ActorError::ActorError(text)),
        } && to == reply && text@ == "Send cancelled "@ + "receiving on a closed channel"@),
{
}

/// An actor that reports to be started, running, stopping or shutting down is not sent a start: the
/// answer is success and nothing changes.
pub proof fn law_start_answer_not_stopped(
    pre: SupervisorView,
    id: ActorId,
    reply: SupervisorActionReply<()>,
    answer: flume::Receiver<ActorState>,
    state: ActorState,
    post: SupervisorView,
    after: Response,
)
    requires
        resumed(pre, Response::AwaitStart { id, reply, answer }, Ok(state), post, after),
        state != ActorState::Stopped,
    ensures
        post == pre,
        after == (Response::Done { reply, result: Ok(()) }),
{
}

/// A registered actor that reports to be stopped, or does not report, is sent one message, which is
/// to start, and the answer is success exactly if that message got through. One that is not
/// registered is sent nothing.
pub proof fn law_start_answer_stopped(
    pre: SupervisorView,
    id: ActorId,
    reply: SupervisorActionReply<()>,
    answer: flume::Receiver<ActorState>,
    reported: Reported,
    post: SupervisorView,
    after: Response,
)
    requires
        resumed(pre, Response::AwaitStart { id, reply, answer }, reported, post, after),
        reported is Err || reported == Ok::<ActorState, flume::RecvError>(ActorState::Stopped),
    ensures
        post.handles == pre.handles,
        post.ids == pre.ids,
        pre.handles.contains_key(id) ==> {
            &&& post.outbox.len() == pre.outbox.len() + 1
            &&& post.outbox.drop_last() == pre.outbox
            &&& post.outbox.last().channel == pre.handles[id]
            &&& post.outbox.last().message == SupervisorMessage::Start
            &&& posted(pre.handles[id], SupervisorMessage::Start, post.outbox.last().sent)
            &&& after matches Response::Done { reply: to, result }
            &&& to == reply
            &&& result is Ok <==> post.outbox.last().sent is Ok
            &&& result is Err ==> (result matches Err(ActorError::ActorError(text)) && text@
                == "Send error "@ + "\"SendError(..)\""@)
        },
        !pre.handles.contains_key(id) ==> post == pre && after == (Response::Done {
            reply,
            result: Ok(()),
        }),
{
    if pre.handles.contains_key(id) {
        assert(post.outbox.drop_last() =~= pre.outbox);
    }
}

/// An answer that waits for nothing stays as it is, whatever is said to be reported.
pub proof fn law_answers_are_final(
    pre: SupervisorView,
    before: Response,
    reported: Reported,
    post: SupervisorView,
    after: Response,
)
    requires
        resumed(pre, before, reported, post, after),
        before is Setup || before is Done || before is Ids || before is State,
    ensures
        post == pre,
        after == before,
{
}

/// The event loop processes whatever action it receives and responds, and it ends with the error of
/// its inbox once that is closed, leaving the supervisor as it is.
pub proof fn law_turn(
    pre: SupervisorView,
    received: Received,
    post: SupervisorView,
    turn: Turn,
)
    requires
        turned(pre, received, post, turn),
    ensures
        received matches Ok(action) ==> (turn matches Turn::Respond(response) && processed(
            pre,
            action,
            post,
            response,
        )),
        received matches Err(e) ==> turn == Turn::Exit(Err(ActorError::RecvError(e))) && post
            == pre,
{
}

// Calls of a supervisor.

/// A new supervisor has no actor and no line, has sent nothing, and has every identifier to give out
/// but the largest. It takes its actions from the receiver that it was made with.
pub proof fn law_new_supervisor(
    receiver: flume::Receiver<SupervisorAction>,
    supervisor: Supervisor,
)
    requires
        call_ensures(Supervisor::new, (receiver,), supervisor),
    ensures
        forall|id: ActorId| !#[trigger] supervisor@.handles.contains_key(id),
        forall|id: ActorId| #[trigger] supervisor@.ids.contains(id) <==> id != 65535,
        supervisor@.outbox.len() == 0,
        supervisor.inbox() == receiver,
        supervisor@.wf(),
{
}

/// A supervisor that is made with its handle is a new one, and the handle sends on the other end of
/// the channel from which the supervisor takes its actions.
pub proof fn law_new_supervisor_with_handle(pair: (Supervisor, SupervisorHandle))
    requires
        call_ensures(SupervisorHandle::new, (), pair),
    ensures
        forall|id: ActorId| !#[trigger] pair.0@.handles.contains_key(id),
        forall|id: ActorId| #[trigger] pair.0@.ids.contains(id) <==> id != 65535,
        pair.0@.outbox.len() == 0,
        pair.0@.wf(),
        call_ensures(
            flume::unbounded::<SupervisorAction>,
            (),
            (pair.1.channel(), pair.0.inbox()),
        ),
{
}

/// What a call of `process`, `resume`, or a turn of the event loop does is what the laws on actions,
/// waits and turns speak of, and the supervisor stays well-formed with the same inbox.
pub proof fn law_calls_process(
    supervisor: &mut Supervisor,
    action: SupervisorAction,
    response: Response,
)
    requires
        call_ensures(Supervisor::process, (supervisor, action), response),
    ensures
        processed(old(supervisor)@, action, final(supervisor)@, response),
        final(supervisor)@.wf(),
        final(supervisor).inbox() == old(supervisor).inbox(),
{
}

/// As [`law_calls_process`], for `resume`.
pub proof fn law_calls_resume(
    supervisor: &mut Supervisor,
    before: Response,
    reported: Reported,
    after: Response,
)
    requires
        call_ensures(Supervisor::resume, (supervisor, before, reported), after),
    ensures
        resumed(old(supervisor)@, before, reported, final(supervisor)@, after),
        final(supervisor)@.wf(),
        final(supervisor).inbox() == old(supervisor).inbox(),
{
}

/// As [`law_calls_process`], for a turn of the event loop.
pub proof fn law_calls_turn(event_loop: &mut EventLoop, received: Received, turn: Turn)
    requires
        call_ensures(EventLoop::turn, (event_loop, received), turn),
    ensures
        turned(
            old(event_loop).supervisor()@,
            received,
            final(event_loop).supervisor()@,
            turn,
        ),
        final(event_loop).supervisor()@.wf(),
        final(event_loop).supervisor().inbox() == old(event_loop).supervisor().inbox(),
{
}

/// As [`law_calls_resume`], through the event loop.
pub proof fn law_calls_loop_resume(
    event_loop: &mut EventLoop,
    before: Response,
    reported: Reported,
    after: Response,
)
    requires
        call_ensures(EventLoop::resume, (event_loop, before, reported), after),
    ensures
        resumed(
            old(event_loop).supervisor()@,
            before,
            reported,
            final(event_loop).supervisor()@,
            after,
        ),
        final(event_loop).supervisor()@.wf(),
        final(event_loop).supervisor().inbox() == old(event_loop).supervisor().inbox(),
{
}

/// A direct setup is the same as one by an action.
pub proof fn law_call_setup(
    supervisor: &mut Supervisor,
    result: SupervisorResult<Supervisee>,
    reply: SupervisorActionReply<Supervisee>,
)
    requires
        call_ensures(Supervisor::new_supervisee_setup, (supervisor,), result),
    ensures
        processed(
            old(supervisor)@,
            SupervisorAction::NewActorSetup { reply },
            final(supervisor)@,
            Response::Setup { reply, result },
        ),
        final(supervisor)@.wf(),
        final(supervisor).inbox() == old(supervisor).inbox(),
{
}

/// A direct shutdown is the same as one by an action.
pub proof fn law_call_shutdown(
    supervisor: &mut Supervisor,
    id: ActorId,
    result: SupervisorResult<()>,
    reply: SupervisorActionReply<()>,
)
    requires
        call_ensures(Supervisor::shutdown_actor, (supervisor, id), result),
    ensures
        processed(
            old(supervisor)@,
            SupervisorAction::Shutdown { id, reply },
            final(supervisor)@,
            Response::Done { reply, result },
        ),
        final(supervisor)@.wf(),
        final(supervisor).inbox() == old(supervisor).inbox(),
{
}

/// A direct stop is the same as one by an action.
pub proof fn law_call_stop(
    supervisor: &mut Supervisor,
    id: ActorId,
    result: SupervisorResult<()>,
    reply: SupervisorActionReply<()>,
)
    requires
        call_ensures(Supervisor::stop_actor, (supervisor, id), result),
    ensures
        processed(
            old(supervisor)@,
            SupervisorAction::Suspend { id, reply },
            final(supervisor)@,
            Response::Done { reply, result },
        ),
        final(supervisor)@.wf(),
        final(supervisor).inbox() == old(supervisor).inbox(),
{
}

/// A direct start sends what a start by an action sends once the actor reported to be stopped.
pub proof fn law_call_start(
    supervisor: &mut Supervisor,
    id: ActorId,
    result: SupervisorResult<()>,
    reply: SupervisorActionReply<()>,
    answer: flume::Receiver<ActorState>,
)
    requires
        call_ensures(Supervisor::start_actor, (supervisor, id), result),
    ensures
        resumed(
            old(supervisor)@,
            Response::AwaitStart { id, reply, answer },
            Ok(ActorState::Stopped),
            final(supervisor)@,
            Response::Done { reply, result },
        ),
        final(supervisor)@.wf(),
        final(supervisor).inbox() == old(supervisor).inbox(),
{
}

/// Taking up a start with what the actor reported is what resuming does.
pub proof fn law_call_resume_start(
    supervisor: &mut Supervisor,
    id: ActorId,
    reported: Reported,
    result: SupervisorResult<()>,
    reply: SupervisorActionReply<()>,
    answer: flume::Receiver<ActorState>,
)
    requires
        call_ensures(Supervisor::resume_start, (supervisor, id, reported), result),
    ensures
        resumed(
            old(supervisor)@,
            Response::AwaitStart { id, reply, answer },
            reported,
            final(supervisor)@,
            Response::Done { reply, result },
        ),
        final(supervisor)@.wf(),
        final(supervisor).inbox() == old(supervisor).inbox(),
{
}

/// A direct question for a state is the same as one by an action.
pub proof fn law_call_state(
    supervisor: &mut Supervisor,
    id: ActorId,
    result: SupervisorResult<flume::Receiver<ActorState>>,
    reply: SupervisorActionReply<ActorState>,
)
    requires
        call_ensures(Supervisor::actor_state, (supervisor, id), result),
    ensures
        processed(
            old(supervisor)@,
            SupervisorAction::State { id, reply },
            final(supervisor)@,
            match result {
                Ok(answer) => Response::AwaitState { reply, answer },
                Err(e) => Response::State { reply, result: Err(e) },
            },
        ),
        final(supervisor)@.wf(),
        final(supervisor).inbox() == old(supervisor).inbox(),
{
}

/// A direct question for a heartbeat is the same as one by an action.
pub proof fn law_call_heartbeat(
    supervisor: &mut Supervisor,
    id: ActorId,
    result: SupervisorResult<flume::Receiver<ActorState>>,
    reply: SupervisorActionReply<()>,
)
    requires
        call_ensures(Supervisor::send_heartbeat, (supervisor, id), result),
    ensures
        processed(
            old(supervisor)@,
            SupervisorAction::Heartbeat { id, reply },
            final(supervisor)@,
            match result {
                Ok(answer) => Response::AwaitHeartbeat { reply, answer },
                Err(e) => Response::Done { reply, result: Err(e) },
            },
        ),
        final(supervisor)@.wf(),
        final(supervisor).inbox() == old(supervisor).inbox(),
{
}

/// A direct shutdown of all actors is the same as one by an action.
pub proof fn law_call_shutdown_all(
    supervisor: &mut Supervisor,
    reply: SupervisorActionReply<()>,
)
    requires
        call_ensures(Supervisor::shutdown_all, (supervisor,), ()),
    ensures
        processed(
            old(supervisor)@,
            SupervisorAction::ShutdownAll { reply },
            final(supervisor)@,
            Response::Done { reply, result: Ok(()) },
        ),
        final(supervisor)@.wf(),
        final(supervisor).inbox() == old(supervisor).inbox(),
{
}

/// A direct listing names every registered actor once and nobody else, and changes nothing.
pub proof fn law_call_ids(supervisor: &mut Supervisor, ids: Vec<ActorId>)
    requires
        call_ensures(Supervisor::get_current_ids, (supervisor,), ids),
    ensures
        *final(supervisor) == *old(supervisor),
        ids@.no_duplicates(),
        forall|id: ActorId| #[trigger]
            ids@.contains(id) <==> old(supervisor)@.handles.contains_key(id),
        ids@.len() == old(supervisor)@.handles.dom().len(),
{
    ids@.unique_seq_to_set();
    assert forall|id: ActorId| #[trigger]
        ids@.contains(id) <==> old(supervisor)@.handles.contains_key(id) by {
        assert(ids@.to_set().contains(id) <==> ids@.contains(id));
    }
}

/// Settling a shutdown frees the identifier exactly if the message got through, touches no other,
/// and sends nothing.
pub proof fn law_call_settle(
    supervisor: &mut Supervisor,
    id: ActorId,
    sent: Sent,
    result: SupervisorResult<()>,
)
    requires
        call_ensures(Supervisor::settle_shutdown, (supervisor, id, sent), result),
    ensures
        final(supervisor)@.handles == old(supervisor)@.handles,
        final(supervisor)@.outbox == old(supervisor)@.outbox,
        forall|other: ActorId| #[trigger]
            final(supervisor)@.ids.contains(other) <==> old(supervisor)@.ids.contains(other) || (
            other == id && sent is Ok),
        result is Ok <==> sent is Ok,
        final(supervisor)@.wf(),
        final(supervisor).inbox() == old(supervisor).inbox(),
{
}

/// Actions are received where they arrive.
pub proof fn law_receivers(
    supervisor: &Supervisor,
    inbox: &flume::Receiver<SupervisorAction>,
    event_loop: &EventLoop,
    loop_inbox: &flume::Receiver<SupervisorAction>,
)
    requires
        call_ensures(Supervisor::receiver, (supervisor,), inbox),
        call_ensures(EventLoop::receiver, (event_loop,), loop_inbox),
    ensures
        *inbox == supervisor.inbox(),
        *loop_inbox == event_loop.supervisor().inbox(),
{
}

/// A supervisor that runs as an actor is the one that was made to run.
pub proof fn law_run(supervisor: Supervisor, event_loop: EventLoop)
    requires
        call_ensures(
            <Supervisor as Actor<SupervisorAction>>::run,
            (supervisor,),
            event_loop,
        ),
    ensures
        event_loop.supervisor() == supervisor,
{
}

// Reports.

/// A send is reported as success exactly if it got through, and as its refusal otherwise.
pub proof fn law_report_send(sent: Sent, result: SupervisorResult<()>)
    requires
        call_ensures(report_send, (sent,), result),
    ensures
        sent is Ok ==> result is Ok,
        sent is Err ==> (result matches Err(ActorError::ActorError(text)) && text@
            == "Send error "@ + "\"SendError(..)\""@),
{
}

/// A state is reported as the very state that came back, and the end of the wait as what it is.
pub proof fn law_report_state(reported: Reported, result: SupervisorResult<ActorState>)
    requires
        call_ensures(report_state, (reported,), result),
    ensures
        reported matches Ok(state) ==> (result matches Ok(given) && given == state),
        reported is Err ==> (result matches Err(ActorError::ActorError(text)) && text@
            == "Send cancelled "@ + "receiving on a closed channel"@),
{
}

/// A heartbeat is a state, whichever; without one the error is the same.
pub proof fn law_report_heartbeat(state: SupervisorResult<ActorState>, result: SupervisorResult<()>)
    requires
        call_ensures(report_heartbeat, (state,), result),
    ensures
        state is Ok ==> result is Ok,
        state matches Err(e) ==> (result matches Err(given) && given == e),
{
}

/// A response that waits says on which channel, and only the wait for a start has a time limit.
pub proof fn law_response_waits(
    response: &Response,
    awaited: Option<&flume::Receiver<ActorState>>,
    limit: Option<u64>,
)
    requires
        call_ensures(Response::awaited, (response,), awaited),
        call_ensures(Response::time_limit, (response,), limit),
    ensures
        match *response {
            Response::AwaitState { answer, .. } => {
                &&& awaited matches Some(on)
                &&& *on == answer
                &&& limit is None
            },
            Response::AwaitHeartbeat { answer, .. } => {
                &&& awaited matches Some(on)
                &&& *on == answer
                &&& limit is None
            },
            Response::AwaitStart { answer, .. } => {
                &&& awaited matches Some(on)
                &&& *on == answer
                &&& limit == Some(5u64)
            },
            _ => awaited is None && limit is None,
        },
{
}

// Supervision.

/// A recovery runs for the actor that it is asked to run for, with a clone of its argument or
/// without one if it has none, and its record grows by that actor.
pub proof fn law_recovery_run<B: Send + Clone, F: Fn(ActorId, Option<B>)>(
    recovery: &mut Recovery<B, F>,
    id: ActorId,
)
    requires
        call_ensures(Recovery::<B, F>::run, (recovery, id), ()),
    ensures
        match old(recovery).argument() {
            Some(value) => exists|copy: B|
                #![trigger cloned::<B>(value, copy)]
                cloned::<B>(value, copy) && call_ensures(
                    old(recovery).function(),
                    (id, Some(copy)),
                    (),
                ),
            None => call_ensures(old(recovery).function(), (id, None::<B>), ()),
        },
        final(recovery)@.len() == old(recovery)@.len() + 1,
        final(recovery)@.drop_last() == old(recovery)@,
        final(recovery)@.last() == id,
        final(recovery).function() == old(recovery).function(),
        final(recovery).argument() == old(recovery).argument(),
{
    assert(final(recovery)@.drop_last() =~= old(recovery)@);
    let copy = choose|copy: Option<B>|
        crate::recovery::cloned_arg(old(recovery).argument(), copy) && #[trigger] call_ensures(
            old(recovery).function(),
            (id, copy),
            (),
        );
    if let Some(value) = old(recovery).argument() {
        assert(cloned::<B>(value, copy->0));
    }
}

/// The recovery runs for the actor that was due if its check failed, once and with a clone of the
/// argument, and for nobody if the check succeeded. Either way the next actor in the list is due.
pub proof fn law_checked<B: Send + Clone, F: Fn(ActorId, Option<B>)>(
    pass: &mut HeartbeatPass<B, F>,
    outcome: HandleResult<()>,
)
    requires
        call_ensures(HeartbeatPass::<B, F>::checked, (pass, outcome), ()),
    ensures
        final(pass)@.ids == old(pass)@.ids,
        final(pass)@.next == old(pass)@.next + 1,
        outcome is Ok ==> final(pass)@.recovered == old(pass)@.recovered,
        outcome is Err ==> {
            let due = old(pass)@.ids[old(pass)@.next as int];
            &&& final(pass)@.recovered.len() == old(pass)@.recovered.len() + 1
            &&& final(pass)@.recovered.drop_last() == old(pass)@.recovered
            &&& final(pass)@.recovered.last() == due
            &&& match old(pass).supervision().argument() {
                Some(value) => exists|copy: B|
                    #![trigger cloned::<B>(value, copy)]
                    cloned::<B>(value, copy) && call_ensures(
                        old(pass).supervision().recovery(),
                        (due, Some(copy)),
                        (),
                    ),
                None => call_ensures(
                    old(pass).supervision().recovery(),
                    (due, None::<B>),
                    (),
                ),
            }
        },
        final(pass).supervision().handle() == old(pass).supervision().handle(),
        final(pass).supervision().recovery() == old(pass).supervision().recovery(),
        final(pass).supervision().argument() == old(pass).supervision().argument(),
{
    if outcome is Err {
        let due = old(pass)@.ids[old(pass)@.next as int];
        assert(final(pass)@.recovered.drop_last() =~= old(pass)@.recovered);
        let copy = choose|copy: Option<B>|
            crate::recovery::cloned_arg(old(pass).supervision().argument(), copy)
                && #[trigger] call_ensures(
                old(pass).supervision().recovery(),
                (due, copy),
                (),
            );
        if let Some(value) = old(pass).supervision().argument() {
            assert(cloned::<B>(value, copy->0));
        }
    }
}

/// Supervision starts with nobody recovered, and keeps what it was made with.
pub proof fn law_new_supervision<B: Send + Clone, F: Fn(ActorId, Option<B>)>(
    handle: SupervisorHandle,
    recovery: F,
    argument: Option<B>,
    supervision: Supervision<B, F>,
)
    requires
        call_ensures(Supervision::<B, F>::new, (handle, recovery, argument), supervision),
    ensures
        supervision.handle() == handle,
        supervision.recovery() == recovery,
        supervision.argument() == argument,
        supervision.recovered().len() == 0,
{
}

/// A pass begins at the first of the actors that were listed, in the order of the list, and without
/// a list there is none to check.
pub proof fn law_pass_begins<B: Send + Clone, F: Fn(ActorId, Option<B>)>(
    supervision: Supervision<B, F>,
    listed: HandleResult<Vec<ActorId>>,
    pass: HeartbeatPass<B, F>,
)
    requires
        call_ensures(Supervision::<B, F>::begin, (supervision, listed), pass),
    ensures
        pass.supervision() == supervision,
        pass@.next == 0,
        pass@.recovered == supervision.recovered(),
        listed matches Ok(ids) ==> pass@.ids == ids@,
        listed is Err ==> pass@.ids.len() == 0,
{
}

/// What is due is the heartbeat of the next actor in the list, and nothing once all were checked.
pub proof fn law_pass_due<B: Send + Clone, F: Fn(ActorId, Option<B>)>(
    pass: &HeartbeatPass<B, F>,
    due: Option<(ActorId, Request<SupervisorResult<()>>)>,
)
    requires
        call_ensures(HeartbeatPass::<B, F>::due, (pass,), due),
    ensures
        due is Some <==> pass@.next < pass@.ids.len(),
        due matches Some((id, request)) ==> {
            &&& id == pass@.ids[pass@.next as int]
            &&& request.delivery.channel == pass.supervision().handle().channel()
            &&& request.delivery.event matches SupervisorAction::Heartbeat { id: whom, reply }
            &&& whom == id
            &&& call_ensures(
                flume::bounded::<SupervisorResult<()>>,
                (1usize,),
                (reply, request.answer),
            )
        },
{
}

/// The requests of a supervision are those of its handle.
pub proof fn law_supervision_requests<B: Send + Clone, F: Fn(ActorId, Option<B>)>(
    supervision: &Supervision<B, F>,
    ids: Request<Vec<ActorId>>,
    id: ActorId,
    check: Request<SupervisorResult<()>>,
)
    requires
        call_ensures(Supervision::<B, F>::ids, (supervision,), ids),
        call_ensures(Supervision::<B, F>::heartbeat_check, (supervision, id), check),
    ensures
        ids.delivery.channel == supervision.handle().channel(),
        ids.delivery.event matches SupervisorAction::GetCurrentIds { reply } && call_ensures(
            flume::bounded::<Vec<ActorId>>,
            (1usize,),
            (reply, ids.answer),
        ),
        check.delivery.channel == supervision.handle().channel(),
        check.delivery.event matches SupervisorAction::Heartbeat { id: whom, reply } && whom == id
            && call_ensures(
            flume::bounded::<SupervisorResult<()>>,
            (1usize,),
            (reply, check.answer),
        ),
{
}

// Requests.

/// A setup is asked for by this action, on the handle's channel, to be answered on a new channel for one answer
/// whose other end the request waits on.
pub proof fn law_request_setup(
    handle: &SupervisorHandle,
    request: Request<SupervisorResult<Supervisee>>,
)
    requires
        call_ensures(SupervisorHandle::new_supervisee_setup, (handle,), request),
    ensures
        request.delivery.channel == handle.channel(),
        request.delivery.event matches SupervisorAction::NewActorSetup { reply } && call_ensures(
            flume::bounded::<SupervisorResult<Supervisee>>,
            (1usize,),
            (reply, request.answer),
        ),
{
}

/// A start is asked for by this action, on the handle's channel, to be answered on a new channel for one answer
/// whose other end the request waits on.
pub proof fn law_request_start(
    handle: &SupervisorHandle,
    id: ActorId,
    request: Request<SupervisorResult<()>>,
)
    requires
        call_ensures(SupervisorHandle::start_actor, (handle, id), request),
    ensures
        request.delivery.channel == handle.channel(),
        request.delivery.event matches SupervisorAction::Start { id: whom, reply } && whom == id && call_ensures(
            flume::bounded::<SupervisorResult<()>>,
            (1usize,),
            (reply, request.answer),
        ),
{
}

/// A stop is asked for by this action, on the handle's channel, to be answered on a new channel for one answer
/// whose other end the request waits on.
pub proof fn law_request_suspend(
    handle: &SupervisorHandle,
    id: ActorId,
    request: Request<SupervisorResult<()>>,
)
    requires
        call_ensures(SupervisorHandle::suspend_actor, (handle, id), request),
    ensures
        request.delivery.channel == handle.channel(),
        request.delivery.event matches SupervisorAction::Suspend { id: whom, reply } && whom == id && call_ensures(
            flume::bounded::<SupervisorResult<()>>,
            (1usize,),
            (reply, request.answer),
        ),
{
}

/// A shutdown is asked for by this action, on the handle's channel, to be answered on a new channel for one answer
/// whose other end the request waits on.
pub proof fn law_request_shutdown(
    handle: &SupervisorHandle,
    id: ActorId,
    request: Request<SupervisorResult<()>>,
)
    requires
        call_ensures(SupervisorHandle::shutdown_actor, (handle, id), request),
    ensures
        request.delivery.channel == handle.channel(),
        request.delivery.event matches SupervisorAction::Shutdown { id: whom, reply } && whom == id && call_ensures(
            flume::bounded::<SupervisorResult<()>>,
            (1usize,),
            (reply, request.answer),
        ),
{
}

/// A state is asked for by this action, on the handle's channel, to be answered on a new channel for one answer
/// whose other end the request waits on.
pub proof fn law_request_state(
    handle: &SupervisorHandle,
    id: ActorId,
    request: Request<SupervisorResult<ActorState>>,
)
    requires
        call_ensures(SupervisorHandle::actor_state, (handle, id), request),
    ensures
        request.delivery.channel == handle.channel(),
        request.delivery.event matches SupervisorAction::State { id: whom, reply } && whom == id && call_ensures(
            flume::bounded::<SupervisorResult<ActorState>>,
            (1usize,),
            (reply, request.answer),
        ),
{
}

/// The list of actors is asked for by this action, on the handle's channel, to be answered on a new channel for one answer
/// whose other end the request waits on.
pub proof fn law_request_ids(
    handle: &SupervisorHandle,
    request: Request<Vec<ActorId>>,
)
    requires
        call_ensures(SupervisorHandle::ids, (handle,), request),
    ensures
        request.delivery.channel == handle.channel(),
        request.delivery.event matches SupervisorAction::GetCurrentIds { reply } && call_ensures(
            flume::bounded::<Vec<ActorId>>,
            (1usize,),
            (reply, request.answer),
        ),
{
}

/// A heartbeat is asked for by this action, on the handle's channel, to be answered on a new channel for one answer
/// whose other end the request waits on.
pub proof fn law_request_heartbeat(
    handle: &SupervisorHandle,
    id: ActorId,
    request: Request<SupervisorResult<()>>,
)
    requires
        call_ensures(SupervisorHandle::heartbeat, (handle, id), request),
    ensures
        request.delivery.channel == handle.channel(),
        request.delivery.event matches SupervisorAction::Heartbeat { id: whom, reply } && whom == id && call_ensures(
            flume::bounded::<SupervisorResult<()>>,
            (1usize,),
            (reply, request.answer),
        ),
{
}

/// A clone of a supervisor's handle sends on the same channel.
pub proof fn law_supervisor_handle_clone(handle: &SupervisorHandle, copy: SupervisorHandle)
    requires
        call_ensures(<SupervisorHandle as Clone>::clone, (handle,), copy),
    ensures
        copy.channel() == handle.channel(),
{
}

/// A request that was delivered is waited for on its own channel, and one that was not ends with the
/// message that came back.
pub proof fn law_awaiting<M, R>(
    sent: Result<(), flume::SendError<M>>,
    answer: flume::Receiver<R>,
    next: Result<flume::Receiver<R>, ActorError<M>>,
)
    requires
        call_ensures(awaiting::<M, R>, (sent, answer), next),
    ensures
        sent is Ok ==> (next matches Ok(on) && on == answer),
        sent matches Err(e) ==> (next matches Err(ActorError::SendError(given)) && given == e),
{
}

/// The value that the supervisor answers with is what the caller gets, an error of the supervisor
/// reads the same to the caller, and a wait that ended without an answer is an error.
pub proof fn law_conclude<T>(
    received: Result<SupervisorResult<T>, flume::RecvError>,
    result: HandleResult<T>,
)
    requires
        call_ensures(conclude::<T>, (received,), result),
    ensures
        match received {
            Ok(Ok(value)) => result matches Ok(given) && given == value,
            Ok(Err(ActorError::ActorError(text))) => result matches Err(
                ActorError::ActorError(given),
            ) && given == text,
            Ok(Err(ActorError::SystemError(text))) => result matches Err(
                ActorError::SystemError(given),
            ) && given == text,
            Ok(Err(ActorError::HeartbeatTimeout(id))) => result matches Err(
                ActorError::HeartbeatTimeout(given),
            ) && given == id,
            Ok(Err(ActorError::RecvError(e))) => result matches Err(ActorError::RecvError(given))
                && given == e,
            Ok(Err(ActorError::IoError(e))) => result matches Err(ActorError::IoError(given))
                && given == e,
            Ok(Err(ActorError::ChannelClosed)) => result matches Err(ActorError::ChannelClosed),
            Ok(Err(ActorError::Unknown)) => result matches Err(ActorError::Unknown),
            Ok(Err(ActorError::SendError(_))) => result matches Err(ActorError::ActorError(text))
                && text@ == "Send error "@ + "\"SendError(..)\""@,
            Err(_) => result matches Err(ActorError::ActorError(text)) && text@ == "Send error "@
                + "Disconnected"@,
        },
{
}

/// An error that is passed on is the same error, but that a refused send keeps only its text.
pub proof fn law_relay<T, U>(from: ActorError<T>, to: ActorError<U>)
    requires
        call_ensures(relay::<T, U>, (from,), to),
    ensures
        match from {
            ActorError::ActorError(text) => to matches ActorError::ActorError(given) && given
                == text,
            ActorError::SystemError(text) => to matches ActorError::SystemError(given) && given
                == text,
            ActorError::HeartbeatTimeout(id) => to matches ActorError::HeartbeatTimeout(given)
                && given == id,
            ActorError::RecvError(e) => to matches ActorError::RecvError(given) && given == e,
            ActorError::IoError(e) => to matches ActorError::IoError(given) && given == e,
            ActorError::ChannelClosed => to is ChannelClosed,
            ActorError::Unknown => to is Unknown,
            ActorError::SendError(_) => to matches ActorError::ActorError(text) && text@
                == "Send error "@ + "\"SendError(..)\""@,
        },
{
}

/// The list that the supervisor answers with is what the caller gets, and a wait that ended without
/// an answer is an error.
pub proof fn law_conclude_ids(
    received: Result<Vec<ActorId>, flume::RecvError>,
    result: HandleResult<Vec<ActorId>>,
)
    requires
        call_ensures(conclude_ids, (received,), result),
    ensures
        received matches Ok(ids) ==> (result matches Ok(given) && given == ids),
        received is Err ==> (result matches Err(ActorError::ActorError(text)) && text@
            == "Send error "@ + "Disconnected"@),
{
}

/// A heartbeat fails with the actor's identifier if its time ran out, and comes to the supervisor's
/// answer otherwise: success only if that is success.
pub proof fn law_conclude_heartbeat(
    id: ActorId,
    event: HeartbeatEvent,
    result: HandleResult<()>,
)
    requires
        call_ensures(conclude_heartbeat, (id, event), result),
    ensures
        match event {
            HeartbeatEvent::TimedOut => result matches Err(ActorError::HeartbeatTimeout(given))
                && given == id,
            HeartbeatEvent::Answered(Ok(Ok(()))) => result is Ok,
            HeartbeatEvent::Answered(Ok(Err(ActorError::ActorError(text)))) => result matches Err(
                ActorError::ActorError(given),
            ) && given == text,
            HeartbeatEvent::Answered(Ok(Err(ActorError::SystemError(text)))) => result matches Err(
                ActorError::SystemError(given),
            ) && given == text,
            HeartbeatEvent::Answered(Ok(Err(_))) => result is Err,
            HeartbeatEvent::Answered(Err(_)) => result matches Err(ActorError::ActorError(text))
                && text@ == "Send error "@ + "Disconnected"@,
        },
{
}

/// What a handle's request comes to when the actor reports a state is that state, from the question
/// to the caller.
pub proof fn law_state_reaches_caller(
    pre: SupervisorView,
    reply: SupervisorActionReply<ActorState>,
    answer: flume::Receiver<ActorState>,
    state: ActorState,
    post: SupervisorView,
    after: Response,
    result: HandleResult<ActorState>,
)
    requires
        resumed(pre, Response::AwaitState { reply, answer }, Ok(state), post, after),
        after matches Response::State { result: answered, .. } && call_ensures(
            conclude::<ActorState>,
            (Ok(answered),),
            result,
        ),
    ensures
        result == Ok::<ActorState, ActorError<SupervisorAction>>(state),
{
}

// Handles and channels.

/// An actor is built on the receiver that was given, and its handle on the sender.
pub proof fn law_new_handle<
    T: Event + Send,
    S: ChannelTx<T>,
    R: ChannelRx<T>,
    A: Actor<T> + Sized + 'static,
    C: FnOnce(R) -> A,
>(constructor: C, sender: S, receiver: R, pair: (A, ActorHandle<T, S, R>))
    requires
        call_ensures(
            ActorHandle::<T, S, R>::new::<A>,
            (constructor, sender, receiver),
            pair,
        ),
    ensures
        call_ensures(constructor, (receiver,), pair.0),
        pair.1.sender() == sender,
{
}

/// An actor that takes its events by priority is built on the other end of the channel that its
/// handle sends on.
pub proof fn law_new_priority_actor<
    T: Event + Send,
    A: Actor<T> + Sized + 'static,
    C: FnOnce(PriorityRx<T>) -> A,
>(constructor: C, pair: (A, PriorityActorHandle<T>))
    requires
        call_ensures(new_priority_actor_with_handle::<T, A>, (constructor,), pair),
    ensures
        exists|receiver: PriorityRx<T>|
            {
                &&& call_ensures(
                    async_priority_channel::unbounded::<T, PriorityEvent>,
                    (),
                    (pair.1.sender(), receiver),
                )
                &&& #[trigger] call_ensures(constructor, (receiver,), pair.0)
            },
{
}

/// A handle sends events as its channel does, with a priority and without.
pub proof fn law_handle_sends<
    T: Event + Send + Sync,
    S: PriorityChannelTx<T> + Send + Sync,
    R: PriorityChannelRx<T> + Send + Sync,
>(
    handle: &ActorHandle<T, S, R>,
    event: T,
    priority: PriorityEvent,
    plain: <S as ChannelTx<T>>::Result,
    urgent: <S as ChannelTx<T>>::Result,
)
    requires
        call_ensures(<ActorHandle<T, S, R> as Handle<T>>::send, (handle, event), plain),
        call_ensures(
            <ActorHandle<T, S, R> as PriorityHandle<T>>::send_with_priority,
            (handle, event, priority),
            urgent,
        ),
    ensures
        call_ensures(S::send_event, (&handle.sender(), event), plain),
        call_ensures(S::send_with_priority, (&handle.sender(), event, priority), urgent),
{
}

/// A clone of a handle sends on a clone of its channel.
pub proof fn law_handle_clone<T: Event + Send, S: ChannelTx<T> + Clone, R: ChannelRx<T>>(
    handle: &ActorHandle<T, S, R>,
    copy: ActorHandle<T, S, R>,
)
    requires
        call_ensures(<ActorHandle<T, S, R> as Clone>::clone, (handle,), copy),
    ensures
        call_ensures(S::clone, (&handle.sender(),), copy.sender()),
{
}

/// An event is delivered to the channel that it was sent on, unchanged.
pub proof fn law_delivery<E: Event + Send>(
    channel: &flume::Sender<E>,
    event: E,
    delivery: Delivery<E>,
)
    requires
        call_ensures(<flume::Sender<E> as ChannelTx<E>>::send_event, (channel, event), delivery),
    ensures
        delivery.channel == *channel,
        delivery.event == event,
{
}

/// An event is delivered to the priority channel that it was sent on, unchanged, with the priority
/// that it was sent with, and with a low one if it was sent without.
pub proof fn law_priority_delivery<E: Event + Send>(
    channel: &PriorityTx<E>,
    event: E,
    priority: PriorityEvent,
    plain: PriorityDelivery<E>,
    urgent: PriorityDelivery<E>,
)
    requires
        call_ensures(<PriorityTx<E> as ChannelTx<E>>::send_event, (channel, event), plain),
        call_ensures(
            <PriorityTx<E> as PriorityChannelTx<E>>::send_with_priority,
            (channel, event, priority),
            urgent,
        ),
    ensures
        plain.channel == *channel,
        plain.event == event,
        plain.priority == PriorityEvent::Low,
        urgent.channel == *channel,
        urgent.event == event,
        urgent.priority == priority,
{
}

/// What sending a message came back with is reported as it is.
pub proof fn law_report_delivery<T>(
    sent: Result<(), flume::SendError<T>>,
    result: Result<(), ActorError<T>>,
)
    requires
        call_ensures(report_delivery::<T>, (sent,), result),
    ensures
        sent is Ok ==> result is Ok,
        sent matches Err(e) ==> (result matches Err(ActorError::SendError(given)) && given == e),
{
}

/// A supervised actor is built on the other end of a new channel of events and on the inbox that was
/// given, and its handle has the line and the identifier that were given.
pub proof fn law_new_supervised<
    T: Event + Send,
    A: Actor<T>,
    C: FnOnce(flume::Receiver<T>, flume::Receiver<SupervisorMessage>) -> A,
>(
    line: flume::Sender<SupervisorMessage>,
    inbox: flume::Receiver<SupervisorMessage>,
    id: ActorId,
    constructor: C,
    pair: (A, SupervisedActorHandle<T>),
)
    requires
        call_ensures(
            SupervisedActorHandle::<T>::new::<A>,
            (line, inbox, id, constructor),
            pair,
        ),
    ensures
        exists|receiver: flume::Receiver<T>|
            {
                &&& call_ensures(flume::unbounded::<T>, (), (pair.1.events(), receiver))
                &&& #[trigger] call_ensures(constructor, (receiver, inbox), pair.0)
            },
        pair.1.line() == line,
        pair.1.id() == id,
{
}

/// A supervised actor's handle sends events to the actor and messages to its supervision line: a
/// shutdown to shut it down and a start to start it. It gives out these two channels.
pub proof fn law_supervised_sends<T: Event + Send>(
    handle: &SupervisedActorHandle<T>,
    event: T,
    sent: Delivery<T>,
    sent_as_handle: Delivery<T>,
    shutdown: Delivery<SupervisorMessage>,
    start: Delivery<SupervisorMessage>,
)
    requires
        call_ensures(SupervisedActorHandle::<T>::send, (handle, event), sent),
        call_ensures(<SupervisedActorHandle<T> as Handle<T>>::send, (handle, event), sent_as_handle),
        call_ensures(
            <SupervisedActorHandle<T> as SupervisedHandle<T>>::send_shutdown,
            (handle,),
            shutdown,
        ),
        call_ensures(
            <SupervisedActorHandle<T> as SupervisedHandle<T>>::send_start,
            (handle,),
            start,
        ),
    ensures
        sent.channel == handle.events(),
        sent.event == event,
        sent_as_handle.channel == handle.events(),
        sent_as_handle.event == event,
        shutdown.channel == handle.line(),
        shutdown.event == SupervisorMessage::Shutdown,
        start.channel == handle.line(),
        start.event == SupervisorMessage::Start,
{
}

/// The channels that a supervised actor's handle gives out are its own, and so are those of a clone.
pub proof fn law_supervised_channels<T: Event + Send>(
    handle: &SupervisedActorHandle<T>,
    direct: flume::Sender<T>,
    subscribed: flume::Sender<T>,
    line: flume::Sender<SupervisorMessage>,
    copy: SupervisedActorHandle<T>,
)
    requires
        call_ensures(SupervisedActorHandle::<T>::handle_subscribe_direct, (handle,), direct),
        call_ensures(
            <SupervisedActorHandle<T> as SupervisedHandle<T>>::subscribe_direct,
            (handle,),
            subscribed,
        ),
        call_ensures(SupervisedActorHandle::<T>::handle_subscribe_bcast, (handle,), line),
        call_ensures(<SupervisedActorHandle<T> as Clone>::clone, (handle,), copy),
    ensures
        direct == handle.events(),
        subscribed == handle.events(),
        line == handle.line(),
        copy.events() == handle.events(),
        copy.line() == handle.line(),
        copy.id() == handle.id(),
{
}

/// The question for a state goes to the actor's supervision line, with an end of a new channel for
/// one answer whose other end the query waits on.
pub proof fn law_supervised_state<T: Event + Send>(
    handle: &SupervisedActorHandle<T>,
    query: StateQuery,
    same: StateQuery,
)
    requires
        call_ensures(SupervisedActorHandle::<T>::get_state, (handle,), query),
        call_ensures(
            <SupervisedActorHandle<T> as SupervisedHandle<T>>::actor_state,
            (handle,),
            same,
        ),
    ensures
        query.delivery.channel == handle.line(),
        query.delivery.event matches SupervisorMessage::State { reply } && call_ensures(
            flume::bounded::<ActorState>,
            (1usize,),
            (reply, query.answer),
        ),
        same.delivery.channel == handle.line(),
        same.delivery.event matches SupervisorMessage::State { reply } && call_ensures(
            flume::bounded::<ActorState>,
            (1usize,),
            (reply, same.answer),
        ),
{
}

} // verus!
