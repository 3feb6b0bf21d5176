//! What holds of the library beyond single calls.
use crate::actor::{ActorState, Event};
use crate::channel::{ChannelRx, ChannelTx, PriorityChannelTx, PriorityDelivery, PriorityTx};
use crate::error::{relayed, ActorError};
use crate::handle::{ActorHandle, Handle};
use crate::priority::PriorityEvent;
use crate::supervision::PassView;
use crate::supervisor::{
    all_shut_down, initial, lemma_wf_kept, lists_registered, messaged, not_stopped, processed,
    resumed, send_reported, set_up, shut_down, shut_down_each, state_asked, turned, Received, Reply,
    Reported, Response, Sent, Supervisee, SupervisorAction, SupervisorActionReply,
    SupervisorMessage, SupervisorResult, SupervisorView, Turn,
};
use crate::supervisor_handle::{asks, concluded, HandleResult, Request};
use crate::ActorId;
use vstd::prelude::*;

verus! {

/// Something that a supervisor did.
#[allow(inconsistent_fields)]
pub enum Step {
    /// It processed an action.
    Process { action: SupervisorAction, response: Response },
    /// It resumed after a wait.
    Resume { before: Response, reported: Reported, after: Response },
}

impl Step {
    /// Whether the step leads from one view to the other.
    pub open spec fn leads(self, pre: SupervisorView, post: SupervisorView) -> bool {
        match self {
            Step::Process { action, response } => processed(pre, action, post, response),
            Step::Resume { before, reported, after } => resumed(
                pre,
                before,
                reported,
                post,
                after,
            ),
        }
    }
}

/// What a supervisor did since it was made, and how it stood before and after each step. Other
/// actions may be processed while one waits.
pub struct History {
    pub views: Seq<SupervisorView>,
    pub steps: Seq<Step>,
}

impl History {
    /// Whether step `i` led from one view to the next.
    pub open spec fn step(self, i: int) -> bool {
        self.steps[i].leads(self.views[i], self.views[i + 1])
    }

    /// Whether the history starts with a new supervisor and each step led on.
    pub open spec fn valid(self) -> bool {
        &&& self.views.len() == self.steps.len() + 1
        &&& initial(self.views[0])
        &&& forall|i: int| 0 <= i < self.steps.len() ==> #[trigger] self.step(i)
    }

    /// Whether step `i` set an actor up under `id`.
    pub open spec fn set_up_at(self, i: int, id: ActorId) -> bool {
        &&& 0 <= i < self.steps.len()
        &&& self.steps[i] matches Step::Process {
            response: Response::Setup { result: Ok((_, _, given)), .. },
            ..
        }
        &&& given == id
    }

    /// Whether step `i` set an actor up under `id` and on `line`.
    pub open spec fn set_up_on(
        self,
        i: int,
        id: ActorId,
        line: flume::Sender<SupervisorMessage>,
    ) -> bool {
        &&& self.set_up_at(i, id)
        &&& self.steps[i] matches Step::Process {
            response: Response::Setup { result: Ok((given, _, _)), .. },
            ..
        }
        &&& given == line
    }

    /// Whether `id` became free at step `i`.
    pub open spec fn freed_at(self, i: int, id: ActorId) -> bool {
        &&& !self.views[i].ids.contains(id)
        &&& self.views[i + 1].ids.contains(id)
    }
}

/// The actor that `action` is about, if it is about one.
pub open spec fn addressed(action: SupervisorAction) -> Option<ActorId> {
    match action {
        SupervisorAction::Shutdown { id, .. } => Some(id),
        SupervisorAction::Suspend { id, .. } => Some(id),
        SupervisorAction::Start { id, .. } => Some(id),
        SupervisorAction::State { id, .. } => Some(id),
        SupervisorAction::Heartbeat { id, .. } => Some(id),
        _ => None,
    }
}

/// Whether `action` may give the identifier `id` back.
pub open spec fn gives_back(action: SupervisorAction, id: ActorId) -> bool {
    match action {
        SupervisorAction::Shutdown { id: other, .. } => other == id,
        SupervisorAction::ShutdownAll { .. } => true,
        _ => false,
    }
}

/// Whether a shutdown got through on the line of `id` between two views.
pub open spec fn shutdown_delivered(pre: SupervisorView, post: SupervisorView, id: ActorId) -> bool {
    exists|k: int|
        {
            &&& pre.outbox.len() <= k < post.outbox.len()
            &&& #[trigger] post.outbox[k].channel == pre.handles[id]
            &&& post.outbox[k].message == SupervisorMessage::Shutdown
            &&& post.outbox[k].sent is Ok
        }
}

/// Whether message `k` of all that was sent told the actor `id` its identifier, on the line under
/// which the actor is registered.
pub open spec fn greeting(view: SupervisorView, k: int, id: ActorId) -> bool {
    &&& 0 <= k < view.outbox.len()
    &&& view.outbox[k].channel == view.handles[id]
    &&& view.outbox[k].message == (SupervisorMessage::SetId { id })
}

/// Whether every registered actor was told its identifier.
pub open spec fn greeted(view: SupervisorView) -> bool {
    forall|id: ActorId| #[trigger]
        view.handles.contains_key(id) ==> exists|k: int| greeting(view, k, id)
}

/// Whether `response` goes to the end of a channel on which `action` is to be answered.
pub open spec fn on_own_reply(action: SupervisorAction, response: Response) -> bool {
    match (action, response) {
        (SupervisorAction::NewActorSetup { reply }, Response::Setup { reply: to, .. }) => to
            == reply,
        (SupervisorAction::ShutdownAll { reply }, Response::Done { reply: to, .. }) => to == reply,
        (SupervisorAction::Shutdown { reply, .. }, Response::Done { reply: to, .. }) => to == reply,
        (SupervisorAction::Suspend { reply, .. }, Response::Done { reply: to, .. }) => to == reply,
        (SupervisorAction::Start { reply, .. }, Response::Done { reply: to, .. }) => to == reply,
        (SupervisorAction::Start { reply, .. }, Response::AwaitStart { reply: to, .. }) => to
            == reply,
        (SupervisorAction::GetCurrentIds { reply }, Response::Ids { reply: to, .. }) => to == reply,
        (SupervisorAction::State { reply, .. }, Response::State { reply: to, .. }) => to == reply,
        (SupervisorAction::State { reply, .. }, Response::AwaitState { reply: to, .. }) => to
            == reply,
        (SupervisorAction::Heartbeat { reply, .. }, Response::Done { reply: to, .. }) => to
            == reply,
        (SupervisorAction::Heartbeat { reply, .. }, Response::AwaitHeartbeat { reply: to, .. }) =>
            to == reply,
        _ => false,
    }
}

/// Processing an action keeps a supervisor well-formed.
pub proof fn law_well_formed(
    pre: SupervisorView,
    action: SupervisorAction,
    post: SupervisorView,
    response: Response,
)
    requires
        pre.wf(),
        processed(pre, action, post, response),
    ensures
        post.wf(),
{
    lemma_wf_kept(pre, post);
}

/// Resuming after a wait changes nothing but for a start, which may be sent to the actor that it is
/// about. Who is registered and which identifiers are free stays as it is in any case.
pub proof fn law_resuming(
    pre: SupervisorView,
    before: Response,
    reported: Reported,
    post: SupervisorView,
    after: Response,
)
    requires
        resumed(pre, before, reported, post, after),
    ensures
        post.handles == pre.handles,
        post.ids == pre.ids,
        post.lines == pre.lines,
        pre.outbox.is_prefix_of(post.outbox),
        post.outbox != pre.outbox ==> (before matches Response::AwaitStart { id, .. }
            && pre.handles.contains_key(id) && !not_stopped(reported) && post.outbox
            == pre.outbox.push(post.outbox.last()) && post.outbox.last().channel == pre.handles[id]
            && post.outbox.last().message == SupervisorMessage::Start),
        pre.wf() ==> post.wf(),
{
    if let Response::AwaitStart { id, .. } = before {
        if !not_stopped(reported) && pre.handles.contains_key(id) {
            assert(post.outbox =~= pre.outbox.push(post.outbox.last()));
        }
    }
    if pre.wf() {
        lemma_wf_kept(pre, post);
    }
}

/// A supervisor is well-formed at every point of its history.
pub proof fn law_always_well_formed(history: History, i: int)
    requires
        history.valid(),
        0 <= i <= history.steps.len(),
    ensures
        history.views[i].wf(),
    decreases i,
{
    if i == 0 {
        let view = history.views[0];
        assert forall|id: ActorId|
            #![trigger view.ids.contains(id)]
            #![trigger view.handles.contains_key(id)]
            (view.ids.contains(id) || view.handles.contains_key(id)) <==> id < ActorId::MAX by {
            assert(view.ids.contains(id) <==> id < ActorId::MAX);
        }
    } else {
        law_always_well_formed(history, i - 1);
        assert(history.step(i - 1));
        let pre = history.views[i - 1];
        let post = history.views[i];
        match history.steps[i - 1] {
            Step::Process { action, response } => law_well_formed(pre, action, post, response),
            Step::Resume { before, reported, after } => law_resuming(
                pre,
                before,
                reported,
                post,
                after,
            ),
        }
    }
}

/// An actor stays registered whatever is processed.
pub proof fn law_registered_for_good(
    pre: SupervisorView,
    action: SupervisorAction,
    post: SupervisorView,
    response: Response,
)
    requires
        processed(pre, action, post, response),
    ensures
        pre.handles.dom().subset_of(post.handles.dom()),
{
}

/// An identifier becomes free only by a shutdown of its actor, or of all, that got through.
pub proof fn law_freed_by_shutdown(
    pre: SupervisorView,
    action: SupervisorAction,
    post: SupervisorView,
    response: Response,
    id: ActorId,
)
    requires
        processed(pre, action, post, response),
        !pre.ids.contains(id),
        post.ids.contains(id),
    ensures
        gives_back(action, id),
        pre.handles.contains_key(id),
        shutdown_delivered(pre, post, id),
{
    match action {
        SupervisorAction::ShutdownAll { .. } => {
            let (keys, outcomes) = choose|keys: Seq<ActorId>, outcomes: Seq<Sent>|
                lists_registered(pre, keys) && #[trigger] shut_down_each(pre, keys, outcomes, post);
            let i = choose|i: int|
                0 <= i < keys.len() && #[trigger] keys[i] == id && outcomes[i] is Ok;
            assert(keys.to_set().contains(id));
            assert(post.outbox[pre.outbox.len() + i].channel == pre.handles[id]);
        },
        SupervisorAction::Shutdown { .. } => {
            assert(post.outbox[pre.outbox.len() as int].channel == pre.handles[id]);
        },
        _ => {},
    }
}

/// An identifier in use stays in use until a shutdown of its actor got through, and its actor stays
/// registered under the same line.
pub proof fn law_in_use_until_given_back(
    pre: SupervisorView,
    action: SupervisorAction,
    post: SupervisorView,
    response: Response,
    id: ActorId,
)
    requires
        processed(pre, action, post, response),
        pre.live().contains(id),
    ensures
        post.handles.contains_key(id),
        post.handles[id] == pre.handles[id],
        post.live().contains(id) || (gives_back(action, id) && shutdown_delivered(pre, post, id)),
{
    if !post.live().contains(id) {
        law_freed_by_shutdown(pre, action, post, response, id);
    }
}

/// No two actors share an identifier while both are in use: two setups give out different ones
/// unless the first became free between them.
pub proof fn law_unique_ids(history: History, i: int, j: int, a: ActorId, b: ActorId)
    requires
        history.valid(),
        i < j,
        history.set_up_at(i, a),
        history.set_up_at(j, b),
        forall|k: int| i < k < j ==> !#[trigger] history.freed_at(k, a),
    ensures
        a != b,
{
    assert(history.step(i));
    assert(history.step(j));
    lemma_not_free(history, i + 1, j, a);
}

proof fn lemma_not_free(history: History, i: int, j: int, id: ActorId)
    requires
        history.valid(),
        0 <= i <= j <= history.steps.len(),
        !history.views[i].ids.contains(id),
        forall|k: int| i <= k < j ==> !#[trigger] history.freed_at(k, id),
    ensures
        !history.views[j].ids.contains(id),
    decreases j - i,
{
    if i < j {
        lemma_not_free(history, i, j - 1, id);
        assert(!history.freed_at(j - 1, id));
    }
}

/// At every step of a history, an identifier becomes free only by processing a shutdown of its
/// actor, or of all, that got through.
pub proof fn law_always_freed_by_shutdown(history: History, i: int, id: ActorId)
    requires
        history.valid(),
        0 <= i < history.steps.len(),
        history.freed_at(i, id),
    ensures
        history.steps[i] matches Step::Process { action, .. } && gives_back(action, id),
        shutdown_delivered(history.views[i], history.views[i + 1], id),
{
    assert(history.step(i));
    match history.steps[i] {
        Step::Process { action, response } => law_freed_by_shutdown(
            history.views[i],
            action,
            history.views[i + 1],
            response,
            id,
        ),
        Step::Resume { before, reported, after } => law_resuming(
            history.views[i],
            before,
            reported,
            history.views[i + 1],
            after,
        ),
    }
}

/// An actor is reached on the line that it was set up on, until its identifier is handed out again.
pub proof fn law_line_until_set_up_again(
    history: History,
    i: int,
    j: int,
    id: ActorId,
    line: flume::Sender<SupervisorMessage>,
)
    requires
        history.valid(),
        history.set_up_on(i, id, line),
        i < j <= history.steps.len(),
        forall|k: int| i < k < j ==> !#[trigger] history.set_up_at(k, id),
    ensures
        history.views[j].handles.contains_key(id),
        history.views[j].handles[id] == line,
    decreases j - i,
{
    assert(history.step(j - 1));
    if i < j - 1 {
        law_line_until_set_up_again(history, i, j - 1, id, line);
        assert(!history.set_up_at(j - 1, id));
    }
}

/// Whatever an action about an actor sends goes out on the line of the latest setup under the
/// actor's identifier, and so does a start after a wait. Where an identifier was handed out again,
/// nothing more goes out on the line that it had before, unless the two lines are the same.
pub proof fn law_sent_on_latest_line(
    history: History,
    i: int,
    j: int,
    id: ActorId,
    line: flume::Sender<SupervisorMessage>,
    k: int,
)
    requires
        history.valid(),
        history.set_up_on(i, id, line),
        i < j < history.steps.len(),
        forall|k: int| i < k < j ==> !#[trigger] history.set_up_at(k, id),
        match history.steps[j] {
            Step::Process { action, .. } => addressed(action) == Some(id),
            Step::Resume { before, .. } => before matches Response::AwaitStart { id: whom, .. }
                && whom == id,
        },
        history.views[j].outbox.len() <= k < history.views[j + 1].outbox.len(),
    ensures
        history.views[j + 1].outbox[k].channel == line,
{
    law_line_until_set_up_again(history, i, j, id, line);
    assert(history.step(j));
}

/// Once all identifiers were in use and one of their actors was shut down, the next setup hands out
/// that very identifier, on the line that it opens; what is sent to the identifier from then on goes
/// out on that line. That this line is another than the one before is left to `flume::unbounded`.
pub proof fn law_id_handed_out_again(
    pre: SupervisorView,
    id: ActorId,
    mid: SupervisorView,
    shutdown: SupervisorResult<()>,
    post: SupervisorView,
    setup: SupervisorResult<Supervisee>,
    message: SupervisorMessage,
    told: SupervisorView,
    answer: SupervisorResult<()>,
    gone: SupervisorView,
    last: SupervisorResult<()>,
)
    requires
        pre.ids.is_empty(),
        pre.handles.contains_key(id),
        shut_down(pre, id, mid, shutdown),
        shutdown is Ok,
        set_up(mid, post, setup),
        messaged(post, id, message, told, answer),
        shut_down(post, id, gone, last),
    ensures
        setup matches Ok((line, inbox, given)) && {
            &&& given == id
            &&& call_ensures(flume::unbounded::<SupervisorMessage>, (), (line, inbox))
            &&& post.handles[id] == line
            &&& told.outbox == post.outbox.push(told.outbox.last())
            &&& told.outbox.last().channel == line
            &&& told.outbox.last().message == message
            &&& gone.outbox == post.outbox.push(gone.outbox.last())
            &&& gone.outbox.last().channel == line
            &&& gone.outbox.last().message == SupervisorMessage::Shutdown
        },
        post.ids.is_empty(),
{
    assert(mid.ids =~= set![id]);
    assert(mid.ids.contains(id));
    assert(post.ids =~= Set::empty());
    assert(told.outbox =~= post.outbox.push(told.outbox.last()));
    assert(gone.outbox =~= post.outbox.push(gone.outbox.last()));
}

/// A setup that is called directly is a step of a history like any other.
pub proof fn law_direct_setup(
    pre: SupervisorView,
    post: SupervisorView,
    result: SupervisorResult<Supervisee>,
    reply: SupervisorActionReply<Supervisee>,
)
    requires
        set_up(pre, post, result),
    ensures
        (Step::Process {
            action: SupervisorAction::NewActorSetup { reply },
            response: Response::Setup { reply, result },
        }).leads(pre, post),
{
}

/// A shutdown that is called directly is a step of a history like any other.
pub proof fn law_direct_shutdown(
    pre: SupervisorView,
    id: ActorId,
    post: SupervisorView,
    result: SupervisorResult<()>,
    reply: SupervisorActionReply<()>,
)
    requires
        shut_down(pre, id, post, result),
    ensures
        (Step::Process {
            action: SupervisorAction::Shutdown { id, reply },
            response: Response::Done { reply, result },
        }).leads(pre, post),
{
}

/// A shutdown of all actors that is called directly is a step of a history like any other.
pub proof fn law_direct_shutdown_all(
    pre: SupervisorView,
    post: SupervisorView,
    reply: SupervisorActionReply<()>,
)
    requires
        all_shut_down(pre, post),
    ensures
        (Step::Process {
            action: SupervisorAction::ShutdownAll { reply },
            response: Response::Done { reply, result: Ok(()) },
        }).leads(pre, post),
{
}

/// A stop that is called directly is a step of a history like any other.
pub proof fn law_direct_stop(
    pre: SupervisorView,
    id: ActorId,
    post: SupervisorView,
    result: SupervisorResult<()>,
    reply: SupervisorActionReply<()>,
)
    requires
        messaged(pre, id, SupervisorMessage::Stop, post, result),
    ensures
        (Step::Process {
            action: SupervisorAction::Suspend { id, reply },
            response: Response::Done { reply, result },
        }).leads(pre, post),
{
}

/// A start that is called directly is a step of a history like any other: the same as a start after
/// a wait that found the actor stopped.
pub proof fn law_direct_start(
    pre: SupervisorView,
    id: ActorId,
    post: SupervisorView,
    result: SupervisorResult<()>,
    reply: SupervisorActionReply<()>,
    answer: flume::Receiver<ActorState>,
)
    requires
        messaged(pre, id, SupervisorMessage::Start, post, result),
    ensures
        (Step::Resume {
            before: Response::AwaitStart { id, reply, answer },
            reported: Ok(ActorState::Stopped),
            after: Response::Done { reply, result },
        }).leads(pre, post),
{
}

/// A question for a state or a heartbeat that is asked directly is a step of a history like any
/// other.
pub proof fn law_direct_question(
    pre: SupervisorView,
    id: ActorId,
    post: SupervisorView,
    result: SupervisorResult<flume::Receiver<ActorState>>,
    reply: SupervisorActionReply<ActorState>,
)
    requires
        state_asked(pre, id, post, result),
    ensures
        (Step::Process {
            action: SupervisorAction::State { id, reply },
            response: match result {
                Ok(answer) => Response::AwaitState { reply, answer },
                Err(e) => Response::State { reply, result: Err(e) },
            },
        }).leads(pre, post),
{
}

/// A run of the event loop: what its inbox yielded in order, what the loop did with each, and what
/// came of it. After a turn that responds, the runtime waits where it has to, resumes and takes the
/// next turn; after one that exits there is none.
pub struct Run {
    pub received: Seq<Received>,
    pub turns: Seq<Turn>,
    /// How the supervisor stood before each turn, and at the end.
    pub before: Seq<SupervisorView>,
    /// How the supervisor stood after each turn, before the wait.
    pub after: Seq<SupervisorView>,
    /// What each wait came back with. Where there is no wait, it does not matter.
    pub reports: Seq<Reported>,
    /// What was answered in the end.
    pub answers: Seq<Response>,
}

impl Run {
    /// Whether round `i` is a turn and what follows it.
    pub open spec fn round(self, i: int) -> bool {
        &&& turned(self.before[i], self.received[i], self.after[i], self.turns[i])
        &&& match self.turns[i] {
            Turn::Respond(response) => resumed(
                self.after[i],
                response,
                self.reports[i],
                self.before[i + 1],
                self.answers[i],
            ),
            Turn::Exit(_) => self.before[i + 1] == self.after[i],
        }
    }

    /// Whether the rounds follow each other, the loop goes on after a response only, and each
    /// sequence is as long as the run.
    pub open spec fn valid(self) -> bool {
        &&& self.turns.len() == self.received.len()
        &&& self.before.len() == self.received.len() + 1
        &&& self.after.len() == self.received.len()
        &&& self.reports.len() == self.received.len()
        &&& self.answers.len() == self.received.len()
        &&& forall|i: int| 0 <= i < self.received.len() ==> #[trigger] self.round(i)
        &&& forall|i: int|
            0 <= i < self.received.len() - 1 ==> #[trigger] self.turns[i] is Respond
    }

    /// The first `n` rounds, all of them with responses, as a history of the supervisor.
    pub open spec fn history(self, n: int) -> History {
        History {
            views: Seq::new(
                (2 * n + 1) as nat,
                |k: int|
                    if k % 2 == 0 {
                        self.before[k / 2]
                    } else {
                        self.after[k / 2]
                    },
            ),
            steps: Seq::new(
                (2 * n) as nat,
                |k: int|
                    if k % 2 == 0 {
                        Step::Process {
                            action: self.received[k / 2]->Ok_0,
                            response: self.turns[k / 2]->Respond_0,
                        }
                    } else {
                        Step::Resume {
                            before: self.turns[k / 2]->Respond_0,
                            reported: self.reports[k / 2],
                            after: self.answers[k / 2],
                        }
                    },
            ),
        }
    }
}

/// The event loop processes every action that its inbox yields, each once and in that order, and
/// answers it on its own reply; an answer that is an error does not end the loop. Once the inbox is
/// closed, the loop ends with that error.
pub proof fn law_event_loop(run: Run, actions: Seq<SupervisorAction>, e: flume::RecvError)
    requires
        run.valid(),
        run.received.len() == actions.len() + 1,
        forall|i: int|
            0 <= i < actions.len() ==> #[trigger] run.received[i] == Ok::<
                SupervisorAction,
                flume::RecvError,
            >(actions[i]),
        run.received.last() == Err::<SupervisorAction, flume::RecvError>(e),
    ensures
        forall|i: int|
            0 <= i < actions.len() ==> {
                &&& #[trigger] run.turns[i] matches Turn::Respond(response)
                &&& processed(run.before[i], actions[i], run.after[i], response)
                &&& resumed(
                    run.after[i],
                    response,
                    run.reports[i],
                    run.before[i + 1],
                    run.answers[i],
                )
                &&& on_own_reply(actions[i], run.answers[i])
                &&& run.answers[i].waits_on() is None
            },
        run.turns.last() == Turn::Exit(Err(ActorError::RecvError(e))),
        run.before.last() == run.before[actions.len() as int],
{
    assert forall|i: int| 0 <= i < actions.len() implies {
        &&& #[trigger] run.turns[i] matches Turn::Respond(response)
        &&& processed(run.before[i], actions[i], run.after[i], response)
        &&& resumed(run.after[i], response, run.reports[i], run.before[i + 1], run.answers[i])
        &&& on_own_reply(actions[i], run.answers[i])
        &&& run.answers[i].waits_on() is None
    } by {
        assert(run.round(i));
        assert(run.received[i] == Ok::<SupervisorAction, flume::RecvError>(actions[i]));
        law_answered_on_own_reply(
            run.before[i],
            actions[i],
            run.after[i],
            run.turns[i]->Respond_0,
            run.after[i],
            run.reports[i],
            run.before[i + 1],
            run.answers[i],
        );
    }
    assert(run.round(actions.len() as int));
}

/// The event loop ends at the first thing it receives that is no action, at nothing else, and never
/// with success.
pub proof fn law_loop_ends_only_when_closed(run: Run, i: int)
    requires
        run.valid(),
        0 <= i < run.received.len(),
    ensures
        run.turns[i] is Exit <==> run.received[i] is Err,
        run.turns[i] matches Turn::Exit(result) ==> {
            &&& i == run.received.len() - 1
            &&& result matches Err(ActorError::RecvError(_))
        },
{
    assert(run.round(i));
}

/// What a new supervisor does in a run of its event loop is a history.
pub proof fn law_run_is_a_history(run: Run, n: int)
    requires
        run.valid(),
        initial(run.before[0]),
        0 <= n <= run.received.len(),
        forall|i: int| 0 <= i < n ==> #[trigger] run.turns[i] is Respond,
    ensures
        run.history(n).valid(),
{
    let history = run.history(n);
    assert forall|k: int| 0 <= k < history.steps.len() implies #[trigger] history.step(k) by {
        assert(run.round(k / 2));
        assert(run.turns[k / 2] is Respond);
    }
}

/// Every identifier but the largest is either free or in use, never both.
pub proof fn law_capacity(view: SupervisorView)
    requires
        view.wf(),
    ensures
        view.ids.finite(),
        view.live().finite(),
        view.ids.disjoint(view.live()),
        view.ids.len() + view.live().len() == ActorId::MAX,
{
    broadcast use vstd::set_lib::range_set_properties;

    let all = Set::<ActorId>::range(0, ActorId::MAX);
    assert forall|id: ActorId| view.ids.union(view.live()).contains(id) <==> all.contains(id) by {
        assert((view.ids.contains(id) || view.handles.contains_key(id)) <==> id < ActorId::MAX);
    }
    assert(view.ids.union(view.live()) =~= all);
    vstd::set_lib::lemma_set_union_finite_implies_sets_finite(view.ids, view.live());
    vstd::set_lib::lemma_set_disjoint_lens(view.ids, view.live());
}

/// A setup is refused exactly when as many actors are in use as there are identifiers.
pub proof fn law_refused_when_full(
    pre: SupervisorView,
    post: SupervisorView,
    result: SupervisorResult<Supervisee>,
)
    requires
        pre.wf(),
        set_up(pre, post, result),
    ensures
        result is Err <==> pre.live().len() == ActorId::MAX,
{
    law_capacity(pre);
    if pre.ids.len() == 0 {
        pre.ids.lemma_len0_is_empty();
    } else {
        assert(!pre.ids.is_empty());
    }
}

/// A shutdown that gets through gives back what the setup took: the same identifiers are free and
/// in use as before, and the actor stays registered.
pub proof fn law_shutdown_undoes_setup(
    pre: SupervisorView,
    mid: SupervisorView,
    setup: SupervisorResult<Supervisee>,
    id: ActorId,
    post: SupervisorView,
    result: SupervisorResult<()>,
)
    requires
        set_up(pre, mid, setup),
        setup matches Ok((_, _, given)) && given == id,
        shut_down(mid, id, post, result),
        result is Ok,
    ensures
        mid.live() == pre.live().insert(id),
        post.ids == pre.ids,
        post.live() == pre.live(),
        post.handles.contains_key(id),
{
    assert(mid.live() =~= pre.live().insert(id));
    assert(post.ids =~= pre.ids);
    assert(post.live() =~= pre.live());
}

/// A shutdown that does not get through leaves every identifier as it was.
pub proof fn law_failed_shutdown_keeps_id(
    pre: SupervisorView,
    id: ActorId,
    post: SupervisorView,
    result: SupervisorResult<()>,
)
    requires
        shut_down(pre, id, post, result),
        result is Err,
    ensures
        post.handles == pre.handles,
        post.ids == pre.ids,
{
}

/// Shutting down all actors reaches each of them with one message and nobody else, and an
/// identifier is free afterwards exactly if it was before or its message got through.
pub proof fn law_shutdown_all_reaches_each(
    pre: SupervisorView,
    keys: Seq<ActorId>,
    outcomes: Seq<Sent>,
    post: SupervisorView,
    i: int,
)
    requires
        lists_registered(pre, keys),
        shut_down_each(pre, keys, outcomes, post),
        0 <= i < keys.len(),
    ensures
        post.outbox.len() == pre.outbox.len() + pre.handles.dom().len(),
        post.outbox[pre.outbox.len() + i].channel == pre.handles[keys[i]],
        post.outbox[pre.outbox.len() + i].message == SupervisorMessage::Shutdown,
        post.outbox[pre.outbox.len() + i].sent == outcomes[i],
        post.ids.contains(keys[i]) <==> pre.ids.contains(keys[i]) || outcomes[i] is Ok,
{
    keys.unique_seq_to_set();
    if post.ids.contains(keys[i]) && !pre.ids.contains(keys[i]) {
        let k = choose|k: int|
            0 <= k < keys.len() && #[trigger] keys[k] == keys[i] && outcomes[k] is Ok;
        assert(k == i);
    }
}

/// Once all actors are shut down and every message got through, no identifier is in use.
pub proof fn law_shutdown_all_frees_all(
    pre: SupervisorView,
    keys: Seq<ActorId>,
    outcomes: Seq<Sent>,
    post: SupervisorView,
)
    requires
        lists_registered(pre, keys),
        shut_down_each(pre, keys, outcomes, post),
        forall|i: int| 0 <= i < outcomes.len() ==> #[trigger] outcomes[i] is Ok,
    ensures
        post.live().is_empty(),
{
    assert forall|id: ActorId| !post.live().contains(id) by {
        if post.handles.contains_key(id) {
            assert(keys.to_set().contains(id));
            let i = choose|i: int| 0 <= i < keys.len() && #[trigger] keys[i] == id;
            assert(outcomes[i] is Ok);
        }
    }
}

/// Only setups and shutdowns change who is registered and which identifiers are free.
pub proof fn law_inspection_changes_nothing(
    pre: SupervisorView,
    action: SupervisorAction,
    post: SupervisorView,
    response: Response,
)
    requires
        processed(pre, action, post, response),
        action !is NewActorSetup,
        action !is Shutdown,
        action !is ShutdownAll,
    ensures
        post.handles == pre.handles,
        post.ids == pre.ids,
{
}

/// What was sent is never taken back.
pub proof fn law_sent_for_good(
    pre: SupervisorView,
    action: SupervisorAction,
    post: SupervisorView,
    response: Response,
)
    requires
        processed(pre, action, post, response),
    ensures
        pre.outbox.is_prefix_of(post.outbox),
{
}

/// Processing an action about one actor sends one message, on that actor's line and nowhere else, or
/// nothing if the actor is not registered.
pub proof fn law_only_the_addressed_actor(
    pre: SupervisorView,
    action: SupervisorAction,
    post: SupervisorView,
    response: Response,
    id: ActorId,
)
    requires
        processed(pre, action, post, response),
        addressed(action) == Some(id),
    ensures
        pre.handles.contains_key(id) ==> post.outbox == pre.outbox.push(post.outbox.last())
            && post.outbox.last().channel == pre.handles[id],
        !pre.handles.contains_key(id) ==> post.outbox == pre.outbox,
{
    if pre.handles.contains_key(id) {
        assert(post.outbox =~= pre.outbox.push(post.outbox.last()));
    }
}

/// Listing the actors sends nothing, and a setup sends nothing but the greeting on the new line.
pub proof fn law_quiet_actions(
    pre: SupervisorView,
    action: SupervisorAction,
    post: SupervisorView,
    response: Response,
)
    requires
        processed(pre, action, post, response),
    ensures
        action is GetCurrentIds ==> post.outbox == pre.outbox,
        response matches Response::Setup { result: Ok((line, _, id)), .. } ==> post.outbox
            == pre.outbox.push(post.outbox.last()) && post.outbox.last().channel == line
            && post.outbox.last().message == (SupervisorMessage::SetId { id }),
        response matches Response::Setup { result: Err(_), .. } ==> post == pre,
{
    if let Response::Setup { result: Ok(_), .. } = response {
        assert(post.outbox =~= pre.outbox.push(post.outbox.last()));
    }
}

/// Every registered actor was told its identifier, at every point of a supervisor's history.
pub proof fn law_always_greeted(history: History, i: int)
    requires
        history.valid(),
        0 <= i <= history.steps.len(),
    ensures
        greeted(history.views[i]),
    decreases i,
{
    if i > 0 {
        law_always_greeted(history, i - 1);
        assert(history.step(i - 1));
        let pre = history.views[i - 1];
        let post = history.views[i];
        match history.steps[i - 1] {
            Step::Process { action, response } => law_sent_for_good(pre, action, post, response),
            Step::Resume { before, reported, after } => law_resuming(
                pre,
                before,
                reported,
                post,
                after,
            ),
        }
        assert forall|id: ActorId| #[trigger] post.handles.contains_key(id) implies exists|k: int|
            greeting(post, k, id) by {
            if history.set_up_at(i - 1, id) {
                assert(greeting(post, post.outbox.len() - 1, id));
            } else {
                assert(pre.handles.contains_key(id));
                let k = choose|k: int| greeting(pre, k, id);
                assert(post.outbox[k] == pre.outbox[k]);
                assert(greeting(post, k, id));
            }
        }
    }
}

/// A registered actor that is to be started is first asked for its state. If it reports one other
/// than the stopped state, that question is all that it is sent, and the answer is success.
pub proof fn law_start_leaves_running_actors_alone(
    pre: SupervisorView,
    id: ActorId,
    reply: SupervisorActionReply<()>,
    mid: SupervisorView,
    response: Response,
    reported: Reported,
    post: SupervisorView,
    after: Response,
)
    requires
        pre.handles.contains_key(id),
        processed(pre, SupervisorAction::Start { id, reply }, mid, response),
        response is AwaitStart,
        reported matches Ok(state) && state != ActorState::Stopped,
        resumed(mid, response, reported, post, after),
    ensures
        post.handles == pre.handles,
        post.ids == pre.ids,
        post.outbox == pre.outbox.push(post.outbox.last()),
        post.outbox.last().channel == pre.handles[id],
        post.outbox.last().message is State,
        after == (Response::Done { reply, result: Ok(()) }),
{
    assert(post.outbox =~= pre.outbox.push(post.outbox.last()));
}

/// A registered actor that is to be started and does not report a state other than the stopped one
/// is sent a start after the question for its state, and the answer says whether that got through.
pub proof fn law_start_reaches_stopped_actors(
    pre: SupervisorView,
    id: ActorId,
    reply: SupervisorActionReply<()>,
    mid: SupervisorView,
    response: Response,
    reported: Reported,
    post: SupervisorView,
    after: Response,
)
    requires
        pre.handles.contains_key(id),
        processed(pre, SupervisorAction::Start { id, reply }, mid, response),
        response is AwaitStart,
        !(reported matches Ok(state) && state != ActorState::Stopped),
        resumed(mid, response, reported, post, after),
    ensures
        post.handles == pre.handles,
        post.ids == pre.ids,
        post.outbox == mid.outbox.push(post.outbox.last()),
        post.outbox.last().channel == pre.handles[id],
        post.outbox.last().message == SupervisorMessage::Start,
        after matches Response::Done { reply: to, result } && to == reply && send_reported(
            post.outbox.last().sent,
            result,
        ),
{
    assert(post.outbox =~= mid.outbox.push(post.outbox.last()));
}

/// An action about an actor that is not registered changes nothing. Shutting the actor down,
/// stopping or starting it is no error; asking for its state or its heartbeat is.
pub proof fn law_unknown_actor(
    pre: SupervisorView,
    action: SupervisorAction,
    post: SupervisorView,
    response: Response,
    id: ActorId,
)
    requires
        processed(pre, action, post, response),
        addressed(action) == Some(id),
        !pre.handles.contains_key(id),
    ensures
        post == pre,
        action is Shutdown || action is Suspend || action is Start ==> (
        response matches Response::Done { result: Ok(()), .. }),
        action is State ==> (response matches Response::State {
            result: Err(ActorError::SystemError(_)),
            ..
        }),
        action is Heartbeat ==> (response matches Response::Done {
            result: Err(ActorError::SystemError(_)),
            ..
        }),
{
}

/// The caller who asks for the state of an actor that is not registered reads why there is none.
pub proof fn law_unknown_actor_reported(
    pre: SupervisorView,
    action: SupervisorAction,
    post: SupervisorView,
    response: Response,
    answer: SupervisorResult<ActorState>,
    result: HandleResult<ActorState>,
)
    requires
        processed(pre, action, post, response),
        action matches SupervisorAction::State { id, .. } && !pre.handles.contains_key(id),
        response matches Response::State { result: given, .. } && given == answer,
        concluded(Ok(answer), result),
    ensures
        result matches Err(error) && error.text() == "System error "@ + "No such actor ID"@,
{
}

/// The caller who asks for a setup when no identifier is free reads that there are too many actors.
pub proof fn law_full_reported(
    pre: SupervisorView,
    action: SupervisorAction,
    post: SupervisorView,
    response: Response,
    answer: SupervisorResult<Supervisee>,
    result: HandleResult<Supervisee>,
)
    requires
        processed(pre, action, post, response),
        action is NewActorSetup,
        pre.ids.is_empty(),
        response matches Response::Setup { result: given, .. } && given == answer,
        concluded(Ok(answer), result),
    ensures
        result matches Err(error) && error.text() == "System error "@ + "too many actors"@,
{
}

/// Every action is answered on the channel that came with it, after a wait as well, and one wait is
/// all that an action takes.
pub proof fn law_answered_on_own_reply(
    pre: SupervisorView,
    action: SupervisorAction,
    mid: SupervisorView,
    response: Response,
    late: SupervisorView,
    reported: Reported,
    post: SupervisorView,
    after: Response,
)
    requires
        processed(pre, action, mid, response),
        resumed(late, response, reported, post, after),
    ensures
        on_own_reply(action, response),
        on_own_reply(action, after),
        after.waits_on() is None,
{
}

/// The end of a channel on which `action` is answered, if the answer carries no value.
pub open spec fn reply_of(action: SupervisorAction) -> Option<SupervisorActionReply<()>> {
    match action {
        SupervisorAction::ShutdownAll { reply } => Some(reply),
        SupervisorAction::Shutdown { reply, .. } => Some(reply),
        SupervisorAction::Suspend { reply, .. } => Some(reply),
        SupervisorAction::Start { reply, .. } => Some(reply),
        SupervisorAction::Heartbeat { reply, .. } => Some(reply),
        _ => None,
    }
}

/// Whether what is sent on `to` arrives where `request` waits for its answer: the two are the ends
/// of one channel with room for one answer.
pub open spec fn arrives<R>(to: Reply<R>, request: Request<R>) -> bool {
    call_ensures(flume::bounded::<R>, (1usize,), (to, request.answer))
}

/// An answer without a value arrives where the request waits for it, after a wait for an actor as
/// well.
pub proof fn law_answer_reaches_request(
    request: Request<SupervisorResult<()>>,
    channel: flume::Sender<SupervisorAction>,
    reply: SupervisorActionReply<()>,
    action: SupervisorAction,
    pre: SupervisorView,
    mid: SupervisorView,
    response: Response,
    late: SupervisorView,
    reported: Reported,
    post: SupervisorView,
    after: Response,
)
    requires
        asks(request, channel, reply, action),
        reply_of(action) == Some(reply),
        processed(pre, action, mid, response),
        resumed(late, response, reported, post, after),
    ensures
        response.waits_on() is None ==> (response matches Response::Done { reply: to, .. }
            && arrives(to, request)),
        after matches Response::Done { reply: to, .. } && arrives(to, request),
{
}

/// What a setup yields arrives where the request waits for it.
pub proof fn law_setup_reaches_request(
    request: Request<SupervisorResult<Supervisee>>,
    channel: flume::Sender<SupervisorAction>,
    reply: SupervisorActionReply<Supervisee>,
    pre: SupervisorView,
    post: SupervisorView,
    response: Response,
)
    requires
        asks(request, channel, reply, SupervisorAction::NewActorSetup { reply }),
        processed(pre, SupervisorAction::NewActorSetup { reply }, post, response),
    ensures
        response matches Response::Setup { reply: to, .. } && arrives(to, request),
{
}

/// The list of identifiers arrives where the request waits for it.
pub proof fn law_ids_reach_request(
    request: Request<Vec<ActorId>>,
    channel: flume::Sender<SupervisorAction>,
    reply: Reply<Vec<ActorId>>,
    pre: SupervisorView,
    post: SupervisorView,
    response: Response,
)
    requires
        asks(request, channel, reply, SupervisorAction::GetCurrentIds { reply }),
        processed(pre, SupervisorAction::GetCurrentIds { reply }, post, response),
    ensures
        response matches Response::Ids { reply: to, .. } && arrives(to, request),
{
}

/// The state of an actor, or why there is none, arrives where the request waits for it.
pub proof fn law_state_reaches_request(
    request: Request<SupervisorResult<ActorState>>,
    channel: flume::Sender<SupervisorAction>,
    reply: SupervisorActionReply<ActorState>,
    id: ActorId,
    pre: SupervisorView,
    mid: SupervisorView,
    response: Response,
    late: SupervisorView,
    reported: Reported,
    post: SupervisorView,
    after: Response,
)
    requires
        asks(request, channel, reply, SupervisorAction::State { id, reply }),
        processed(pre, SupervisorAction::State { id, reply }, mid, response),
        resumed(late, response, reported, post, after),
    ensures
        response.waits_on() is None ==> (response matches Response::State { reply: to, .. }
            && arrives(to, request)),
        after matches Response::State { reply: to, .. } && arrives(to, request),
{
}

/// An actor has a heartbeat exactly if it reports a state, whichever state that is.
pub proof fn law_heartbeat_is_a_state(
    view: SupervisorView,
    asked: Response,
    checked: Response,
    reported: Reported,
    answer: Response,
    pulse: Response,
)
    requires
        asked is AwaitState,
        checked is AwaitHeartbeat,
        resumed(view, asked, reported, view, answer),
        resumed(view, checked, reported, view, pulse),
    ensures
        (answer matches Response::State { result: Ok(_), .. }) <==> reported is Ok,
        (pulse matches Response::Done { result: Ok(_), .. }) <==> reported is Ok,
{
}

/// An error that is passed on reads the same, unless it carried a message that was not sent.
pub proof fn law_relayed_text<T, U>(from: ActorError<T>, to: ActorError<U>)
    requires
        relayed(from, to),
        from !is SendError,
    ensures
        to.text() == from.text(),
{
}

/// A handle sends on the channel that it was built on, whichever receiver its actor was built on.
pub proof fn law_handle_sends_on_its_channel<
    T: Event + Send + Sync,
    S: ChannelTx<T> + Send + Sync,
    R: ChannelRx<T> + Send + Sync,
>(
    sender: S,
    handle: ActorHandle<T, S, R>,
    event: T,
    result: <S as ChannelTx<T>>::Result,
)
    requires
        handle.sender() == sender,
        call_ensures(<ActorHandle<T, S, R> as Handle<T>>::send, (&handle, event), result),
    ensures
        call_ensures(S::send_event, (&sender, event), result),
{
}

/// Sending without a priority is sending with the default one.
pub proof fn law_default_priority<E: Event + Send>(
    channel: PriorityTx<E>,
    event: E,
    plain: PriorityDelivery<E>,
    with_default: PriorityDelivery<E>,
)
    requires
        call_ensures(<PriorityTx<E> as ChannelTx<E>>::send_event, (&channel, event), plain),
        call_ensures(
            <PriorityTx<E> as PriorityChannelTx<E>>::send_with_priority,
            (&channel, event, PriorityEvent::Low),
            with_default,
        ),
    ensures
        plain == with_default,
{
}

/// The pass after its checks came out as `alive` says, one after the other.
pub open spec fn after_checks(pass: PassView, alive: Seq<bool>) -> PassView
    decreases alive.len(),
{
    if alive.len() == 0 {
        pass
    } else {
        after_checks(pass, alive.drop_last()).after_check(alive.last())
    }
}

/// Of the first actors in `ids`, one for each outcome, those whose check failed.
pub open spec fn failed(ids: Seq<ActorId>, alive: Seq<bool>) -> Seq<ActorId>
    decreases alive.len(),
{
    if alive.len() == 0 {
        Seq::empty()
    } else if alive.last() {
        failed(ids, alive.drop_last())
    } else {
        failed(ids, alive.drop_last()).push(ids[alive.len() - 1])
    }
}

/// A pass checks the listed actors in order, each once, and runs the recovery for those whose check
/// failed and for no others, in the same order.
pub proof fn law_pass_recovers_failed(pass: PassView, alive: Seq<bool>)
    requires
        pass.next == 0,
        pass.recovered == Seq::<ActorId>::empty(),
        alive.len() <= pass.ids.len(),
    ensures
        after_checks(pass, alive).ids == pass.ids,
        after_checks(pass, alive).next == alive.len(),
        after_checks(pass, alive).recovered == failed(pass.ids, alive),
    decreases alive.len(),
{
    if alive.len() > 0 {
        law_pass_recovers_failed(pass, alive.drop_last());
    }
}

/// However the checks of a pass come out, the recovery runs as often as a check fails.
pub proof fn law_recoveries_count_failures(pass: PassView, alive: Seq<bool>)
    ensures
        after_checks(pass, alive).recovered.len() == pass.recovered.len() + alive.filter(
            |ok: bool| !ok,
        ).len(),
    decreases alive.len(),
{
    reveal(Seq::filter);
    if alive.len() > 0 {
        law_recoveries_count_failures(pass, alive.drop_last());
    }
}

/// Whether an actor was recovered is decided by its own check alone.
pub proof fn law_recovered_iff_failed(ids: Seq<ActorId>, alive: Seq<bool>, i: int)
    requires
        alive.len() <= ids.len(),
        ids.no_duplicates(),
        0 <= i < alive.len(),
    ensures
        failed(ids, alive).contains(ids[i]) <==> !alive[i],
    decreases alive.len(),
{
    let rest = alive.drop_last();
    let before = failed(ids, rest);
    lemma_failed_are_listed(ids, rest);
    if i < alive.len() - 1 {
        law_recovered_iff_failed(ids, rest, i);
        if !alive.last() {
            let last = ids[alive.len() - 1];
            assert(ids[i] != last);
            if before.contains(ids[i]) {
                let k = choose|k: int| 0 <= k < before.len() && before[k] == ids[i];
                assert(before.push(last)[k] == ids[i]);
            }
        }
    } else if !alive.last() {
        assert(before.push(ids[i])[before.len() as int] == ids[i]);
    }
}

proof fn lemma_failed_are_listed(ids: Seq<ActorId>, alive: Seq<bool>)
    requires
        alive.len() <= ids.len(),
    ensures
        forall|id: ActorId| #[trigger]
            failed(ids, alive).contains(id) ==> exists|k: int|
                0 <= k < alive.len() && #[trigger] ids[k] == id,
    decreases alive.len(),
{
    if alive.len() > 0 {
        lemma_failed_are_listed(ids, alive.drop_last());
        assert forall|id: ActorId| #[trigger] failed(ids, alive).contains(id) implies exists|k: int|
            0 <= k < alive.len() && #[trigger] ids[k] == id by {
            let before = failed(ids, alive.drop_last());
            if before.contains(id) {
                let k = choose|k: int| 0 <= k < alive.len() - 1 && #[trigger] ids[k] == id;
                assert(ids[k] == id);
            } else {
                assert(ids[alive.len() - 1] == id);
            }
        }
    }
}

} // verus!
