//! The supervisor: which actors are registered, which identifiers are free, and what is sent to
//! whom.
//!
//! A supervisor keeps one line to each actor it supervises, an unbounded channel that it opened
//! itself. Handing a message to such a line never waits, so the supervisor does it directly. What
//! does wait, an action that is yet to arrive or an actor that is yet to report its state, is left
//! to the runtime: [`Supervisor::process`] says what to answer or what to wait for, and
//! [`Supervisor::resume`] takes it from there.
use crate::actor::{Actor, ActorState, Event};
use crate::channel::{posted, Outbox, Posting};
use crate::error::{recv_error_display, send_error_debug, ActorError};
use crate::supervisor_handle::HEARTBEAT_SECONDS;
use crate::ActorId;
use std::collections::{HashMap, HashSet};
use vstd::prelude::*;
use vstd::string::*;

verus! {

broadcast use vstd::std_specs::hash::group_hash_axioms;

/// The end of a channel on which an answer is given.
pub type Reply<T> = flume::Sender<T>;

/// What the supervisor answers. Its errors are those of sending a [`SupervisorMessage`].
pub type SupervisorResult<T> = Result<T, ActorError<SupervisorMessage>>;

/// The end of a channel on which the supervisor answers an action.
pub type SupervisorActionReply<T> = Reply<SupervisorResult<T>>;

/// What a new actor is set up with: its line, the inbox at the other end, and its identifier.
pub type Supervisee = (flume::Sender<SupervisorMessage>, flume::Receiver<SupervisorMessage>, ActorId);

/// What came back from handing a message to an actor's line.
pub type Sent = Result<(), flume::SendError<SupervisorMessage>>;

/// What came back from waiting for the next action.
pub type Received = Result<SupervisorAction, flume::RecvError>;

/// What came back from waiting for an actor to report its state.
pub type Reported = Result<ActorState, flume::RecvError>;

/// Messages from the supervisor to supervised actors, sent directly or through their handles.
#[allow(inconsistent_fields)]
#[derive(Clone, Debug)]
pub enum SupervisorMessage {
    SetId { id: ActorId },
    Id { reply: Reply<ActorId> },
    Start,
    Stop,
    Shutdown,
    State { reply: Reply<ActorState> },
}

/// Requests to the supervisor, made through a handle while it runs as an actor itself. These are
/// distinct from [`SupervisorMessage`], which goes from the supervisor to its actors.
#[allow(inconsistent_fields)]
#[derive(Clone, Debug)]
pub enum SupervisorAction {
    /// Shuts down all registered actors.
    ShutdownAll { reply: SupervisorActionReply<()> },
    /// Shuts down one actor.
    Shutdown { id: ActorId, reply: SupervisorActionReply<()> },
    /// Sets up the line and the identifier of a new actor.
    NewActorSetup { reply: SupervisorActionReply<Supervisee> },
    /// Lists the identifiers of all registered actors.
    GetCurrentIds { reply: Reply<Vec<ActorId>> },
    /// Asks one actor for its state.
    State { id: ActorId, reply: SupervisorActionReply<ActorState> },
    /// Checks that one actor still reports its state.
    Heartbeat { id: ActorId, reply: SupervisorActionReply<()> },
    /// Stops one actor from processing events.
    Suspend { id: ActorId, reply: SupervisorActionReply<()> },
    /// Starts or restarts one stopped actor. Does nothing if the actor is not in the stopped state.
    Start { id: ActorId, reply: SupervisorActionReply<()> },
}

impl Event for SupervisorAction {
}

/// What the runtime has to do about an action that was processed.
#[allow(inconsistent_fields)]
pub enum Response {
    /// Answer a setup.
    Setup { reply: SupervisorActionReply<Supervisee>, result: SupervisorResult<Supervisee> },
    /// Answer a request that yields no value.
    Done { reply: SupervisorActionReply<()>, result: SupervisorResult<()> },
    /// Answer with the registered identifiers.
    Ids { reply: Reply<Vec<ActorId>>, ids: Vec<ActorId> },
    /// Answer a question for an actor's state.
    State { reply: SupervisorActionReply<ActorState>, result: SupervisorResult<ActorState> },
    /// Wait on `answer` for the actor's state, then resume.
    AwaitState { reply: SupervisorActionReply<ActorState>, answer: flume::Receiver<ActorState> },
    /// Wait on `answer` for the actor's state as a sign of life, then resume.
    AwaitHeartbeat { reply: SupervisorActionReply<()>, answer: flume::Receiver<ActorState> },
    /// Wait on `answer` for the state of the actor that is to be started, then resume.
    AwaitStart {
        id: ActorId,
        reply: SupervisorActionReply<()>,
        answer: flume::Receiver<ActorState>,
    },
}

/// The supervisor as its contracts see it.
#[verifier::ext_equal]
pub struct SupervisorView {
    /// The line to each registered actor.
    pub handles: Map<ActorId, flume::Sender<SupervisorMessage>>,
    /// The identifiers that a new actor may get.
    pub ids: Set<ActorId>,
    /// The lines that were opened so far. Nothing is sent on any other.
    pub lines: Set<flume::Sender<SupervisorMessage>>,
    /// All that was sent to actors so far, in order.
    pub outbox: Seq<Posting<SupervisorMessage>>,
}

impl SupervisorView {
    /// Every actor is registered under a line that the supervisor opened, and the identifiers below
    /// the largest are all either free or registered. One that was shut down is both.
    pub open spec fn wf(self) -> bool {
        &&& forall|id: ActorId| #[trigger]
            self.handles.contains_key(id) ==> self.lines.contains(self.handles[id])
        &&& forall|id: ActorId|
            #![trigger self.ids.contains(id)]
            #![trigger self.handles.contains_key(id)]
            (self.ids.contains(id) || self.handles.contains_key(id)) <==> id < ActorId::MAX
    }

    /// The identifiers in use: registered, and not given back by a shutdown.
    pub open spec fn live(self) -> Set<ActorId> {
        self.handles.dom().difference(self.ids)
    }

    /// The supervisor once `message` was sent on `line` and `sent` came back.
    pub open spec fn after_posting(
        self,
        line: flume::Sender<SupervisorMessage>,
        message: SupervisorMessage,
        sent: Sent,
    ) -> SupervisorView {
        SupervisorView {
            outbox: self.outbox.push(Posting { channel: line, message, sent }),
            ..self
        }
    }

    /// The supervisor once a shutdown of `id` came back with `sent`: the identifier is free again
    /// if the message got through, and nothing changes if it did not.
    pub open spec fn settled(self, id: ActorId, sent: Sent) -> SupervisorView {
        if sent is Ok {
            SupervisorView { ids: self.ids.insert(id), ..self }
        } else {
            self
        }
    }
}

/// A supervisor stays well-formed if the same identifiers are free or registered as before and every
/// actor is registered under a line that is open.
pub proof fn lemma_wf_kept(pre: SupervisorView, post: SupervisorView)
    requires
        pre.wf(),
        post.ids.union(post.handles.dom()) =~= pre.ids.union(pre.handles.dom()),
        forall|id: ActorId| #[trigger]
            post.handles.contains_key(id) ==> post.lines.contains(post.handles[id]),
    ensures
        post.wf(),
{
    assert forall|id: ActorId|
        #![trigger post.ids.contains(id)]
        #![trigger post.handles.contains_key(id)]
        (post.ids.contains(id) || post.handles.contains_key(id)) <==> id < ActorId::MAX by {
        assert(post.ids.union(post.handles.dom()).contains(id) <==> pre.ids.union(
            pre.handles.dom(),
        ).contains(id));
        assert((pre.ids.contains(id) || pre.handles.contains_key(id)) <==> id < ActorId::MAX);
    }
}

/// How a supervisor starts: no actor is registered, all identifiers but the largest are free, no
/// line is open and nothing was sent.
pub open spec fn initial(view: SupervisorView) -> bool {
    &&& view.handles == Map::<ActorId, flume::Sender<SupervisorMessage>>::empty()
    &&& forall|id: ActorId| #[trigger] view.ids.contains(id) <==> id < ActorId::MAX
    &&& view.lines == Set::<flume::Sender<SupervisorMessage>>::empty()
    &&& view.outbox == Seq::<Posting<SupervisorMessage>>::empty()
}

/// A setup fails if no identifier is free. Otherwise it takes a free one, registers a new line
/// under it and greets the actor on that line with its identifier.
pub open spec fn set_up(
    pre: SupervisorView,
    post: SupervisorView,
    result: SupervisorResult<Supervisee>,
) -> bool {
    if pre.ids.is_empty() {
        &&& result matches Err(ActorError::SystemError(text))
        &&& text@ == "too many actors"@
        &&& post == pre
    } else {
        &&& result matches Ok((line, inbox, id))
        &&& call_ensures(flume::unbounded::<SupervisorMessage>, (), (line, inbox))
        &&& pre.ids.contains(id)
        &&& exists|sent: Sent| #[trigger]
            posted(line, SupervisorMessage::SetId { id }, sent) && post == (SupervisorView {
                handles: pre.handles.insert(id, line),
                ids: pre.ids.remove(id),
                lines: pre.lines.insert(line),
                ..pre.after_posting(line, SupervisorMessage::SetId { id }, sent)
            })
    }
}

/// How a send is answered: with success, or with the text of the refusal.
pub open spec fn send_reported(sent: Sent, result: SupervisorResult<()>) -> bool {
    match sent {
        Ok(()) => result == Ok::<(), ActorError<SupervisorMessage>>(()),
        Err(_) => {
            &&& result matches Err(ActorError::ActorError(text))
            &&& text@ == "Send error "@ + "\"SendError(..)\""@
        },
    }
}

/// `message` is sent to `id` and the send is reported. Nothing is sent if the actor is not
/// registered, and that is no error.
pub open spec fn messaged(
    pre: SupervisorView,
    id: ActorId,
    message: SupervisorMessage,
    post: SupervisorView,
    result: SupervisorResult<()>,
) -> bool {
    if pre.handles.contains_key(id) {
        let line = pre.handles[id];
        exists|sent: Sent| #[trigger]
            posted(line, message, sent) && post == pre.after_posting(line, message, sent)
                && send_reported(sent, result)
    } else {
        &&& post == pre
        &&& result == Ok::<(), ActorError<SupervisorMessage>>(())
    }
}

/// As [`messaged`] with a shutdown, and the identifier is free again if the message got through.
pub open spec fn shut_down(
    pre: SupervisorView,
    id: ActorId,
    post: SupervisorView,
    result: SupervisorResult<()>,
) -> bool {
    if pre.handles.contains_key(id) {
        let line = pre.handles[id];
        exists|sent: Sent| #[trigger]
            posted(line, SupervisorMessage::Shutdown, sent) && post == pre.after_posting(
                line,
                SupervisorMessage::Shutdown,
                sent,
            ).settled(id, sent) && send_reported(sent, result)
    } else {
        &&& post == pre
        &&& result == Ok::<(), ActorError<SupervisorMessage>>(())
    }
}

/// The actors in `keys` are sent a shutdown each, in order and with these outcomes, and those
/// identifiers are free again whose message got through.
pub open spec fn shut_down_each(
    pre: SupervisorView,
    keys: Seq<ActorId>,
    outcomes: Seq<Sent>,
    post: SupervisorView,
) -> bool {
    &&& keys.len() == outcomes.len()
    &&& forall|i: int|
        0 <= i < keys.len() ==> posted(
            pre.handles[#[trigger] keys[i]],
            SupervisorMessage::Shutdown,
            outcomes[i],
        )
    &&& post.outbox == pre.outbox + Seq::new(
        keys.len(),
        |i: int|
            Posting {
                channel: pre.handles[keys[i]],
                message: SupervisorMessage::Shutdown,
                sent: outcomes[i],
            },
    )
    &&& post.handles == pre.handles
    &&& post.lines == pre.lines
    &&& forall|id: ActorId| #[trigger]
        post.ids.contains(id) <==> pre.ids.contains(id) || exists|i: int|
            0 <= i < keys.len() && #[trigger] keys[i] == id && outcomes[i] is Ok
}

/// Whether `keys` lists the identifiers of all registered actors, each once.
pub open spec fn lists_registered(view: SupervisorView, keys: Seq<ActorId>) -> bool {
    &&& keys.no_duplicates()
    &&& keys.to_set() == view.handles.dom()
}

/// Each registered actor is sent a shutdown, in some order.
pub open spec fn all_shut_down(pre: SupervisorView, post: SupervisorView) -> bool {
    exists|keys: Seq<ActorId>, outcomes: Seq<Sent>|
        lists_registered(pre, keys) && #[trigger] shut_down_each(pre, keys, outcomes, post)
}

/// A registered actor is asked for its state, with an answer channel of its own for one answer;
/// what comes back is where to wait, or the refusal of the send. An actor that is not registered
/// is an error, and nothing is sent.
pub open spec fn state_asked(
    pre: SupervisorView,
    id: ActorId,
    post: SupervisorView,
    result: SupervisorResult<flume::Receiver<ActorState>>,
) -> bool {
    if pre.handles.contains_key(id) {
        let line = pre.handles[id];
        exists|reply: Reply<ActorState>, answer: flume::Receiver<ActorState>, sent: Sent|
            {
                &&& #[trigger] call_ensures(flume::bounded::<ActorState>, (1usize,), (reply, answer))
                &&& #[trigger] posted(line, SupervisorMessage::State { reply }, sent)
                &&& post == pre.after_posting(line, SupervisorMessage::State { reply }, sent)
                &&& match sent {
                    Ok(()) => result == Ok::<
                        flume::Receiver<ActorState>,
                        ActorError<SupervisorMessage>,
                    >(answer),
                    Err(_) => {
                        &&& result matches Err(e)
                        &&& send_reported(sent, Err(e))
                    },
                }
            }
    } else {
        &&& result matches Err(ActorError::SystemError(text))
        &&& text@ == "No such actor ID"@
        &&& post == pre
    }
}

/// How the wait for a state is answered: with the state, or with the text of what ended the wait.
pub open spec fn state_reported(reported: Reported, result: SupervisorResult<ActorState>) -> bool {
    match reported {
        Ok(state) => result == Ok::<ActorState, ActorError<SupervisorMessage>>(state),
        Err(_) => {
            &&& result matches Err(ActorError::ActorError(text))
            &&& text@ == "Send cancelled "@ + "receiving on a closed channel"@
        },
    }
}

/// A sign of life is a state, whichever it is; without one the error is passed on.
pub open spec fn pulse(state: SupervisorResult<ActorState>) -> SupervisorResult<()> {
    match state {
        Ok(_) => Ok(()),
        Err(e) => Err(e),
    }
}

/// Whether an actor reported a state other than the stopped one.
pub open spec fn not_stopped(reported: Reported) -> bool {
    reported matches Ok(state) && state != ActorState::Stopped
}

/// An actor that is to be started was asked for its state, and `reported` came back. One that is
/// not in the stopped state is left alone. Any other is sent a start, also if it did not report.
pub open spec fn started(
    pre: SupervisorView,
    id: ActorId,
    reported: Reported,
    post: SupervisorView,
    result: SupervisorResult<()>,
) -> bool {
    if not_stopped(reported) {
        &&& post == pre
        &&& result == Ok::<(), ActorError<SupervisorMessage>>(())
    } else {
        messaged(pre, id, SupervisorMessage::Start, post, result)
    }
}

/// What processing an action does and yields.
pub open spec fn processed(
    pre: SupervisorView,
    action: SupervisorAction,
    post: SupervisorView,
    response: Response,
) -> bool {
    match action {
        SupervisorAction::NewActorSetup { reply } => {
            &&& response matches Response::Setup { reply: to, result }
            &&& to == reply
            &&& set_up(pre, post, result)
        },
        SupervisorAction::ShutdownAll { reply } => {
            &&& response == (Response::Done { reply, result: Ok(()) })
            &&& all_shut_down(pre, post)
        },
        SupervisorAction::Shutdown { id, reply } => {
            &&& response matches Response::Done { reply: to, result }
            &&& to == reply
            &&& shut_down(pre, id, post, result)
        },
        SupervisorAction::Suspend { id, reply } => {
            &&& response matches Response::Done { reply: to, result }
            &&& to == reply
            &&& messaged(pre, id, SupervisorMessage::Stop, post, result)
        },
        SupervisorAction::Start { id, reply } => if pre.handles.contains_key(id) {
            match response {
                Response::AwaitStart { id: whom, reply: to, answer } => {
                    &&& whom == id
                    &&& to == reply
                    &&& state_asked(pre, id, post, Ok(answer))
                },
                Response::Done { reply: to, result: Err(e) } => {
                    &&& to == reply
                    &&& state_asked(pre, id, post, Err(e))
                },
                _ => false,
            }
        } else {
            &&& response == (Response::Done { reply, result: Ok(()) })
            &&& post == pre
        },
        SupervisorAction::GetCurrentIds { reply } => {
            &&& response matches Response::Ids { reply: to, ids }
            &&& to == reply
            &&& post == pre
            &&& lists_registered(pre, ids@)
        },
        SupervisorAction::State { id, reply } => match response {
            Response::AwaitState { reply: to, answer } => {
                &&& to == reply
                &&& state_asked(pre, id, post, Ok(answer))
            },
            Response::State { reply: to, result: Err(e) } => {
                &&& to == reply
                &&& state_asked(pre, id, post, Err(e))
            },
            _ => false,
        },
        SupervisorAction::Heartbeat { id, reply } => match response {
            Response::AwaitHeartbeat { reply: to, answer } => {
                &&& to == reply
                &&& state_asked(pre, id, post, Ok(answer))
            },
            Response::Done { reply: to, result: Err(e) } => {
                &&& to == reply
                &&& state_asked(pre, id, post, Err(e))
            },
            _ => false,
        },
    }
}

/// What resuming after the wait for a state does and yields. A response that waits for nothing
/// stays as it is.
pub open spec fn resumed(
    pre: SupervisorView,
    before: Response,
    reported: Reported,
    post: SupervisorView,
    after: Response,
) -> bool {
    match before {
        Response::AwaitState { reply, .. } => {
            &&& after matches Response::State { reply: to, result }
            &&& to == reply
            &&& state_reported(reported, result)
            &&& post == pre
        },
        Response::AwaitHeartbeat { reply, .. } => {
            &&& after matches Response::Done { reply: to, result }
            &&& to == reply
            &&& exists|state: SupervisorResult<ActorState>| #[trigger]
                state_reported(reported, state) && result == pulse(state)
            &&& post == pre
        },
        Response::AwaitStart { id, reply, .. } => {
            &&& after matches Response::Done { reply: to, result }
            &&& to == reply
            &&& started(pre, id, reported, post, result)
        },
        _ => {
            &&& after == before
            &&& post == pre
        },
    }
}

/// Reports what handing a message to a line came back with.
pub fn report_send(sent: Sent) -> (result: SupervisorResult<()>)
    ensures
        send_reported(sent, result),
{
    match sent {
        Ok(()) => Ok(()),
        Err(e) => Err(
            ActorError::ActorError("Send error ".to_owned().concat(send_error_debug(&e).as_str())),
        ),
    }
}

/// Reports what the wait for an actor's state came back with.
pub fn report_state(reported: Reported) -> (result: SupervisorResult<ActorState>)
    ensures
        state_reported(reported, result),
{
    match reported {
        Ok(state) => Ok(state),
        Err(e) => Err(
            ActorError::ActorError(
                "Send cancelled ".to_owned().concat(recv_error_display(&e).as_str()),
            ),
        ),
    }
}

/// Reads an answer to a question for an actor's state as a heartbeat.
pub fn report_heartbeat(state: SupervisorResult<ActorState>) -> (result: SupervisorResult<()>)
    ensures
        result == pulse(state),
{
    if let Err(e) = state {
        Err(e)
    } else {
        Ok(())
    }
}

/// Finds any member of a set.
fn any_id(ids: &HashSet<ActorId>) -> (found: Option<ActorId>)
    ensures
        match found {
            Some(id) => ids@.contains(id),
            None => ids@.is_empty(),
        },
{
    for id in walk: ids.iter()
        invariant
            walk.index() == 0,
            walk.seq().unref().to_set() == ids@,
    {
        assert(walk.seq().unref()[0] == *id);
        assert(walk.seq().unref().contains(*id));
        return Some(*id);
    }
    None
}

/// Keeps a line to each supervised actor and hands out their identifiers.
pub struct Supervisor {
    /// The line to each registered actor.
    handles: HashMap<ActorId, flume::Sender<SupervisorMessage>>,
    /// The identifiers that a new actor may get.
    ids: HashSet<ActorId>,
    /// Where actions arrive while the supervisor runs as an actor.
    receiver: flume::Receiver<SupervisorAction>,
    /// Hands messages to the lines.
    outbox: Outbox<SupervisorMessage>,
}

impl View for Supervisor {
    type V = SupervisorView;

    closed spec fn view(&self) -> SupervisorView {
        SupervisorView {
            handles: self.handles@,
            ids: self.ids@,
            lines: self.outbox.lines(),
            outbox: self.outbox@,
        }
    }
}

impl Supervisor {
    /// Where actions arrive while the supervisor runs as an actor.
    pub closed spec fn inbox(&self) -> flume::Receiver<SupervisorAction> {
        self.receiver
    }

    /// A supervisor without actors.
    pub fn new(receiver: flume::Receiver<SupervisorAction>) -> (supervisor: Self)
        ensures
            initial(supervisor@),
            supervisor@.wf(),
            supervisor.inbox() == receiver,
    {
        let mut ids: HashSet<ActorId> = HashSet::new();
        for id in 0..ActorId::MAX
            invariant
                forall|i: ActorId| #[trigger] ids@.contains(i) <==> i < id,
        {
            ids.insert(id);
        }
        Supervisor { handles: HashMap::new(), ids, receiver, outbox: Outbox::new() }
    }

    /// Where actions arrive while the supervisor runs as an actor.
    pub fn receiver(&self) -> (receiver: &flume::Receiver<SupervisorAction>)
        ensures
            *receiver == self.inbox(),
    {
        &self.receiver
    }

    /// Opens a line to a new actor and gives the actor an identifier.
    pub fn new_supervisee_setup(&mut self) -> (result: SupervisorResult<Supervisee>)
        requires
            old(self)@.wf(),
        ensures
            set_up(old(self)@, final(self)@, result),
            final(self)@.wf(),
            final(self).inbox() == old(self).inbox(),
    {
        let id: ActorId = match any_id(&self.ids) {
            Some(id) => id,
            None => return Err(ActorError::SystemError("too many actors".to_owned())),
        };
        self.ids.remove(&id);
        let (tx, rx) = self.outbox.open_line();
        let _ = self.outbox.post(&tx, SupervisorMessage::SetId { id });
        self.handles.insert(id, tx.clone());
        proof {
            lemma_wf_kept(old(self)@, self@);
        }
        Ok((tx, rx, id))
    }

    /// Hands a message to the line of a registered actor.
    fn post(&mut self, id: ActorId, message: SupervisorMessage) -> (sent: Option<Sent>)
        requires
            old(self)@.wf(),
        ensures
            match sent {
                Some(sent) => {
                    &&& old(self)@.handles.contains_key(id)
                    &&& posted(old(self)@.handles[id], message, sent)
                    &&& final(self)@ == old(self)@.after_posting(
                        old(self)@.handles[id],
                        message,
                        sent,
                    )
                },
                None => {
                    &&& !old(self)@.handles.contains_key(id)
                    &&& final(self)@ == old(self)@
                },
            },
            final(self)@.wf(),
            final(self).inbox() == old(self).inbox(),
    {
        match self.handles.get(&id) {
            Some(line) => {
                assert(self@.handles.contains_key(id));
                let sent = self.outbox.post(line, message);
                proof {
                    lemma_wf_kept(old(self)@, self@);
                }
                Some(sent)
            },
            None => None,
        }
    }

    /// Settles a shutdown that was sent: frees the identifier if the message got through.
    pub fn settle_shutdown(&mut self, id: ActorId, sent: Sent) -> (result: SupervisorResult<()>)
        requires
            old(self)@.wf(),
            old(self)@.handles.contains_key(id),
        ensures
            final(self)@ == old(self)@.settled(id, sent),
            send_reported(sent, result),
            final(self)@.wf(),
            final(self).inbox() == old(self).inbox(),
    {
        let delivered = sent.is_ok();
        let result = report_send(sent);
        if delivered {
            self.ids.insert(id);
        }
        proof {
            lemma_wf_kept(old(self)@, self@);
        }
        result
    }

    /// Shuts an actor down. Its identifier is free again once the message got through.
    pub fn shutdown_actor(&mut self, id: ActorId) -> (result: SupervisorResult<()>)
        requires
            old(self)@.wf(),
        ensures
            shut_down(old(self)@, id, final(self)@, result),
            final(self)@.wf(),
            final(self).inbox() == old(self).inbox(),
    {
        match self.post(id, SupervisorMessage::Shutdown) {
            Some(sent) => self.settle_shutdown(id, sent),
            None => Ok(()),
        }
    }

    /// Stops an actor from processing events.
    pub fn stop_actor(&mut self, id: ActorId) -> (result: SupervisorResult<()>)
        requires
            old(self)@.wf(),
        ensures
            messaged(old(self)@, id, SupervisorMessage::Stop, final(self)@, result),
            final(self)@.wf(),
            final(self).inbox() == old(self).inbox(),
    {
        match self.post(id, SupervisorMessage::Stop) {
            Some(sent) => report_send(sent),
            None => Ok(()),
        }
    }

    /// Starts or restarts an actor.
    pub fn start_actor(&mut self, id: ActorId) -> (result: SupervisorResult<()>)
        requires
            old(self)@.wf(),
        ensures
            messaged(old(self)@, id, SupervisorMessage::Start, final(self)@, result),
            final(self)@.wf(),
            final(self).inbox() == old(self).inbox(),
    {
        match self.post(id, SupervisorMessage::Start) {
            Some(sent) => report_send(sent),
            None => Ok(()),
        }
    }

    /// Asks an actor for its state. The answer arrives on the receiver that is returned.
    pub fn actor_state(&mut self, id: ActorId) -> (result: SupervisorResult<
        flume::Receiver<ActorState>,
    >)
        requires
            old(self)@.wf(),
        ensures
            state_asked(old(self)@, id, final(self)@, result),
            final(self)@.wf(),
            final(self).inbox() == old(self).inbox(),
    {
        let (tx, rx) = flume::bounded(1);
        match self.post(id, SupervisorMessage::State { reply: tx }) {
            Some(sent) => match report_send(sent) {
                Ok(()) => Ok(rx),
                Err(e) => Err(e),
            },
            None => Err(ActorError::SystemError("No such actor ID".to_owned())),
        }
    }

    /// Asks an actor for a sign of life, which is to report its state.
    pub fn send_heartbeat(&mut self, id: ActorId) -> (result: SupervisorResult<
        flume::Receiver<ActorState>,
    >)
        requires
            old(self)@.wf(),
        ensures
            state_asked(old(self)@, id, final(self)@, result),
            final(self)@.wf(),
            final(self).inbox() == old(self).inbox(),
    {
        self.actor_state(id)
    }

    /// The identifiers of all registered actors, in no particular order.
    pub fn get_current_ids(&mut self) -> (ids: Vec<ActorId>)
        ensures
            lists_registered(old(self)@, ids@),
            *final(self) == *old(self),
    {
        let mut ids: Vec<ActorId> = Vec::new();
        for id in walk: self.handles.keys()
            invariant
                walk.seq().unref().to_set() == self@.handles.dom(),
                walk.seq().unref().no_duplicates(),
                ids@ == walk.seq().unref().take(walk.index()),
                walk.index() == walk.seq().len() ==> ids@ == walk.seq().unref(),
        {
            ids.push(*id);
        }
        ids
    }

    /// Shuts down every registered actor. A message that does not get through is passed over.
    pub fn shutdown_all(&mut self)
        requires
            old(self)@.wf(),
        ensures
            all_shut_down(old(self)@, final(self)@),
            final(self)@.wf(),
            final(self).inbox() == old(self).inbox(),
    {
        let keys = self.get_current_ids();
        let ghost mut outcomes: Seq<Sent> = Seq::empty();
        for i in 0..keys.len()
            invariant
                self@.wf(),
                self.inbox() == old(self).inbox(),
                keys@.to_set() == old(self)@.handles.dom(),
                shut_down_each(old(self)@, keys@.take(i as int), outcomes, self@),
        {
            let key: ActorId = keys[i];
            let ghost before = self@;
            let ghost done = keys@.take(i as int);
            let ghost earlier = outcomes;
            let _result = self.shutdown_actor(key);
            proof {
                assert(keys@.contains(key));
                assert(before.handles.contains_key(key));
                let sent = choose|sent: Sent| #[trigger]
                    posted(before.handles[key], SupervisorMessage::Shutdown, sent) && self@
                        == before.after_posting(
                        before.handles[key],
                        SupervisorMessage::Shutdown,
                        sent,
                    ).settled(key, sent) && send_reported(sent, _result);
                outcomes = outcomes.push(sent);
                lemma_shut_down_next(old(self)@, done, earlier, before, key, sent, self@);
                assert(keys@.take(i + 1) =~= done.push(key));
            }
        }
        assert(keys@.take(keys@.len() as int) =~= keys@);
        assert(shut_down_each(old(self)@, keys@, outcomes, self@));
    }

    /// Processes one action, as far as that can be done without waiting.
    pub fn process(&mut self, action: SupervisorAction) -> (response: Response)
        requires
            old(self)@.wf(),
        ensures
            processed(old(self)@, action, final(self)@, response),
            final(self)@.wf(),
            final(self).inbox() == old(self).inbox(),
    {
        match action {
            SupervisorAction::NewActorSetup { reply } => Response::Setup {
                reply,
                result: self.new_supervisee_setup(),
            },
            SupervisorAction::ShutdownAll { reply } => {
                self.shutdown_all();
                Response::Done { reply, result: Ok(()) }
            },
            SupervisorAction::Shutdown { id, reply } => Response::Done {
                reply,
                result: self.shutdown_actor(id),
            },
            SupervisorAction::State { id, reply } => match self.actor_state(id) {
                Ok(answer) => Response::AwaitState { reply, answer },
                Err(e) => Response::State { reply, result: Err(e) },
            },
            SupervisorAction::GetCurrentIds { reply } => Response::Ids {
                reply,
                ids: self.get_current_ids(),
            },
            SupervisorAction::Heartbeat { id, reply } => match self.send_heartbeat(id) {
                Ok(answer) => Response::AwaitHeartbeat { reply, answer },
                Err(e) => Response::Done { reply, result: Err(e) },
            },
            SupervisorAction::Suspend { id, reply } => Response::Done {
                reply,
                result: self.stop_actor(id),
            },
            SupervisorAction::Start { id, reply } => if self.handles.contains_key(&id) {
                match self.actor_state(id) {
                    Ok(answer) => Response::AwaitStart { id, reply, answer },
                    Err(e) => Response::Done { reply, result: Err(e) },
                }
            } else {
                Response::Done { reply, result: Ok(()) }
            },
        }
    }

    /// Starts an actor that was asked for its state, unless it is not in the stopped state.
    pub fn resume_start(&mut self, id: ActorId, reported: Reported) -> (result: SupervisorResult<()>)
        requires
            old(self)@.wf(),
        ensures
            started(old(self)@, id, reported, final(self)@, result),
            final(self)@.wf(),
            final(self).inbox() == old(self).inbox(),
    {
        match reported {
            Ok(state) if state != ActorState::Stopped => Ok(()),
            _ => self.start_actor(id),
        }
    }

    /// Continues once the wait for an actor's state is over.
    pub fn resume(&mut self, response: Response, reported: Reported) -> (after: Response)
        requires
            old(self)@.wf(),
        ensures
            resumed(old(self)@, response, reported, final(self)@, after),
            final(self)@.wf(),
            final(self).inbox() == old(self).inbox(),
    {
        match response {
            Response::AwaitState { reply, .. } => Response::State {
                reply,
                result: report_state(reported),
            },
            Response::AwaitHeartbeat { reply, .. } => {
                let state = report_state(reported);
                let ghost seen = state;
                let result = report_heartbeat(state);
                assert(state_reported(reported, seen) && result == pulse(seen));
                Response::Done { reply, result }
            },
            Response::AwaitStart { id, reply, .. } => Response::Done {
                reply,
                result: self.resume_start(id, reported),
            },
            _ => response,
        }
    }
}

/// One more actor is shut down after those in `keys`.
proof fn lemma_shut_down_next(
    pre: SupervisorView,
    keys: Seq<ActorId>,
    outcomes: Seq<Sent>,
    mid: SupervisorView,
    key: ActorId,
    sent: Sent,
    post: SupervisorView,
)
    requires
        shut_down_each(pre, keys, outcomes, mid),
        posted(pre.handles[key], SupervisorMessage::Shutdown, sent),
        post == mid.after_posting(pre.handles[key], SupervisorMessage::Shutdown, sent).settled(
            key,
            sent,
        ),
    ensures
        shut_down_each(pre, keys.push(key), outcomes.push(sent), post),
{
    let all = keys.push(key);
    let results = outcomes.push(sent);
    assert forall|i: int| 0 <= i < all.len() implies posted(
        pre.handles[#[trigger] all[i]],
        SupervisorMessage::Shutdown,
        results[i],
    ) by {
        if i < keys.len() {
            assert(all[i] == keys[i]);
        }
    }
    assert(post.outbox =~= pre.outbox + Seq::new(
        all.len(),
        |i: int|
            Posting {
                channel: pre.handles[all[i]],
                message: SupervisorMessage::Shutdown,
                sent: results[i],
            },
    ));
    assert forall|id: ActorId| #[trigger]
        post.ids.contains(id) <==> pre.ids.contains(id) || exists|i: int|
            0 <= i < all.len() && #[trigger] all[i] == id && results[i] is Ok by {
        if mid.ids.contains(id) && !pre.ids.contains(id) {
            let i = choose|i: int|
                0 <= i < keys.len() && #[trigger] keys[i] == id && outcomes[i] is Ok;
            assert(all[i] == id && results[i] is Ok);
        }
        if id == key && sent is Ok {
            assert(all[keys.len() as int] == id && results[keys.len() as int] is Ok);
        }
        if exists|i: int| 0 <= i < all.len() && #[trigger] all[i] == id && results[i] is Ok {
            let i = choose|i: int|
                0 <= i < all.len() && #[trigger] all[i] == id && results[i] is Ok;
            if i < keys.len() {
                assert(keys[i] == id && outcomes[i] is Ok);
            }
        }
    }
}

impl Response {
    /// Where the runtime has to wait for an actor's state before it resumes, if it has to.
    pub open spec fn waits_on(self) -> Option<flume::Receiver<ActorState>> {
        match self {
            Response::AwaitState { answer, .. } => Some(answer),
            Response::AwaitHeartbeat { answer, .. } => Some(answer),
            Response::AwaitStart { answer, .. } => Some(answer),
            _ => None,
        }
    }

    /// Where to wait for an actor's state before resuming, if there is to be a wait.
    pub fn awaited(&self) -> (answer: Option<&flume::Receiver<ActorState>>)
        ensures
            match answer {
                Some(answer) => self.waits_on() == Some(*answer),
                None => self.waits_on() is None,
            },
    {
        match self {
            Response::AwaitState { answer, .. } => Some(answer),
            Response::AwaitHeartbeat { answer, .. } => Some(answer),
            Response::AwaitStart { answer, .. } => Some(answer),
            _ => None,
        }
    }

    /// After how many seconds to resume as if the actor had closed the channel, if there is such a
    /// limit. A start takes no longer than a heartbeat may, since the actor may hang.
    pub fn time_limit(&self) -> (limit: Option<u64>)
        ensures
            self is AwaitStart ==> limit == Some(HEARTBEAT_SECONDS),
            self !is AwaitStart ==> limit is None,
    {
        match self {
            Response::AwaitStart { .. } => Some(HEARTBEAT_SECONDS),
            _ => None,
        }
    }
}

/// What the event loop does with what it received.
pub enum Turn {
    /// Carry the response out and receive again.
    Respond(Response),
    /// End with this result.
    Exit(Result<(), ActorError<SupervisorAction>>),
}

/// What a turn does with what was received: an action is processed, whatever comes of it, and the
/// error of a closed inbox is what the loop ends with.
pub open spec fn turned(
    pre: SupervisorView,
    received: Received,
    post: SupervisorView,
    turn: Turn,
) -> bool {
    match received {
        Ok(action) => {
            &&& turn matches Turn::Respond(response)
            &&& processed(pre, action, post, response)
        },
        Err(e) => {
            &&& turn == Turn::Exit(Err(ActorError::RecvError(e)))
            &&& post == pre
        },
    }
}

/// A supervisor that runs as an actor: it processes what its inbox yields until that is closed.
pub struct EventLoop {
    supervisor: Supervisor,
}

impl EventLoop {
    /// The supervisor that runs.
    pub closed spec fn supervisor(&self) -> Supervisor {
        self.supervisor
    }

    /// Where the next action is to be received.
    pub fn receiver(&self) -> (receiver: &flume::Receiver<SupervisorAction>)
        ensures
            *receiver == self.supervisor().inbox(),
    {
        self.supervisor.receiver()
    }

    /// Takes what was received: processes an action, and ends once the inbox is closed.
    pub fn turn(&mut self, received: Received) -> (turn: Turn)
        requires
            old(self).supervisor()@.wf(),
        ensures
            turned(old(self).supervisor()@, received, final(self).supervisor()@, turn),
            received is Err ==> *final(self) == *old(self),
            final(self).supervisor()@.wf(),
            final(self).supervisor().inbox() == old(self).supervisor().inbox(),
    {
        match received {
            Ok(action) => Turn::Respond(self.supervisor.process(action)),
            Err(e) => Turn::Exit(Err(ActorError::from(e))),
        }
    }

    /// Continues once the wait for an actor's state is over.
    pub fn resume(&mut self, response: Response, reported: Reported) -> (after: Response)
        requires
            old(self).supervisor()@.wf(),
        ensures
            resumed(
                old(self).supervisor()@,
                response,
                reported,
                final(self).supervisor()@,
                after,
            ),
            final(self).supervisor()@.wf(),
            final(self).supervisor().inbox() == old(self).supervisor().inbox(),
    {
        self.supervisor.resume(response, reported)
    }
}

impl Actor<SupervisorAction> for Supervisor {
    type Rx = flume::Receiver<SupervisorAction>;
    type Error = ActorError<SupervisorAction>;
    type Result = EventLoop;

    fn run(self) -> (event_loop: EventLoop)
        ensures
            event_loop.supervisor() == self,
    {
        EventLoop { supervisor: self }
    }
}

} // verus!
