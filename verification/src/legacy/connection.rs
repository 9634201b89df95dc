//! The decisions of a connection that speaks these messages: the task IDs of
//! its requests, where a response of the user interface goes, and how the two
//! directions of the connection are polled.

use crate::legacy::client_messages::{ClientMessage, ClientRequest, ClientResponseData};
use crate::legacy::server_messages::{server_message_json, ServerMessage, ServerRequest, ServerRequestData};
use std::collections::HashMap;
use vstd::prelude::*;

verus! {

broadcast use vstd::std_specs::hash::group_hash_axioms;

/// The task ID that follows `task_id`: one more, and 1 after the largest,
/// so that 0 is never used.
pub open spec fn following_task_id(task_id: u64) -> u64 {
    if task_id == u64::MAX { 1 } else { (task_id + 1) as u64 }
}

/// Where a message of the user interface goes.
pub enum ClientMessageRoute<S> {
    /// A request, for the handler of the server.
    Request(ClientRequest),
    /// A response to a request in flight, for the sender that awaits it.
    Deliver { sender: S, data: ClientResponseData },
    /// A response whose task ID no request in flight has; it is ignored.
    UnknownTask { task_id: u64 },
}

/// The requests in flight, as values.
pub struct PendingView<S> {
    pub requests: Map<u64, S>,
    pub task_id: u64,
}

/// The requests of the server that await a response of the user interface,
/// each under its task ID, which is never 0, with the sender that takes the
/// response; and the task ID that the next request gets.
pub struct PendingRequests<S> {
    requests: HashMap<u64, S>,
    counter: TaskCounter,
}

/// The task ID that the next request gets; never 0.
struct TaskCounter {
    task_id: u64,
}

impl TaskCounter {
    #[verifier::type_invariant]
    closed spec fn inv(self) -> bool {
        self.task_id != 0
    }

    closed spec fn value(self) -> u64 {
        self.task_id
    }

    fn next(&mut self) -> (task_id: u64)
        ensures
            task_id == old(self).value(),
            task_id != 0,
            final(self).value() == following_task_id(old(self).value()),
    {
        proof {
            use_type_invariant(&*self);
        }
        let task_id = self.task_id;
        self.task_id = if task_id == u64::MAX { 1 } else { task_id + 1 };
        task_id
    }
}

impl<S> View for PendingRequests<S> {
    type V = PendingView<S>;

    closed spec fn view(&self) -> PendingView<S> {
        PendingView { requests: self.requests@, task_id: self.counter.value() }
    }
}

impl<S> PendingRequests<S> {

    /// No request in flight; the first request gets task ID 1.
    pub fn new() -> (pending: Self)
        ensures
            pending@.requests == Map::<u64, S>::empty(),
            pending@.task_id == 1,
    {
        PendingRequests { requests: HashMap::new(), counter: TaskCounter { task_id: 1 } }
    }

    /// Hands out the present task ID, which is never 0, and moves on to the
    /// following one.
    pub fn next_task_id(&mut self) -> (task_id: u64)
        ensures
            task_id == old(self)@.task_id,
            task_id != 0,
            final(self)@.task_id == following_task_id(old(self)@.task_id),
            final(self)@.requests == old(self)@.requests,
    {
        self.counter.next()
    }

    /// Gives a request of the server its task ID and the JSON text to send.
    /// The request is in flight only once `register` has been called, after
    /// the text has been sent.
    pub fn begin_server_request(&mut self, data: ServerRequestData) -> (request: (u64, String))
        ensures
            request.0 == old(self)@.task_id,
            request.0 != 0,
            request.1@ == server_message_json(ServerMessage::Request(ServerRequest { task_id: request.0, data })),
            final(self)@.task_id == following_task_id(old(self)@.task_id),
            final(self)@.requests == old(self)@.requests,
    {
        let task_id = self.next_task_id();
        let message = ServerMessage::Request(ServerRequest { task_id, data });
        (task_id, message.to_json())
    }

    /// Drops every request in flight, with its sender.
    pub fn clear(&mut self)
        ensures
            final(self)@.requests == Map::<u64, S>::empty(),
            final(self)@.task_id == old(self)@.task_id,
    {
        self.requests.clear();
    }

    /// Records that the request with `task_id` awaits its response through `sender`.
    pub fn register(&mut self, task_id: u64, sender: S)
        ensures
            final(self)@.requests == old(self)@.requests.insert(task_id, sender),
            final(self)@.task_id == old(self)@.task_id,
    {
        self.requests.insert(task_id, sender);
    }

    /// Takes the sender of the request in flight with `task_id`, which is then
    /// no longer in flight; nothing when no request has that task ID.
    pub fn take(&mut self, task_id: u64) -> (sender: Option<S>)
        ensures
            final(self)@.requests == old(self)@.requests.remove(task_id),
            final(self)@.task_id == old(self)@.task_id,
            match sender {
                Some(s) => old(self)@.requests.contains_key(task_id) && s == old(self)@.requests[task_id],
                None => !old(self)@.requests.contains_key(task_id),
            },
    {
        self.requests.remove(&task_id)
    }
}

impl<S> PendingRequests<S> {
    /// Routes a message of the user interface: a request goes to the handler,
    /// a response to the sender of the request in flight with its task ID,
    /// which is then no longer in flight, and a response that no request
    /// awaits is ignored.
    pub fn route_client_message(&mut self, message: ClientMessage) -> (route: ClientMessageRoute<S>)
        ensures
            final(self)@.task_id == old(self)@.task_id,
            match message {
                ClientMessage::Request(request) => final(self)@.requests == old(self)@.requests
                    && route == ClientMessageRoute::<S>::Request(request),
                ClientMessage::Response(response) => {
                    &&& final(self)@.requests == old(self)@.requests.remove(response.task_id)
                    &&& if old(self)@.requests.contains_key(response.task_id) {
                        route == ClientMessageRoute::Deliver {
                            sender: old(self)@.requests[response.task_id],
                            data: response.data,
                        }
                    } else {
                        route == ClientMessageRoute::<S>::UnknownTask { task_id: response.task_id }
                    }
                },
            },
    {
        match message {
            ClientMessage::Request(request) => ClientMessageRoute::Request(request),
            ClientMessage::Response(response) => match self.take(response.task_id) {
                Some(sender) => ClientMessageRoute::Deliver { sender, data: response.data },
                None => ClientMessageRoute::UnknownTask { task_id: response.task_id },
            },
        }
    }
}

/// Task IDs are never 0: the following task ID of any task ID is not 0.
pub proof fn law_task_id_never_zero(task_id: u64)
    ensures
        following_task_id(task_id) != 0,
{
}

/// What one poll of a direction reported.
#[derive(Clone, Copy, Debug, PartialEq, Eq, Structural)]
pub enum PollOutcome {
    /// The direction has ended.
    Finished,
    /// The direction handled one item and may have more.
    Progressed,
    /// The direction failed; the error goes to the caller.
    Failed,
    /// The direction has nothing to do until it is woken.
    Pending,
}

/// The polls that the connection makes.
#[derive(Clone, Copy, Debug, PartialEq, Eq, Structural)]
pub enum Poll {
    /// Read a message of the user interface.
    ClientToServer,
    /// Send a message of the server, while the user interface is still read.
    ServerToClient,
    /// Send what is left after the user interface has stopped sending, then
    /// close the WebSocket.
    ServerToClientToEnd,
}

/// How one poll of the whole connection ends.
#[derive(Clone, Copy, Debug, PartialEq, Eq, Structural)]
pub enum Completion {
    /// The connection has ended without error.
    Done,
    /// The connection has ended with the error of the last poll.
    Failed,
    /// The connection waits to be woken.
    Pending,
}

/// What the driver of the connection does next.
#[derive(Clone, Copy, Debug, PartialEq, Eq, Structural)]
pub enum Action {
    Poll(Poll),
    Complete(Completion),
}

/// Where a poll of the connection stands.
#[derive(Clone, Copy, Debug, PartialEq, Eq, Structural)]
pub enum Phase {
    /// No poll in progress.
    Idle,
    /// Both directions are polled in turn; the user interface first.
    AwaitClientToServer,
    /// The user interface reported `PollOutcome`; the server's direction is polled.
    AwaitServerToClient(PollOutcome),
    /// The server waits; the user interface is read until it waits or ends.
    DrainClientToServer,
    /// The user interface waits; the server's direction is polled until it waits.
    PumpServerToClient,
    /// The user interface has ended; what is left is sent, then the WebSocket closed.
    Closing,
}

/// The state of the scheduler as values.
pub struct SchedulerView {
    pub client_to_server: bool,
    pub phase: Phase,
}

impl SchedulerView {
    /// Phases that read the user interface need it open; the closing phase
    /// needs it ended.
    pub open spec fn wf(self) -> bool {
        match self.phase {
            Phase::Idle => true,
            Phase::Closing => !self.client_to_server,
            Phase::AwaitServerToClient(outcome) => self.client_to_server && outcome != PollOutcome::Failed,
            _ => self.client_to_server,
        }
    }
}

/// The first step of a poll of the connection.
pub open spec fn begin_step(view: SchedulerView) -> (SchedulerView, Action) {
    if view.client_to_server {
        (SchedulerView { phase: Phase::AwaitClientToServer, ..view }, Action::Poll(Poll::ClientToServer))
    } else {
        (SchedulerView { phase: Phase::Closing, ..view }, Action::Poll(Poll::ServerToClientToEnd))
    }
}

/// The step after the last poll reported `outcome`.
pub open spec fn outcome_step(view: SchedulerView, outcome: PollOutcome) -> (SchedulerView, Action) {
    let idle = SchedulerView { phase: Phase::Idle, ..view };
    if outcome == PollOutcome::Failed && view.phase != Phase::Idle {
        (idle, Action::Complete(Completion::Failed))
    } else {
        match view.phase {
            Phase::Idle => (view, Action::Complete(Completion::Pending)),
            Phase::AwaitClientToServer => (
                SchedulerView { phase: Phase::AwaitServerToClient(outcome), ..view },
                Action::Poll(Poll::ServerToClient),
            ),
            Phase::AwaitServerToClient(first) => match (first, outcome) {
                (PollOutcome::Finished, PollOutcome::Pending) => (
                    SchedulerView { client_to_server: false, phase: Phase::Idle },
                    Action::Complete(Completion::Pending),
                ),
                (PollOutcome::Finished, _) => (
                    SchedulerView { client_to_server: false, phase: Phase::Closing },
                    Action::Poll(Poll::ServerToClientToEnd),
                ),
                (PollOutcome::Progressed, PollOutcome::Pending) => (
                    SchedulerView { phase: Phase::DrainClientToServer, ..view },
                    Action::Poll(Poll::ClientToServer),
                ),
                (PollOutcome::Progressed, _) => (
                    SchedulerView { phase: Phase::AwaitClientToServer, ..view },
                    Action::Poll(Poll::ClientToServer),
                ),
                (_, PollOutcome::Pending) => (idle, Action::Complete(Completion::Pending)),
                (_, _) => (
                    SchedulerView { phase: Phase::PumpServerToClient, ..view },
                    Action::Poll(Poll::ServerToClient),
                ),
            },
            Phase::DrainClientToServer => match outcome {
                PollOutcome::Progressed => (view, Action::Poll(Poll::ClientToServer)),
                PollOutcome::Finished => (
                    SchedulerView { client_to_server: false, phase: Phase::Idle },
                    Action::Complete(Completion::Pending),
                ),
                _ => (idle, Action::Complete(Completion::Pending)),
            },
            Phase::PumpServerToClient => match outcome {
                PollOutcome::Pending => (idle, Action::Complete(Completion::Pending)),
                _ => (view, Action::Poll(Poll::ServerToClient)),
            },
            Phase::Closing => match outcome {
                PollOutcome::Finished => (idle, Action::Complete(Completion::Done)),
                PollOutcome::Pending => (idle, Action::Complete(Completion::Pending)),
                _ => (view, Action::Poll(Poll::ServerToClientToEnd)),
            },
        }
    }
}

/// Decides, poll by poll, how such a connection is
/// driven. While the user interface is read, each round polls it and then the
/// server's direction. When the user interface ends, what is left of the
/// server's messages is sent and the WebSocket closed; when one side waits,
/// the other is driven until it waits or, for the user interface, ends. An
/// error of any poll ends the connection at once.
pub struct Scheduler {
    client_to_server: bool,
    phase: Phase,
}

impl View for Scheduler {
    type V = SchedulerView;

    closed spec fn view(&self) -> SchedulerView {
        SchedulerView { client_to_server: self.client_to_server, phase: self.phase }
    }
}

impl Scheduler {
    #[verifier::type_invariant]
    closed spec fn inv(self) -> bool {
        self@.wf()
    }

    /// A connection whose user interface is read, with no poll in progress.
    pub fn new() -> (scheduler: Self)
        ensures
            scheduler@ == (SchedulerView { client_to_server: true, phase: Phase::Idle }),
    {
        Scheduler { client_to_server: true, phase: Phase::Idle }
    }

    /// Whether the user interface is still read.
    pub fn is_reading_client(&self) -> (reading: bool)
        ensures
            reading == self@.client_to_server,
    {
        self.client_to_server
    }

    /// Starts a poll of the connection.
    pub fn begin(&mut self) -> (action: Action)
        ensures
            (final(self)@, action) == begin_step(old(self)@),
    {
        if self.client_to_server {
            *self = Scheduler { client_to_server: true, phase: Phase::AwaitClientToServer };
            Action::Poll(Poll::ClientToServer)
        } else {
            *self = Scheduler { client_to_server: false, phase: Phase::Closing };
            Action::Poll(Poll::ServerToClientToEnd)
        }
    }

    /// Takes the outcome of the last poll and says what comes next. The
    /// server's direction, while the user interface is read, never ends.
    pub fn on_outcome(&mut self, outcome: PollOutcome) -> (action: Action)
        requires
            old(self)@.phase != Phase::Idle,
            (old(self)@.phase matches Phase::AwaitServerToClient(_) || old(self)@.phase == Phase::PumpServerToClient)
                ==> outcome != PollOutcome::Finished,
        ensures
            (final(self)@, action) == outcome_step(old(self)@, outcome),
            action == Action::Poll(Poll::ClientToServer) ==> final(self)@.client_to_server,
            action == Action::Poll(Poll::ServerToClientToEnd) ==> !final(self)@.client_to_server,
            action == Action::Complete(Completion::Done) ==> !final(self)@.client_to_server,
            final(self)@.client_to_server ==> old(self)@.client_to_server,
            old(self)@.client_to_server && !final(self)@.client_to_server ==> old(self)@.phase
                == Phase::AwaitServerToClient(PollOutcome::Finished) || (old(self)@.phase == Phase::DrainClientToServer
                && outcome == PollOutcome::Finished),
    {
        proof {
            use_type_invariant(&*self);
        }
        let reading = self.client_to_server;
        let (client_to_server, phase, action) = if outcome == PollOutcome::Failed {
            (reading, Phase::Idle, Action::Complete(Completion::Failed))
        } else {
            match self.phase {
                Phase::Idle => (reading, Phase::Idle, Action::Complete(Completion::Pending)),
                Phase::AwaitClientToServer => (reading, Phase::AwaitServerToClient(outcome), Action::Poll(Poll::ServerToClient)),
                Phase::AwaitServerToClient(first) => match (first, outcome) {
                    (PollOutcome::Finished, PollOutcome::Pending) => (false, Phase::Idle, Action::Complete(Completion::Pending)),
                    (PollOutcome::Finished, _) => (false, Phase::Closing, Action::Poll(Poll::ServerToClientToEnd)),
                    (PollOutcome::Progressed, PollOutcome::Pending) => (reading, Phase::DrainClientToServer, Action::Poll(Poll::ClientToServer)),
                    (PollOutcome::Progressed, _) => (reading, Phase::AwaitClientToServer, Action::Poll(Poll::ClientToServer)),
                    (_, PollOutcome::Pending) => (reading, Phase::Idle, Action::Complete(Completion::Pending)),
                    (_, _) => (reading, Phase::PumpServerToClient, Action::Poll(Poll::ServerToClient)),
                },
                Phase::DrainClientToServer => match outcome {
                    PollOutcome::Progressed => (reading, Phase::DrainClientToServer, Action::Poll(Poll::ClientToServer)),
                    PollOutcome::Finished => (false, Phase::Idle, Action::Complete(Completion::Pending)),
                    _ => (reading, Phase::Idle, Action::Complete(Completion::Pending)),
                },
                Phase::PumpServerToClient => match outcome {
                    PollOutcome::Pending => (reading, Phase::Idle, Action::Complete(Completion::Pending)),
                    _ => (reading, Phase::PumpServerToClient, Action::Poll(Poll::ServerToClient)),
                },
                Phase::Closing => match outcome {
                    PollOutcome::Finished => (reading, Phase::Idle, Action::Complete(Completion::Done)),
                    PollOutcome::Pending => (reading, Phase::Idle, Action::Complete(Completion::Pending)),
                    _ => (reading, Phase::Closing, Action::Poll(Poll::ServerToClientToEnd)),
                },
            }
        };
        *self = Scheduler { client_to_server, phase };
        action
    }
}

/// The state of a connection as values: its scheduler and its requests in flight.
pub struct ConnectionView<S> {
    pub scheduler: SchedulerView,
    pub pending: PendingView<S>,
}

impl<S> ConnectionView<S> {
    /// The scheduler is well formed, and once the user interface is no longer
    /// read no request is in flight: no response could reach it.
    pub open spec fn wf(self) -> bool {
        &&& self.scheduler.wf()
        &&& !self.scheduler.client_to_server ==> self.pending.requests == Map::<u64, S>::empty()
    }
}

/// The decisions of one such connection: which poll comes
/// next, the task IDs of the server's requests, and where the messages of the
/// user interface go. When the user interface stops being read, the requests
/// in flight are dropped with their senders, and later requests of the
/// server are refused.
pub struct ConnectionCore<S> {
    scheduler: Scheduler,
    pending: PendingRequests<S>,
}

impl<S> View for ConnectionCore<S> {
    type V = ConnectionView<S>;

    closed spec fn view(&self) -> ConnectionView<S> {
        ConnectionView { scheduler: self.scheduler@, pending: self.pending@ }
    }
}

impl<S> ConnectionCore<S> {
    /// A connection whose user interface is read, with no poll in progress,
    /// no request in flight, and task ID 1 for the first request.
    pub fn new() -> (core: Self)
        ensures
            core@.scheduler == (SchedulerView { client_to_server: true, phase: Phase::Idle }),
            core@.pending.requests == Map::<u64, S>::empty(),
            core@.pending.task_id == 1,
            core@.wf(),
    {
        ConnectionCore { scheduler: Scheduler::new(), pending: PendingRequests::new() }
    }

    /// Whether the user interface is still read.
    pub fn is_reading_client(&self) -> (reading: bool)
        ensures
            reading == self@.scheduler.client_to_server,
    {
        self.scheduler.is_reading_client()
    }

    /// Starts a poll of the connection.
    pub fn begin(&mut self) -> (action: Action)
        requires
            old(self)@.wf(),
        ensures
            final(self)@.wf(),
            (final(self)@.scheduler, action) == begin_step(old(self)@.scheduler),
            final(self)@.pending == old(self)@.pending,
    {
        proof {
            use_type_invariant(&self.scheduler);
        }
        let action = self.scheduler.begin();
        proof {
            use_type_invariant(&self.scheduler);
        }
        action
    }

    /// Takes the outcome of the last poll and says what comes next. When the
    /// user interface stops being read, the requests in flight are dropped.
    pub fn on_outcome(&mut self, outcome: PollOutcome) -> (action: Action)
        requires
            old(self)@.wf(),
            old(self)@.scheduler.phase != Phase::Idle,
            (old(self)@.scheduler.phase matches Phase::AwaitServerToClient(_) || old(self)@.scheduler.phase
                == Phase::PumpServerToClient) ==> outcome != PollOutcome::Finished,
        ensures
            final(self)@.wf(),
            (final(self)@.scheduler, action) == outcome_step(old(self)@.scheduler, outcome),
            final(self)@.pending.task_id == old(self)@.pending.task_id,
            final(self)@.pending.requests == if final(self)@.scheduler.client_to_server {
                old(self)@.pending.requests
            } else {
                Map::<u64, S>::empty()
            },
    {
        let action = self.scheduler.on_outcome(outcome);
        proof {
            use_type_invariant(&self.scheduler);
        }
        if !self.scheduler.is_reading_client() {
            self.pending.clear();
        }
        action
    }

    /// Routes a message of the user interface, as
    /// `PendingRequests::route_client_message` does.
    pub fn route_client_message(&mut self, message: ClientMessage) -> (route: ClientMessageRoute<S>)
        requires
            old(self)@.wf(),
        ensures
            final(self)@.wf(),
            final(self)@.scheduler == old(self)@.scheduler,
            final(self)@.pending.task_id == old(self)@.pending.task_id,
            match message {
                ClientMessage::Request(request) => final(self)@.pending.requests == old(self)@.pending.requests
                    && route == ClientMessageRoute::<S>::Request(request),
                ClientMessage::Response(response) => {
                    &&& final(self)@.pending.requests == old(self)@.pending.requests.remove(response.task_id)
                    &&& if old(self)@.pending.requests.contains_key(response.task_id) {
                        route == ClientMessageRoute::Deliver {
                            sender: old(self)@.pending.requests[response.task_id],
                            data: response.data,
                        }
                    } else {
                        route == ClientMessageRoute::<S>::UnknownTask { task_id: response.task_id }
                    }
                },
            },
    {
        let route = self.pending.route_client_message(message);
        proof {
            if !self@.scheduler.client_to_server {
                assert(self@.pending.requests =~= Map::<u64, S>::empty());
            }
        }
        route
    }

    /// Gives a request of the server its task ID and JSON text while the user
    /// interface is read; once it is no longer read the request is refused,
    /// since no response could come back.
    pub fn begin_server_request(&mut self, data: ServerRequestData) -> (request: Option<(u64, String)>)
        requires
            old(self)@.wf(),
        ensures
            final(self)@.wf(),
            final(self)@.scheduler == old(self)@.scheduler,
            final(self)@.pending.requests == old(self)@.pending.requests,
            match request {
                Some((task_id, text)) => {
                    &&& old(self)@.scheduler.client_to_server
                    &&& task_id == old(self)@.pending.task_id
                    &&& task_id != 0
                    &&& text@ == server_message_json(ServerMessage::Request(ServerRequest { task_id, data }))
                    &&& final(self)@.pending.task_id == following_task_id(old(self)@.pending.task_id)
                },
                None => !old(self)@.scheduler.client_to_server && final(self)@.pending == old(self)@.pending,
            },
    {
        if self.scheduler.is_reading_client() {
            Some(self.pending.begin_server_request(data))
        } else {
            None
        }
    }

    /// Completes a request of the server begun by `begin_server_request`:
    /// when its text was sent and the user interface is read, the request is
    /// in flight under its task ID; otherwise its sender is handed back, to
    /// be told of the failure.
    pub fn finish_server_request(&mut self, task_id: u64, sender: S, sent: bool) -> (unsent: Option<S>)
        requires
            old(self)@.wf(),
        ensures
            final(self)@.wf(),
            final(self)@.scheduler == old(self)@.scheduler,
            final(self)@.pending.task_id == old(self)@.pending.task_id,
            if sent && old(self)@.scheduler.client_to_server {
                &&& unsent is None
                &&& final(self)@.pending.requests == old(self)@.pending.requests.insert(task_id, sender)
            } else {
                &&& unsent == Some(sender)
                &&& final(self)@.pending.requests == old(self)@.pending.requests
            },
    {
        if sent && self.scheduler.is_reading_client() {
            self.pending.register(task_id, sender);
            None
        } else {
            Some(sender)
        }
    }
}

/// Each round polls the server's direction after the user interface; the
/// closing phase sends until the WebSocket is closed, and only then is the
/// connection done.
pub proof fn law_rounds_and_closing(view: SchedulerView, outcome: PollOutcome)
    requires
        view.wf(),
        outcome != PollOutcome::Failed,
    ensures
        view.phase == Phase::AwaitClientToServer ==> outcome_step(view, outcome).1 == Action::Poll(Poll::ServerToClient),
        view.phase == Phase::Closing && outcome == PollOutcome::Finished ==> outcome_step(view, outcome).1
            == Action::Complete(Completion::Done),
        view.phase == Phase::Closing && outcome == PollOutcome::Progressed ==> outcome_step(view, outcome).1
            == Action::Poll(Poll::ServerToClientToEnd),
        view.phase == Phase::AwaitServerToClient(PollOutcome::Progressed) && outcome == PollOutcome::Progressed
            ==> outcome_step(view, outcome).1 == Action::Poll(Poll::ClientToServer),
{
}

/// The user interface stops being read only after its own poll has reported
/// its end: either in the round that polled it, or while it was drained.
pub proof fn law_client_read_ends_only_at_its_end(view: SchedulerView, outcome: PollOutcome)
    requires
        view.wf(),
        view.client_to_server,
    ensures
        begin_step(view).0.client_to_server,
        !outcome_step(view, outcome).0.client_to_server ==> view.phase == Phase::AwaitServerToClient(
            PollOutcome::Finished,
        ) || (view.phase == Phase::DrainClientToServer && outcome == PollOutcome::Finished),
{
}

/// The connection ends without error only from its closing phase, after the
/// user interface has ended and what was left has been sent; it never reads
/// the user interface again after it has ended.
pub proof fn law_done_only_after_client_ended(view: SchedulerView, outcome: PollOutcome)
    requires
        view.wf(),
    ensures
        ({
            let (next, action) = outcome_step(view, outcome);
            &&& action == Action::Complete(Completion::Done) ==> view.phase == Phase::Closing && !next.client_to_server
            &&& action == Action::Poll(Poll::ClientToServer) ==> view.client_to_server
            &&& next.client_to_server ==> view.client_to_server
        }),
        ({
            let (next, action) = begin_step(view);
            &&& action == Action::Poll(Poll::ClientToServer) ==> view.client_to_server
            &&& next.wf()
        }),
{
}

} // verus!
