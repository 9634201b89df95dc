//! The decisions of a connection: which direction to poll next and when the
//! connection is done, which task ID a request of the server gets, and where a
//! response of the client goes.

use crate::json::{json_string, json_string_literal};
use crate::rpc::protocol::{envelope_json, envelope_to_json, Message, MessageData, MessageType};
use std::collections::HashMap;
use vstd::prelude::*;

verus! {

broadcast use vstd::std_specs::hash::group_hash_axioms;

/// One of the two directions of a connection.
#[derive(Clone, Copy, Debug, PartialEq, Eq, Structural)]
pub enum Direction {
    /// Messages that the client sends: its requests and its responses.
    ClientToServer,
    /// Messages that the server sends: its requests and its responses.
    ServerToClient,
}

/// What one poll of a direction reported.
#[derive(Clone, Copy, Debug, PartialEq, Eq, Structural)]
pub enum PollOutcome {
    /// The direction has ended.
    Finished,
    /// The direction handled one item and may have more.
    Progressed,
    /// The direction failed; the error goes to the caller.
    Failed,
    /// The direction has nothing to do until it is woken.
    Pending,
}

/// How one poll of the whole connection ends.
#[derive(Clone, Copy, Debug, PartialEq, Eq, Structural)]
pub enum Completion {
    /// The connection has ended without error.
    Done,
    /// The connection has ended with the error of the last poll.
    Failed,
    /// The connection waits to be woken.
    Pending,
}

/// What the driver of a connection does next.
#[derive(Clone, Copy, Debug, PartialEq, Eq, Structural)]
pub enum Action {
    /// Poll this direction once and report the outcome.
    Poll(Direction),
    /// End the present poll of the connection.
    Complete(Completion),
}

/// How a direction is driven to its end.
#[derive(Clone, Copy, Debug, PartialEq, Eq, Structural)]
pub enum DrainMode {
    /// The other direction has ended: when this one ends, so does the connection.
    ToEnd,
    /// The other direction waits: when this one ends, the poll waits too.
    Settle,
}

/// Where a poll of the connection stands.
#[derive(Clone, Copy, Debug, PartialEq, Eq, Structural)]
pub enum Phase {
    /// No poll of the connection is in progress.
    Idle,
    /// Both directions are open and the client's direction is being polled.
    AwaitClientToServer,
    /// Both directions are open, the client's direction has progressed, and
    /// the server's direction is being polled.
    AwaitServerToClient,
    /// One direction is polled until it ends or waits.
    Draining(Direction, DrainMode),
}

/// The state of the scheduler as values.
pub struct SchedulerView {
    pub client_to_server: bool,
    pub server_to_client: bool,
    pub phase: Phase,
}

impl SchedulerView {
    /// Whether `direction` is still open.
    pub open spec fn is_open(self, direction: Direction) -> bool {
        match direction {
            Direction::ClientToServer => self.client_to_server,
            Direction::ServerToClient => self.server_to_client,
        }
    }

    /// Both directions have ended.
    pub open spec fn is_finished(self) -> bool {
        !self.client_to_server && !self.server_to_client
    }

    /// A direction that is polled is open, and a direction driven to the end
    /// of the connection is the last one open.
    pub open spec fn wf(self) -> bool {
        match self.phase {
            Phase::Idle => true,
            Phase::AwaitClientToServer => self.client_to_server && self.server_to_client,
            Phase::AwaitServerToClient => self.client_to_server && self.server_to_client,
            Phase::Draining(direction, mode) => {
                &&& self.is_open(direction)
                &&& mode == DrainMode::ToEnd ==> !self.is_open(other_direction(direction))
                &&& mode == DrainMode::Settle ==> self.is_open(other_direction(direction))
            },
        }
    }
}

/// The direction opposite to `direction`.
pub open spec fn other_direction(direction: Direction) -> Direction {
    match direction {
        Direction::ClientToServer => Direction::ServerToClient,
        Direction::ServerToClient => Direction::ClientToServer,
    }
}

/// `view` with `direction` closed.
pub open spec fn close(view: SchedulerView, direction: Direction) -> SchedulerView {
    match direction {
        Direction::ClientToServer => SchedulerView { client_to_server: false, ..view },
        Direction::ServerToClient => SchedulerView { server_to_client: false, ..view },
    }
}

/// The first step of a poll of the connection, where some direction is open.
pub open spec fn begin_step(view: SchedulerView) -> (SchedulerView, Action) {
    if view.client_to_server && view.server_to_client {
        (
            SchedulerView { phase: Phase::AwaitClientToServer, ..view },
            Action::Poll(Direction::ClientToServer),
        )
    } else if view.client_to_server {
        (
            SchedulerView { phase: Phase::Draining(Direction::ClientToServer, DrainMode::ToEnd), ..view },
            Action::Poll(Direction::ClientToServer),
        )
    } else {
        (
            SchedulerView { phase: Phase::Draining(Direction::ServerToClient, DrainMode::ToEnd), ..view },
            Action::Poll(Direction::ServerToClient),
        )
    }
}

/// The step after a polled direction of a connection where both were open
/// reported `outcome`; `polled` is that direction.
pub open spec fn connected_step(view: SchedulerView, polled: Direction, outcome: PollOutcome) -> (
    SchedulerView,
    Action,
) {
    let other = other_direction(polled);
    match outcome {
        PollOutcome::Finished => {
            let closed = close(view, polled);
            (
                SchedulerView { phase: Phase::Draining(other, DrainMode::ToEnd), ..closed },
                Action::Poll(other),
            )
        },
        PollOutcome::Progressed => match polled {
            Direction::ClientToServer => (
                SchedulerView { phase: Phase::AwaitServerToClient, ..view },
                Action::Poll(Direction::ServerToClient),
            ),
            Direction::ServerToClient => (
                SchedulerView { phase: Phase::AwaitClientToServer, ..view },
                Action::Poll(Direction::ClientToServer),
            ),
        },
        PollOutcome::Failed => (
            SchedulerView { client_to_server: false, server_to_client: false, phase: Phase::Idle },
            Action::Complete(Completion::Failed),
        ),
        PollOutcome::Pending => (
            SchedulerView { phase: Phase::Draining(other, DrainMode::Settle), ..view },
            Action::Poll(other),
        ),
    }
}

/// The step after the direction being drained reported `outcome`.
pub open spec fn drain_step(view: SchedulerView, direction: Direction, mode: DrainMode, outcome: PollOutcome) -> (
    SchedulerView,
    Action,
) {
    match outcome {
        PollOutcome::Progressed => (view, Action::Poll(direction)),
        PollOutcome::Finished => {
            let closed = close(view, direction);
            (
                SchedulerView { phase: Phase::Idle, ..closed },
                Action::Complete(
                    match mode {
                        DrainMode::ToEnd => Completion::Done,
                        DrainMode::Settle => Completion::Pending,
                    },
                ),
            )
        },
        PollOutcome::Failed => (
            SchedulerView { client_to_server: false, server_to_client: false, phase: Phase::Idle },
            Action::Complete(Completion::Failed),
        ),
        PollOutcome::Pending => (SchedulerView { phase: Phase::Idle, ..view }, Action::Complete(Completion::Pending)),
    }
}

/// The step after the polled direction reported `outcome`, in a poll in progress.
pub open spec fn outcome_step(view: SchedulerView, outcome: PollOutcome) -> (SchedulerView, Action) {
    match view.phase {
        Phase::Idle => (view, Action::Complete(Completion::Pending)),
        Phase::AwaitClientToServer => connected_step(view, Direction::ClientToServer, outcome),
        Phase::AwaitServerToClient => connected_step(view, Direction::ServerToClient, outcome),
        Phase::Draining(direction, mode) => drain_step(view, direction, mode, outcome),
    }
}

/// Every step keeps the scheduler well formed, never reopens a direction,
/// polls only open directions, and ends a poll of the connection as ready,
/// with or without error, exactly when both directions have ended.
pub proof fn law_steps_keep_directions_closed(view: SchedulerView, outcome: PollOutcome)
    requires
        view.wf(),
    ensures
        !view.is_finished() ==> ({
            let (next, action) = begin_step(view);
            &&& next.wf()
            &&& forall|d: Direction| next.is_open(d) == view.is_open(d)
            &&& action matches Action::Poll(direction) && next.is_open(direction)
        }),
        view.phase != Phase::Idle ==> ({
            let (next, action) = outcome_step(view, outcome);
            &&& next.wf()
            &&& forall|d: Direction| next.is_open(d) ==> view.is_open(d)
            &&& action matches Action::Poll(direction) ==> next.is_open(direction)
            &&& action matches Action::Complete(completion) ==> {
                &&& next.phase == Phase::Idle
                &&& (completion == Completion::Pending <==> !next.is_finished())
            }
        }),
{
}

/// A direction ends only by its own end or by a failure: a step closes an
/// open direction only when the outcome is `Failed`, or when it is `Finished`
/// and that direction is the one that was polled. Starting a poll closes none.
pub proof fn law_direction_closes_only_by_its_end_or_failure(view: SchedulerView, outcome: PollOutcome, d: Direction)
    requires
        view.wf(),
        view.is_open(d),
    ensures
        !view.is_finished() ==> begin_step(view).0.is_open(d),
        view.phase != Phase::Idle && !outcome_step(view, outcome).0.is_open(d) ==> outcome == PollOutcome::Failed
            || (outcome == PollOutcome::Finished && match view.phase {
            Phase::AwaitClientToServer => d == Direction::ClientToServer,
            Phase::AwaitServerToClient => d == Direction::ServerToClient,
            Phase::Draining(drained, _) => d == drained,
            Phase::Idle => false,
        }),
{
}

/// While both directions are open, every outcome but a failure is followed
/// by a poll of the other direction: a direction that waits, progresses or
/// ends hands over to the other one.
pub proof fn law_connected_polls_other_direction(view: SchedulerView, outcome: PollOutcome)
    requires
        view.wf(),
        view.phase == Phase::AwaitClientToServer || view.phase == Phase::AwaitServerToClient,
        outcome != PollOutcome::Failed,
    ensures
        outcome_step(view, outcome).1 == Action::Poll(
            if view.phase == Phase::AwaitClientToServer {
                Direction::ServerToClient
            } else {
                Direction::ClientToServer
            },
        ),
{
}

/// A drained direction is polled again as long as it progresses; when it
/// ends, the poll of the connection ends, as done when the other direction
/// had ended and as waiting otherwise; when it waits, the poll waits.
pub proof fn law_drain_runs_to_end_or_wait(view: SchedulerView, outcome: PollOutcome, direction: Direction, mode: DrainMode)
    requires
        view.wf(),
        view.phase == Phase::Draining(direction, mode),
    ensures
        outcome == PollOutcome::Progressed ==> outcome_step(view, outcome) == (view, Action::Poll(direction)),
        outcome == PollOutcome::Finished ==> outcome_step(view, outcome).1 == Action::Complete(
            if view.is_open(other_direction(direction)) { Completion::Pending } else { Completion::Done },
        ),
        outcome == PollOutcome::Pending ==> outcome_step(view, outcome) == (
            SchedulerView { phase: Phase::Idle, ..view },
            Action::Complete(Completion::Pending),
        ),
{
}

/// An error of either direction ends the whole connection.
pub proof fn law_failure_closes_both_directions(view: SchedulerView)
    requires
        view.wf(),
        view.phase != Phase::Idle,
    ensures
        outcome_step(view, PollOutcome::Failed) == (
            SchedulerView { client_to_server: false, server_to_client: false, phase: Phase::Idle },
            Action::Complete(Completion::Failed),
        ),
{
}

/// Decides, poll by poll, how the two directions of a connection are driven.
///
/// While both directions are open the client's direction is polled, and on
/// progress the server's direction after it, in turn. When one of them ends,
/// the other is polled until it ends too, which ends the connection, or until
/// it waits. When one of them waits, the other is polled until it ends or
/// waits, and the poll of the connection waits. Any error ends both.
pub struct Scheduler {
    client_to_server: bool,
    server_to_client: bool,
    phase: Phase,
}

impl View for Scheduler {
    type V = SchedulerView;

    closed spec fn view(&self) -> SchedulerView {
        SchedulerView {
            client_to_server: self.client_to_server,
            server_to_client: self.server_to_client,
            phase: self.phase,
        }
    }
}

impl Scheduler {
    #[verifier::type_invariant]
    closed spec fn inv(self) -> bool {
        self@.wf()
    }

    /// A connection with both directions open and no poll in progress.
    pub fn new() -> (scheduler: Self)
        ensures
            scheduler@ == (SchedulerView { client_to_server: true, server_to_client: true, phase: Phase::Idle }),
    {
        Scheduler { client_to_server: true, server_to_client: true, phase: Phase::Idle }
    }

    /// Whether both directions have ended.
    pub fn is_finished(&self) -> (finished: bool)
        ensures
            finished == self@.is_finished(),
    {
        !self.client_to_server && !self.server_to_client
    }

    /// Whether `direction` is still open.
    pub fn is_open(&self, direction: Direction) -> (open: bool)
        ensures
            open == self@.is_open(direction),
    {
        match direction {
            Direction::ClientToServer => self.client_to_server,
            Direction::ServerToClient => self.server_to_client,
        }
    }

    /// Starts a poll of the connection. Polling a connection whose directions
    /// have both ended is a caller error.
    pub fn begin(&mut self) -> (action: Action)
        requires
            !old(self)@.is_finished(),
        ensures
            (final(self)@, action) == begin_step(old(self)@),
            action matches Action::Poll(direction) && final(self)@.is_open(direction),
    {
        proof {
            use_type_invariant(&*self);
        }
        let (phase, direction) = if self.client_to_server && self.server_to_client {
            (Phase::AwaitClientToServer, Direction::ClientToServer)
        } else if self.client_to_server {
            (Phase::Draining(Direction::ClientToServer, DrainMode::ToEnd), Direction::ClientToServer)
        } else {
            (Phase::Draining(Direction::ServerToClient, DrainMode::ToEnd), Direction::ServerToClient)
        };
        *self = Scheduler { client_to_server: self.client_to_server, server_to_client: self.server_to_client, phase };
        Action::Poll(direction)
    }

    /// Takes the outcome of the direction that the last action polled, and
    /// says what comes next.
    pub fn on_outcome(&mut self, outcome: PollOutcome) -> (action: Action)
        requires
            old(self)@.phase != Phase::Idle,
        ensures
            (final(self)@, action) == outcome_step(old(self)@, outcome),
            action matches Action::Poll(direction) ==> final(self)@.is_open(direction),
            action matches Action::Complete(completion) ==> final(self)@.phase == Phase::Idle,
            action == Action::Complete(Completion::Done) ==> final(self)@.is_finished(),
            action == Action::Complete(Completion::Failed) ==> final(self)@.is_finished(),
            action == Action::Complete(Completion::Pending) ==> !final(self)@.is_finished(),
            forall|d: Direction|
                old(self)@.is_open(d) && !#[trigger] final(self)@.is_open(d) ==> outcome == PollOutcome::Failed
                    || (outcome == PollOutcome::Finished && match old(self)@.phase {
                    Phase::AwaitClientToServer => d == Direction::ClientToServer,
                    Phase::AwaitServerToClient => d == Direction::ServerToClient,
                    Phase::Draining(drained, _) => d == drained,
                    Phase::Idle => false,
                }),
    {
        proof {
            use_type_invariant(&*self);
        }
        let (client_to_server, server_to_client, phase, action) = match self.phase {
            Phase::Idle => (self.client_to_server, self.server_to_client, Phase::Idle, Action::Complete(Completion::Pending)),
            Phase::AwaitClientToServer => Self::connected(Direction::ClientToServer, outcome),
            Phase::AwaitServerToClient => Self::connected(Direction::ServerToClient, outcome),
            Phase::Draining(direction, mode) => match outcome {
                PollOutcome::Progressed => (self.client_to_server, self.server_to_client, self.phase, Action::Poll(direction)),
                PollOutcome::Finished => {
                    let completion = match mode {
                        DrainMode::ToEnd => Completion::Done,
                        DrainMode::Settle => Completion::Pending,
                    };
                    match direction {
                        Direction::ClientToServer => (false, self.server_to_client, Phase::Idle, Action::Complete(completion)),
                        Direction::ServerToClient => (self.client_to_server, false, Phase::Idle, Action::Complete(completion)),
                    }
                },
                PollOutcome::Failed => (false, false, Phase::Idle, Action::Complete(Completion::Failed)),
                PollOutcome::Pending => (self.client_to_server, self.server_to_client, Phase::Idle, Action::Complete(Completion::Pending)),
            },
        };
        *self = Scheduler { client_to_server, server_to_client, phase };
        action
    }

    /// The step of a connection where both directions were open, after
    /// `polled` reported `outcome`: the new open flags, phase, and action.
    fn connected(polled: Direction, outcome: PollOutcome) -> (step: (bool, bool, Phase, Action))
        ensures
            ({
                let view = SchedulerView { client_to_server: true, server_to_client: true, phase: Phase::AwaitClientToServer };
                let (next, action) = connected_step(view, polled, outcome);
                step == (next.client_to_server, next.server_to_client, next.phase, action)
            }),
    {
        match outcome {
            PollOutcome::Finished => match polled {
                Direction::ClientToServer => (false, true, Phase::Draining(Direction::ServerToClient, DrainMode::ToEnd), Action::Poll(Direction::ServerToClient)),
                Direction::ServerToClient => (true, false, Phase::Draining(Direction::ClientToServer, DrainMode::ToEnd), Action::Poll(Direction::ClientToServer)),
            },
            PollOutcome::Progressed => match polled {
                Direction::ClientToServer => (true, true, Phase::AwaitServerToClient, Action::Poll(Direction::ServerToClient)),
                Direction::ServerToClient => (true, true, Phase::AwaitClientToServer, Action::Poll(Direction::ClientToServer)),
            },
            PollOutcome::Failed => (false, false, Phase::Idle, Action::Complete(Completion::Failed)),
            PollOutcome::Pending => match polled {
                Direction::ClientToServer => (true, true, Phase::Draining(Direction::ServerToClient, DrainMode::Settle), Action::Poll(Direction::ServerToClient)),
                Direction::ServerToClient => (true, true, Phase::Draining(Direction::ClientToServer, DrainMode::Settle), Action::Poll(Direction::ClientToServer)),
            },
        }
    }
}


/// The task ID that follows `task_id`: one more, wrapping around at the top.
pub open spec fn following_task_id(task_id: u64) -> u64 {
    if task_id == u64::MAX { 0 } else { (task_id + 1) as u64 }
}

/// The task ID handed out `n` requests after `task_id`.
pub open spec fn nth_task_id(task_id: u64, n: nat) -> u64
    decreases n,
{
    if n == 0 { task_id } else { nth_task_id(following_task_id(task_id), (n - 1) as nat) }
}

/// Where a message of the client goes.
pub enum ClientMessageRoute<S> {
    /// A request, for a handler of the server.
    Request(MessageData),
    /// A response to a request in flight, for the sender that awaits it.
    Deliver { sender: S, data: String },
    /// A response whose task ID no request in flight has; it is ignored.
    UnknownTask { task_id: u64 },
    /// A request that can no longer be answered, because the server's
    /// direction has ended; it is dropped.
    Unanswerable { task_id: u64 },
}

/// The requests in flight, as values.
pub struct PendingView<S> {
    pub requests: Map<u64, S>,
    pub task_id: u64,
}

/// Where `message` goes, and the requests in flight after it has gone there.
pub open spec fn route_client_message<S>(requests: Map<u64, S>, message: Message) -> (Map<u64, S>, ClientMessageRoute<S>) {
    match message.message_type {
        MessageType::Request => (
            requests,
            ClientMessageRoute::Request(MessageData { task_id: message.task_id, data: message.data }),
        ),
        MessageType::Response => if requests.contains_key(message.task_id) {
            (
                requests.remove(message.task_id),
                ClientMessageRoute::Deliver { sender: requests[message.task_id], data: message.data },
            )
        } else {
            (requests, ClientMessageRoute::UnknownTask { task_id: message.task_id })
        },
    }
}

/// The requests of the server that await a response of the client, each under
/// its task ID with the sender that takes the response, and the task ID that
/// the next request gets.
pub struct PendingRequests<S> {
    requests: HashMap<u64, S>,
    task_id: u64,
}

impl<S> View for PendingRequests<S> {
    type V = PendingView<S>;

    closed spec fn view(&self) -> PendingView<S> {
        PendingView { requests: self.requests@, task_id: self.task_id }
    }
}

impl<S> PendingRequests<S> {
    /// No request in flight; the first request gets task ID 0.
    pub fn new() -> (pending: Self)
        ensures
            pending@.requests == Map::<u64, S>::empty(),
            pending@.task_id == 0,
    {
        PendingRequests { requests: HashMap::new(), task_id: 0 }
    }

    /// The number of requests in flight.
    pub fn len(&self) -> (n: usize)
        ensures
            n == self@.requests.len(),
    {
        self.requests.len()
    }

    /// Hands out the present task ID and moves on to the following one.
    pub fn next_task_id(&mut self) -> (task_id: u64)
        ensures
            task_id == old(self)@.task_id,
            final(self)@.task_id == following_task_id(old(self)@.task_id),
            final(self)@.requests == old(self)@.requests,
    {
        let task_id = self.task_id;
        self.task_id = self.task_id.wrapping_add(1);
        task_id
    }

    /// Gives a request of the server its task ID and the JSON text to send to
    /// the client. The request is in flight only once `register` has been
    /// called, after the text has been sent.
    pub fn begin_server_request(&mut self, data: &str) -> (request: (u64, String))
        ensures
            request.0 == old(self)@.task_id,
            request.1@ == envelope_json(MessageType::Request, request.0, data@),
            final(self)@.task_id == following_task_id(old(self)@.task_id),
            final(self)@.requests == old(self)@.requests,
    {
        let task_id = self.next_task_id();
        (task_id, envelope_to_json(MessageType::Request, task_id, data))
    }

    /// Drops every request in flight, with its sender.
    pub fn clear(&mut self)
        ensures
            final(self)@.requests == Map::<u64, S>::empty(),
            final(self)@.task_id == old(self)@.task_id,
    {
        self.requests.clear();
    }

    /// Records that the request with `task_id` awaits its response through `sender`.
    pub fn register(&mut self, task_id: u64, sender: S)
        ensures
            final(self)@.requests == old(self)@.requests.insert(task_id, sender),
            final(self)@.task_id == old(self)@.task_id,
    {
        self.requests.insert(task_id, sender);
    }

    /// Routes a message of the client: a request goes to a handler, a response
    /// to the sender of the request in flight with its task ID, which is then
    /// no longer in flight, and a response that no request awaits is ignored.
    pub fn route_client_message(&mut self, message: Message) -> (route: ClientMessageRoute<S>)
        ensures
            (final(self)@.requests, route) == route_client_message(old(self)@.requests, message),
            final(self)@.task_id == old(self)@.task_id,
            message.message_type == MessageType::Request ==> final(self)@.requests == old(self)@.requests
                && route == ClientMessageRoute::<S>::Request(MessageData { task_id: message.task_id, data: message.data }),
    {
        let (message_type, message_data) = message.split();
        match message_type {
            MessageType::Request => ClientMessageRoute::Request(message_data),
            MessageType::Response => match self.requests.remove(&message_data.task_id) {
                Some(sender) => ClientMessageRoute::Deliver { sender, data: message_data.data },
                None => ClientMessageRoute::UnknownTask { task_id: message_data.task_id },
            },
        }
    }
}

/// A response of the client reaches the sender registered under its task ID,
/// with its data; after that the task is no longer in flight, so that a second
/// response with the same task ID is ignored.
pub proof fn law_response_reaches_its_request<S>(requests: Map<u64, S>, task_id: u64, sender: S, data: String)
    ensures
        ({
            let registered = requests.insert(task_id, sender);
            let response = Message { message_type: MessageType::Response, task_id, data };
            let (after, route) = route_client_message(registered, response);
            &&& route == ClientMessageRoute::Deliver { sender, data }
            &&& after == requests.remove(task_id)
            &&& route_client_message(after, response) == (after, ClientMessageRoute::<S>::UnknownTask { task_id })
        }),
{
    assert(requests.insert(task_id, sender).remove(task_id) =~= requests.remove(task_id));
}

/// A request of the client never touches the requests in flight.
pub proof fn law_client_request_leaves_pending_unchanged<S>(requests: Map<u64, S>, message: Message)
    requires
        message.message_type == MessageType::Request,
    ensures
        route_client_message(requests, message) == (
            requests,
            ClientMessageRoute::<S>::Request(MessageData { task_id: message.task_id, data: message.data }),
        ),
        route_in_connection(true, requests, message) == route_client_message(requests, message),
{
}

/// A response of the client never reaches a handler: it is delivered to the
/// request in flight with its task ID, which then leaves the requests in
/// flight, or, when there is none, ignored with the requests in flight
/// unchanged.
pub proof fn law_client_response_goes_to_its_request<S>(requests: Map<u64, S>, message: Message)
    requires
        message.message_type == MessageType::Response,
    ensures
        ({
            let (after, route) = route_client_message(requests, message);
            &&& !(route is Request)
            &&& requests.contains_key(message.task_id) ==> after == requests.remove(message.task_id)
                && route == ClientMessageRoute::Deliver { sender: requests[message.task_id], data: message.data }
            &&& !requests.contains_key(message.task_id) ==> after == requests
                && route == ClientMessageRoute::<S>::UnknownTask { task_id: message.task_id }
        }),
{
}

/// Task IDs repeat only after 2^64 requests: two requests fewer than 2^64
/// apart get different task IDs.
pub proof fn law_task_ids_distinct(task_id: u64, i: nat, j: nat)
    requires
        i < j,
        j - i < 0x1_0000_0000_0000_0000,
    ensures
        nth_task_id(task_id, i) != nth_task_id(task_id, j),
{
    lemma_nth_task_id(task_id, i);
    lemma_nth_task_id(task_id, j);
    let m: int = 0x1_0000_0000_0000_0000;
    let a: int = task_id as int + i as int;
    let b: int = task_id as int + j as int;
    assert(a % m != b % m) by {
        vstd::arithmetic::div_mod::lemma_fundamental_div_mod(a, m);
        vstd::arithmetic::div_mod::lemma_fundamental_div_mod(b, m);
        if a % m == b % m {
            assert(b - a == m * (b / m) - m * (a / m));
            vstd::arithmetic::mul::lemma_mul_is_distributive_sub(m, b / m, a / m);
            assert(b - a == m * (b / m - a / m));
            if b / m - a / m <= 0 {
                vstd::arithmetic::mul::lemma_mul_inequality(b / m - a / m, 0, m);
            } else {
                vstd::arithmetic::mul::lemma_mul_inequality(1, b / m - a / m, m);
            }
        }
    }
}

/// The task ID handed out `n` requests after `task_id` is `task_id + n`
/// modulo 2^64.
pub proof fn lemma_nth_task_id(task_id: u64, n: nat)
    ensures
        nth_task_id(task_id, n) as int == (task_id as int + n as int) % 0x1_0000_0000_0000_0000,
    decreases n,
{
    if n > 0 {
        lemma_nth_task_id(following_task_id(task_id), (n - 1) as nat);
        let m: int = 0x1_0000_0000_0000_0000;
        let next = following_task_id(task_id);
        assert(next as int == (task_id as int + 1) % m);
        vstd::arithmetic::div_mod::lemma_add_mod_noop(task_id as int + 1, (n - 1) as int, m);
        vstd::arithmetic::div_mod::lemma_mod_twice(task_id as int + 1, m);
        vstd::arithmetic::div_mod::lemma_small_mod((n - 1) as nat % m as nat, m as nat);
        vstd::arithmetic::div_mod::lemma_add_mod_noop(next as int, (n - 1) as int, m);
    }
}

/// The state of a connection as values: its scheduler and its requests in flight.
pub struct ConnectionView<S> {
    pub scheduler: SchedulerView,
    pub pending: PendingView<S>,
}

impl<S> ConnectionView<S> {
    /// The scheduler is well formed, and once the client's direction has
    /// ended no request is in flight: no response could reach it.
    pub open spec fn wf(self) -> bool {
        &&& self.scheduler.wf()
        &&& !self.scheduler.client_to_server ==> self.pending.requests == Map::<u64, S>::empty()
    }
}

/// Where a message of the client goes in a connection whose server direction
/// is open or not: like `route_client_message`, except that a request that
/// can no longer be answered is dropped.
pub open spec fn route_in_connection<S>(server_to_client: bool, requests: Map<u64, S>, message: Message) -> (
    Map<u64, S>,
    ClientMessageRoute<S>,
) {
    if message.message_type == MessageType::Request && !server_to_client {
        (requests, ClientMessageRoute::Unanswerable { task_id: message.task_id })
    } else {
        route_client_message(requests, message)
    }
}

/// The decisions of one connection: which direction to poll, the task IDs of
/// the server's requests, and where the client's messages go. When the
/// client's direction ends, the requests in flight are dropped with their
/// senders, so that every call that waits for them learns that the
/// connection has closed.
pub struct ConnectionCore<S> {
    scheduler: Scheduler,
    pending: PendingRequests<S>,
}

impl<S> View for ConnectionCore<S> {
    type V = ConnectionView<S>;

    closed spec fn view(&self) -> ConnectionView<S> {
        ConnectionView { scheduler: self.scheduler@, pending: self.pending@ }
    }
}

impl<S> ConnectionCore<S> {
    /// A connection with both directions open, no poll in progress, no
    /// request in flight, and task ID 0 for the first request.
    pub fn new() -> (core: Self)
        ensures
            core@.scheduler == (SchedulerView { client_to_server: true, server_to_client: true, phase: Phase::Idle }),
            core@.pending.requests == Map::<u64, S>::empty(),
            core@.pending.task_id == 0,
            core@.wf(),
    {
        let scheduler = Scheduler::new();
        proof {
            use_type_invariant(&scheduler);
        }
        ConnectionCore { scheduler, pending: PendingRequests::new() }
    }

    /// Whether both directions have ended.
    pub fn is_finished(&self) -> (finished: bool)
        ensures
            finished == self@.scheduler.is_finished(),
    {
        self.scheduler.is_finished()
    }

    /// Whether `direction` is still open.
    pub fn is_open(&self, direction: Direction) -> (open: bool)
        ensures
            open == self@.scheduler.is_open(direction),
    {
        self.scheduler.is_open(direction)
    }

    /// The number of requests in flight.
    pub fn pending_len(&self) -> (n: usize)
        ensures
            n == self@.pending.requests.len(),
    {
        self.pending.len()
    }

    /// Starts a poll of the connection, which has a direction open.
    pub fn begin(&mut self) -> (action: Action)
        requires
            old(self)@.wf(),
            !old(self)@.scheduler.is_finished(),
        ensures
            final(self)@.wf(),
            (final(self)@.scheduler, action) == begin_step(old(self)@.scheduler),
            final(self)@.pending == old(self)@.pending,
    {
        let action = self.scheduler.begin();
        proof {
            use_type_invariant(&self.scheduler);
        }
        action
    }

    /// Takes the outcome of the direction polled last and says what comes
    /// next. When this ends the client's direction, the requests in flight
    /// are dropped.
    pub fn on_outcome(&mut self, outcome: PollOutcome) -> (action: Action)
        requires
            old(self)@.wf(),
            old(self)@.scheduler.phase != Phase::Idle,
        ensures
            final(self)@.wf(),
            (final(self)@.scheduler, action) == outcome_step(old(self)@.scheduler, outcome),
            final(self)@.pending.task_id == old(self)@.pending.task_id,
            final(self)@.pending.requests == if final(self)@.scheduler.client_to_server {
                old(self)@.pending.requests
            } else {
                Map::<u64, S>::empty()
            },
    {
        let action = self.scheduler.on_outcome(outcome);
        proof {
            use_type_invariant(&self.scheduler);
        }
        if !self.scheduler.is_open(Direction::ClientToServer) {
            self.pending.clear();
        }
        action
    }

    /// Routes a message of the client: a request goes to a handler while the
    /// server's direction can still answer it and is dropped otherwise; a
    /// response goes to the sender of the request in flight with its task ID,
    /// which is then no longer in flight; a response that no request awaits
    /// is ignored.
    pub fn route_client_message(&mut self, message: Message) -> (route: ClientMessageRoute<S>)
        requires
            old(self)@.wf(),
        ensures
            final(self)@.wf(),
            final(self)@.scheduler == old(self)@.scheduler,
            final(self)@.pending.task_id == old(self)@.pending.task_id,
            (final(self)@.pending.requests, route) == route_in_connection(
                old(self)@.scheduler.server_to_client,
                old(self)@.pending.requests,
                message,
            ),
    {
        if message.message_type == MessageType::Request && !self.scheduler.is_open(Direction::ServerToClient) {
            return ClientMessageRoute::Unanswerable { task_id: message.task_id };
        }
        let route = self.pending.route_client_message(message);
        proof {
            if !self@.scheduler.client_to_server {
                assert(self@.pending.requests =~= Map::<u64, S>::empty());
            }
        }
        route
    }

    /// Gives a request of the server its task ID and the JSON text to send,
    /// while the client's direction is open; once it has ended the request is
    /// dropped, since no response could come back.
    pub fn begin_server_request(&mut self, data: &str) -> (request: Option<(u64, String)>)
        requires
            old(self)@.wf(),
        ensures
            final(self)@.wf(),
            final(self)@.scheduler == old(self)@.scheduler,
            final(self)@.pending.requests == old(self)@.pending.requests,
            match request {
                Some((task_id, text)) => {
                    &&& old(self)@.scheduler.client_to_server
                    &&& task_id == old(self)@.pending.task_id
                    &&& text@ == envelope_json(MessageType::Request, task_id, data@)
                    &&& final(self)@.pending.task_id == following_task_id(old(self)@.pending.task_id)
                },
                None => !old(self)@.scheduler.client_to_server && final(self)@.pending == old(self)@.pending,
            },
    {
        if self.scheduler.is_open(Direction::ClientToServer) {
            Some(self.pending.begin_server_request(data))
        } else {
            None
        }
    }

    /// Completes a request of the server begun by `begin_server_request`:
    /// when its text was sent and the client's direction is open, the request
    /// is in flight under its task ID; otherwise its sender is handed back,
    /// to be failed or dropped.
    pub fn finish_server_request(&mut self, task_id: u64, sender: S, sent: bool) -> (unsent: Option<S>)
        requires
            old(self)@.wf(),
        ensures
            final(self)@.wf(),
            final(self)@.scheduler == old(self)@.scheduler,
            final(self)@.pending.task_id == old(self)@.pending.task_id,
            if sent && old(self)@.scheduler.client_to_server {
                &&& unsent is None
                &&& final(self)@.pending.requests == old(self)@.pending.requests.insert(task_id, sender)
            } else {
                &&& unsent == Some(sender)
                &&& final(self)@.pending.requests == old(self)@.pending.requests
            },
    {
        if sent && self.scheduler.is_open(Direction::ClientToServer) {
            self.pending.register(task_id, sender);
            None
        } else {
            Some(sender)
        }
    }
}

/// Once the client's direction has ended, no request is in flight, and any
/// response that arrives is ignored.
pub proof fn law_closed_client_direction_holds_no_request<S>(view: ConnectionView<S>, message: Message)
    requires
        view.wf(),
        !view.scheduler.client_to_server,
        message.message_type == MessageType::Response,
    ensures
        view.pending.requests == Map::<u64, S>::empty(),
        route_in_connection(view.scheduler.server_to_client, view.pending.requests, message) == (
            view.pending.requests,
            ClientMessageRoute::<S>::UnknownTask { task_id: message.task_id },
        ),
{
}

/// The data of the response that reports an error to the client: the error
/// message as a JSON string.
pub fn error_response(task_id: u64, message: &str) -> (response: MessageData)
    ensures
        response.task_id == task_id,
        response.data@ == json_string_literal(message@),
{
    MessageData { task_id, data: json_string(message) }
}

} // verus!
