//! The state that a server's threads share.

use vstd::prelude::*;

use crate::protocol::state::RunState;

verus! {

/// What a server's run state holds.
#[verifier::ext_equal]
pub struct ServerStatus {
    /// No shutdown has been requested.
    pub alive: bool,
    /// How many clients are connected.
    pub clients: u16,
}

impl ServerStatus {
    /// A running server without clients.
    pub open spec fn initial() -> ServerStatus {
        ServerStatus { alive: true, clients: 0 }
    }
}

/// A call that changes a server's run state.
pub enum StatusCall {
    RequestShutdown,
    ClientConnected,
    ClientDisconnected,
}

/// The count of clients without one of them. It wraps around below zero.
pub open spec fn counted_out(clients: u16) -> u16 {
    if clients == 0 {
        u16::MAX
    } else {
        (clients - 1) as u16
    }
}

/// What the run state holds after a call.
pub open spec fn after_call(status: ServerStatus, call: StatusCall) -> ServerStatus {
    match call {
        StatusCall::RequestShutdown => ServerStatus { alive: false, ..status },
        StatusCall::ClientConnected => ServerStatus {
            clients: (status.clients + 1) as u16,
            ..status
        },
        StatusCall::ClientDisconnected => ServerStatus {
            clients: counted_out(status.clients),
            ..status
        },
    }
}

/// What becomes of a new connection.
#[derive(Debug, PartialEq, Eq, Structural, Clone, Copy)]
pub enum Admission {
    /// The client is served.
    Served,
    /// The server has as many clients as it may have; the client is
    /// disconnected at once.
    Refused,
}

/// What becomes of a new connection to a server that has `clients` clients.
pub open spec fn admission_for(clients: u16, client_limit: u16) -> Admission {
    if client_limit > 0 && clients >= client_limit {
        Admission::Refused
    } else {
        Admission::Served
    }
}

/// What a server does next.
#[derive(Debug, PartialEq, Eq, Structural, Clone, Copy)]
pub enum ServeStep {
    /// Accept connections.
    Accept,
    /// Wait for the clients that are left.
    Wait,
    /// Return: the server is shut down and has no clients.
    Return,
}

/// What a server does next.
pub open spec fn serve_step(status: ServerStatus) -> ServeStep {
    if status.alive {
        ServeStep::Accept
    } else if status.clients > 0 {
        ServeStep::Wait
    } else {
        ServeStep::Return
    }
}

/// Whether the server goes on, and how many clients it has.
#[derive(Debug)]
pub struct ServerRunState {
    alive: bool,
    clients: u16,
}

impl View for ServerRunState {
    type V = ServerStatus;

    closed spec fn view(&self) -> ServerStatus {
        ServerStatus { alive: self.alive, clients: self.clients }
    }
}

impl ServerRunState {
    pub fn new() -> (state: Self)
        ensures
            state@ == ServerStatus::initial(),
    {
        Self { alive: true, clients: 0 }
    }

    /// Stops the server, and tells whether it was running.
    pub fn request_shutdown(&mut self) -> (was_alive: bool)
        ensures
            was_alive == old(self)@.alive,
            final(self)@ == after_call(old(self)@, StatusCall::RequestShutdown),
    {
        let was_alive = self.alive;
        self.alive = false;
        was_alive
    }

    /// Counts a client in, and gives the count with it.
    pub fn client_connected(&mut self) -> (count: u16)
        requires
            old(self)@.clients < u16::MAX,
        ensures
            count == old(self)@.clients + 1,
            final(self)@ == after_call(old(self)@, StatusCall::ClientConnected),
    {
        self.clients = self.clients + 1;
        self.clients
    }

    /// Counts a client out, and gives the count before. The count wraps
    /// around below zero.
    pub fn client_disconnected(&mut self) -> (count_before: u16)
        ensures
            count_before == old(self)@.clients,
            final(self)@ == after_call(old(self)@, StatusCall::ClientDisconnected),
    {
        let count_before = self.clients;
        self.clients = if count_before == 0 {
            u16::MAX
        } else {
            count_before - 1
        };
        count_before
    }

    /// How many clients are connected.
    pub fn client_count(&self) -> (count: u16)
        ensures
            count == self@.clients,
    {
        self.clients
    }

    /// Takes a new connection in, unless that would exceed `client_limit`. A
    /// limit of zero is no limit.
    pub fn accept_client(&mut self, client_limit: u16) -> (admission: Admission)
        requires
            old(self)@.clients < u16::MAX,
        ensures
            admission == admission_for(old(self)@.clients, client_limit),
            final(self)@ == (match admission {
                Admission::Served => after_call(old(self)@, StatusCall::ClientConnected),
                Admission::Refused => old(self)@,
            }),
    {
        let client_count = self.client_connected();
        if client_limit > 0 && client_count > client_limit {
            self.client_disconnected();
            Admission::Refused
        } else {
            Admission::Served
        }
    }

    /// What the server does next: it accepts connections until it is told to
    /// stop, and then waits for the clients that are left.
    pub fn next_step(&self) -> (step: ServeStep)
        ensures
            step == serve_step(self@),
    {
        if self.alive {
            ServeStep::Accept
        } else if self.clients > 0 {
            ServeStep::Wait
        } else {
            ServeStep::Return
        }
    }
}

impl RunState for ServerRunState {
    open spec fn stopped(&self) -> bool {
        !self@.alive
    }

    open spec fn running(&self) -> bool {
        self@.alive
    }

    fn is_alive(&self) -> (alive: bool)
        ensures
            alive == self@.alive,
    {
        self.alive
    }
}

impl Default for ServerRunState {
    fn default() -> (state: Self)
        ensures
            state@ == ServerStatus::initial(),
    {
        Self::new()
    }
}

/// Counting a client out undoes counting it in.
pub proof fn law_disconnection_undoes_connection(status: ServerStatus)
    requires
        status.clients < u16::MAX,
    ensures
        after_call(
            after_call(status, StatusCall::ClientConnected),
            StatusCall::ClientDisconnected,
        ) == status,
{
}

/// What the run state holds after a sequence of calls, in the order in which
/// the threads took their turns.
pub open spec fn status_after(start: ServerStatus, calls: Seq<StatusCall>) -> ServerStatus
    decreases calls.len(),
{
    if calls.len() == 0 {
        start
    } else {
        after_call(status_after(start, calls.drop_last()), calls.last())
    }
}

/// How many of the requests for shutdown among the calls are told that the
/// server was running.
pub open spec fn shutdowns_reported(start: ServerStatus, calls: Seq<StatusCall>) -> nat
    decreases calls.len(),
{
    if calls.len() == 0 {
        0
    } else {
        let now: nat = if calls.last() is RequestShutdown && status_after(
            start,
            calls.drop_last(),
        ).alive {
            1
        } else {
            0
        };
        shutdowns_reported(start, calls.drop_last()) + now
    }
}

/// Of all the requests for shutdown of a running server exactly one is told
/// that it was running, whatever calls come between them, and the server runs
/// until there is one.
pub proof fn law_shutdown_is_reported_once(start: ServerStatus, calls: Seq<StatusCall>)
    requires
        start.alive,
    ensures
        status_after(start, calls).alive <==> !calls.contains(StatusCall::RequestShutdown),
        shutdowns_reported(start, calls) == (if calls.contains(StatusCall::RequestShutdown) {
            1nat
        } else {
            0nat
        }),
    decreases calls.len(),
{
    if calls.len() > 0 {
        let front = calls.drop_last();
        let request = StatusCall::RequestShutdown;
        law_shutdown_is_reported_once(start, front);
        if front.contains(request) {
            assert(calls[front.index_of(request)] == request);
        }
        if calls.contains(request) && calls.last() != request {
            assert(front[calls.index_of(request)] == request);
        }
        if calls.last() == request {
            assert(calls[calls.len() - 1] == request);
        }
    }
}

/// How many calls count a client in.
pub open spec fn connections(calls: Seq<StatusCall>) -> nat
    decreases calls.len(),
{
    if calls.len() == 0 {
        0
    } else {
        connections(calls.drop_last()) + if calls.last() is ClientConnected {
            1nat
        } else {
            0nat
        }
    }
}

/// How many calls count a client out.
pub open spec fn disconnections(calls: Seq<StatusCall>) -> nat
    decreases calls.len(),
{
    if calls.len() == 0 {
        0
    } else {
        disconnections(calls.drop_last()) + if calls.last() is ClientDisconnected {
            1nat
        } else {
            0nat
        }
    }
}

/// Whether the count of clients, which starts at `clients`, never leaves what
/// sixteen bits hold.
pub open spec fn stays_countable(clients: u16, calls: Seq<StatusCall>) -> bool
    decreases calls.len(),
{
    calls.len() > 0 ==> {
        &&& stays_countable(clients, calls.drop_last())
        &&& 0 <= clients + connections(calls) - disconnections(calls) <= u16::MAX
    }
}

/// The count of clients is the number of those that came less those that left,
/// in whatever order they did, and whether or not shutdown was requested.
pub proof fn law_count_is_arrivals_less_departures(start: ServerStatus, calls: Seq<StatusCall>)
    requires
        stays_countable(start.clients, calls),
    ensures
        status_after(start, calls).clients == start.clients + connections(calls) - disconnections(
            calls,
        ),
    decreases calls.len(),
{
    if calls.len() > 0 {
        law_count_is_arrivals_less_departures(start, calls.drop_last());
    }
}

/// The counts that the calls which count a client in give, in order.
pub open spec fn counts_given(start: ServerStatus, calls: Seq<StatusCall>) -> Seq<int>
    decreases calls.len(),
{
    if calls.len() == 0 {
        seq![]
    } else {
        let before = counts_given(start, calls.drop_last());
        if calls.last() is ClientConnected {
            before.push(status_after(start, calls.drop_last()).clients + 1)
        } else {
            before
        }
    }
}

/// While no client leaves, each that comes is given the next number.
pub proof fn law_clients_are_numbered_in_turn(start: ServerStatus, calls: Seq<StatusCall>)
    requires
        !calls.contains(StatusCall::ClientDisconnected),
        start.clients + connections(calls) <= u16::MAX,
    ensures
        counts_given(start, calls) == Seq::new(
            connections(calls),
            |i: int| start.clients + 1 + i,
        ),
        status_after(start, calls).clients == start.clients + connections(calls),
    decreases calls.len(),
{
    if calls.len() > 0 {
        let front = calls.drop_last();
        assert(!front.contains(StatusCall::ClientDisconnected)) by {
            if front.contains(StatusCall::ClientDisconnected) {
                let i = front.index_of(StatusCall::ClientDisconnected);
                assert(calls[i] == front[i]);
            }
        }
        assert(calls[calls.len() - 1] == calls.last());
        law_clients_are_numbered_in_turn(start, front);
    }
    assert(counts_given(start, calls) =~= Seq::new(
        connections(calls),
        |i: int| start.clients + 1 + i,
    ));
}

/// A server returns exactly when shutdown has been requested and no client is
/// left, and accepts connections exactly until shutdown is requested.
pub proof fn law_server_outlasts_its_clients(calls: Seq<StatusCall>)
    requires
        stays_countable(0, calls),
    ensures
        serve_step(status_after(ServerStatus::initial(), calls)) == ServeStep::Accept
            <==> !calls.contains(StatusCall::RequestShutdown),
        serve_step(status_after(ServerStatus::initial(), calls)) == ServeStep::Return <==> (
        calls.contains(StatusCall::RequestShutdown) && connections(calls) == disconnections(calls)),
{
    law_shutdown_is_reported_once(ServerStatus::initial(), calls);
    law_count_is_arrivals_less_departures(ServerStatus::initial(), calls);
}

/// Something that happens to a server's count of clients.
pub enum ClientTraffic {
    /// A client connects.
    Arrival,
    /// A client that is served leaves.
    Departure,
}

/// The count of clients after `traffic`, in a server that starts with none.
pub open spec fn clients_after(traffic: Seq<ClientTraffic>, client_limit: u16) -> u16
    decreases traffic.len(),
{
    if traffic.len() == 0 {
        0
    } else {
        let before = clients_after(traffic.drop_last(), client_limit);
        match traffic.last() {
            ClientTraffic::Arrival => match admission_for(before, client_limit) {
                Admission::Served => (before + 1) as u16,
                Admission::Refused => before,
            },
            ClientTraffic::Departure => if before > 0 {
                counted_out(before)
            } else {
                before
            },
        }
    }
}

/// A server with a limit never serves more clients than that at once.
pub proof fn law_client_limit_holds(traffic: Seq<ClientTraffic>, client_limit: u16)
    requires
        client_limit > 0,
    ensures
        clients_after(traffic, client_limit) <= client_limit,
    decreases traffic.len(),
{
    if traffic.len() > 0 {
        law_client_limit_holds(traffic.drop_last(), client_limit);
    }
}

/// A client is refused exactly if there is a limit and it is reached.
pub proof fn law_clients_are_refused_at_limit(clients: u16, client_limit: u16)
    ensures
        client_limit == 0 ==> admission_for(clients, client_limit) == Admission::Served,
        clients < client_limit ==> admission_for(clients, client_limit) == Admission::Served,
        0 < client_limit <= clients ==> admission_for(clients, client_limit) == Admission::Refused,
{
}

/// Each call does its own: a request for shutdown stops the server and keeps
/// the clients, and a client that comes or leaves changes the count by one and
/// keeps the server running or not. The count wraps around below zero.
pub proof fn law_calls_keep_to_their_own(status: ServerStatus)
    ensures
        !after_call(status, StatusCall::RequestShutdown).alive,
        after_call(status, StatusCall::RequestShutdown).clients == status.clients,
        status.clients < 65535 ==> after_call(status, StatusCall::ClientConnected).clients
            == status.clients + 1,
        after_call(status, StatusCall::ClientConnected).alive == status.alive,
        after_call(status, StatusCall::ClientDisconnected).clients == (status.clients - 1) % 65536,
        after_call(status, StatusCall::ClientDisconnected).alive == status.alive,
        ServerStatus::initial().alive,
        ServerStatus::initial().clients == 0,
{
}

/// A server that runs accepts, one that is shut down waits while it has
/// clients, and returns when it has none.
pub proof fn law_server_steps_follow_status(status: ServerStatus)
    ensures
        serve_step(status) == ServeStep::Accept <==> status.alive,
        serve_step(status) == ServeStep::Wait <==> !status.alive && status.clients > 0,
        serve_step(status) == ServeStep::Return <==> !status.alive && status.clients == 0,
{
}

/// Each call gives what it is to give and changes what it is to change: a
/// request for shutdown tells whether the server was running; counting a client
/// in gives the new count, and counting one out the old.
pub proof fn law_state_calls_give_and_change(
    stopped: &mut ServerRunState,
    was_alive: bool,
    entered: &mut ServerRunState,
    count: u16,
    left: &mut ServerRunState,
    count_before: u16,
)
    requires
        call_ensures(ServerRunState::request_shutdown, (stopped,), was_alive),
        call_ensures(ServerRunState::client_connected, (entered,), count),
        old(entered)@.clients < u16::MAX,
        call_ensures(ServerRunState::client_disconnected, (left,), count_before),
    ensures
        was_alive == old(stopped)@.alive,
        !final(stopped)@.alive,
        final(stopped)@.clients == old(stopped)@.clients,
        count == old(entered)@.clients + 1,
        final(entered)@.clients == count,
        final(entered)@.alive == old(entered)@.alive,
        count_before == old(left)@.clients,
        final(left)@.clients == (count_before - 1) % 65536,
        final(left)@.alive == old(left)@.alive,
{
}

/// A connection is served, and counted, unless there is a limit that is
/// reached.
pub proof fn law_connections_are_served_below_limit(
    state: &mut ServerRunState,
    client_limit: u16,
    admission: Admission,
)
    requires
        call_ensures(ServerRunState::accept_client, (state, client_limit), admission),
        old(state)@.clients < u16::MAX,
    ensures
        admission == Admission::Refused <==> 0 < client_limit <= old(state)@.clients,
        admission == Admission::Served ==> final(state)@.clients == old(state)@.clients + 1,
        admission == Admission::Refused ==> final(state)@.clients == old(state)@.clients,
        final(state)@.alive == old(state)@.alive,
{
}

/// What is told of a run state is what it holds.
pub proof fn law_state_is_told_as_it_is(
    state: ServerRunState,
    count: u16,
    alive: bool,
    step: ServeStep,
    fresh: ServerRunState,
)
    requires
        call_ensures(ServerRunState::client_count, (&state,), count),
        call_ensures(ServerRunState::is_alive, (&state,), alive),
        call_ensures(ServerRunState::next_step, (&state,), step),
        call_ensures(ServerRunState::new, (), fresh),
    ensures
        count == state@.clients,
        alive == state@.alive,
        step == ServeStep::Accept <==> alive,
        step == ServeStep::Wait <==> !alive && count > 0,
        step == ServeStep::Return <==> !alive && count == 0,
        fresh@.alive,
        fresh@.clients == 0,
{
}

} // verus!
