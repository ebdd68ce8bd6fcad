//! The state that a client's threads share.

use vstd::prelude::*;

use crate::protocol::state::RunState;

verus! {

/// How long the client waits for the server's results, in nanoseconds.
pub const KILL_TIMEOUT_NANOS: u128 = 5_000_000_000;

/// `std::time::SystemTime`, carried as it is.
#[verifier::external_type_specification]
#[verifier::external_body]
pub struct ExSystemTime(std::time::SystemTime);

/// Calls `std::time::SystemTime::now`. Nothing is claimed of the time.
#[verifier::external_body]
pub(crate) fn now() -> (time: std::time::SystemTime) {
    std::time::SystemTime::now()
}

/// Calls `std::time::SystemTime::elapsed` and gives the time since `start` in
/// nanoseconds, or nothing where the clock stands before `start`. Nothing is
/// claimed of the time.
#[verifier::external_body]
pub(crate) fn nanos_since(start: &std::time::SystemTime) -> (elapsed: Option<u128>) {
    match start.elapsed() {
        Ok(elapsed) => Some(elapsed.as_nanos()),
        Err(_) => None,
    }
}

/// Whether the clock has been read as saying that it is `time`.
pub closed spec fn clock_reads(time: std::time::SystemTime) -> bool {
    call_ensures(now, (), time)
}

/// Whether the clock has been read as saying that `elapsed` has passed since
/// `start`.
pub closed spec fn clock_says(start: std::time::SystemTime, elapsed: Option<u128>) -> bool {
    call_ensures(nanos_since, (&start,), elapsed)
}

/// Whether the client goes on, and since when it only waits for the server.
#[derive(Debug)]
pub struct ClientRunState {
    alive: bool,
    kill_timer_start: Option<std::time::SystemTime>,
}

impl ClientRunState {
    /// No shutdown has been requested.
    pub closed spec fn alive(&self) -> bool {
        self.alive
    }

    /// When the kill timer was started, if it was.
    pub closed spec fn kill_timer(&self) -> Option<std::time::SystemTime> {
        self.kill_timer_start
    }

    /// Whether the run goes on when the kill timer has run for `elapsed`
    /// nanoseconds. A clock that was set back counts as no time.
    pub open spec fn alive_after(&self, elapsed: Option<u128>) -> bool {
        self.alive() && (self.kill_timer() is Some ==> (match elapsed {
            Some(nanos) => nanos < KILL_TIMEOUT_NANOS,
            None => true,
        }))
    }

    pub fn new() -> (state: Self)
        ensures
            state.alive(),
            state.kill_timer() is None,
    {
        Self { alive: true, kill_timer_start: None }
    }

    /// Starts the kill timer now, unless it runs already.
    pub fn start_kill_timer(&mut self)
        ensures
            final(self).alive() == old(self).alive(),
            final(self).kill_timer() is Some,
            old(self).kill_timer() is Some ==> final(self).kill_timer() == old(self).kill_timer(),
            old(self).kill_timer() is None ==> (final(self).kill_timer() matches Some(time)
                && clock_reads(time)),
    {
        let time = now();
        assert(clock_reads(time));
        self.start_kill_timer_at(time);
    }

    /// Starts the kill timer at `time`, unless it runs already.
    pub fn start_kill_timer_at(&mut self, time: std::time::SystemTime)
        ensures
            final(self).alive() == old(self).alive(),
            final(self).kill_timer() == (match old(self).kill_timer() {
                Some(start) => Some(start),
                None => Some(time),
            }),
    {
        if self.kill_timer_start.is_none() {
            self.kill_timer_start = Some(time);
        }
    }

    /// Stops the client, and tells whether it was running.
    pub fn request_shutdown(&mut self) -> (was_alive: bool)
        ensures
            was_alive == old(self).alive(),
            !final(self).alive(),
            final(self).kill_timer() == old(self).kill_timer(),
    {
        let was_alive = self.alive;
        self.alive = false;
        was_alive
    }

    /// Makes the state as it was when it was new.
    pub fn reset(&mut self)
        ensures
            final(self).alive(),
            final(self).kill_timer() is None,
    {
        self.alive = true;
        self.kill_timer_start = None;
    }

    /// Whether the run goes on when the kill timer has run for `elapsed`
    /// nanoseconds.
    pub fn is_alive_after(&self, elapsed: Option<u128>) -> (alive: bool)
        ensures
            alive == self.alive_after(elapsed),
    {
        if !self.alive {
            return false;
        }
        if self.kill_timer_start.is_some() {
            let nanos: u128 = match elapsed {
                Some(nanos) => nanos,
                None => 0,
            };
            if nanos >= KILL_TIMEOUT_NANOS {
                return false;
            }
        }
        true
    }
}

/// A run that goes on once the kill timer has started does so for less than
/// five seconds, and for all of that time. A clock that was set back does not
/// end it.
pub proof fn law_kill_timer_runs_five_seconds(state: ClientRunState, elapsed: u128)
    requires
        state.alive(),
        state.kill_timer() is Some,
    ensures
        state.alive_after(Some(elapsed)) <==> elapsed < 5 * 1_000_000_000,
        state.alive_after(None),
{
}

/// Whether a run goes on is told by whether it was told to stop and, once the
/// kill timer has started, by whether less than five seconds have passed since,
/// as the clock says.
pub proof fn law_run_goes_on_by_the_clock(state: ClientRunState, alive: bool)
    requires
        call_ensures(ClientRunState::is_alive, (&state,), alive),
    ensures
        !state.alive() ==> !alive,
        state.alive() && state.kill_timer() is None ==> alive,
        state.alive() && state.kill_timer() is Some ==> exists|elapsed: Option<u128>| #[trigger]
            clock_says(state.kill_timer()->0, elapsed) && (alive <==> (elapsed matches Some(nanos)
                ==> nanos < 5 * 1_000_000_000)),
{
    if let Some(start) = state.kill_timer() {
        let elapsed = choose|elapsed: Option<u128>| #[trigger]
            clock_says(start, elapsed) && alive == state.alive_after(elapsed);
        assert(clock_says(start, elapsed));
    }
}

/// Each call changes what it is to change: the kill timer keeps the time at
/// which it was first started, shutdown tells whether the run went on, and a
/// reset makes the state as new.
pub proof fn law_run_calls_give_and_change(
    fresh: ClientRunState,
    started: &mut ClientRunState,
    time: std::time::SystemTime,
    stopped: &mut ClientRunState,
    was_alive: bool,
    renewed: &mut ClientRunState,
)
    requires
        call_ensures(ClientRunState::new, (), fresh),
        call_ensures(ClientRunState::start_kill_timer_at, (started, time), ()),
        call_ensures(ClientRunState::request_shutdown, (stopped,), was_alive),
        call_ensures(ClientRunState::reset, (renewed,), ()),
    ensures
        fresh.alive() && fresh.kill_timer() is None,
        old(started).kill_timer() is None ==> final(started).kill_timer() == Some(time),
        old(started).kill_timer() is Some ==> final(started).kill_timer() == old(started).kill_timer(),
        final(started).alive() == old(started).alive(),
        was_alive == old(stopped).alive(),
        !final(stopped).alive(),
        final(stopped).kill_timer() == old(stopped).kill_timer(),
        final(renewed).alive() && final(renewed).kill_timer() is None,
{
}

/// The kill timer starts at the time that the clock says, unless it runs
/// already.
pub proof fn law_kill_timer_starts_by_the_clock(state: &mut ClientRunState)
    requires
        call_ensures(ClientRunState::start_kill_timer, (state,), ()),
    ensures
        final(state).alive() == old(state).alive(),
        old(state).kill_timer() is Some ==> final(state).kill_timer() == old(state).kill_timer(),
        old(state).kill_timer() is None ==> (final(state).kill_timer() matches Some(time)
            && clock_reads(time)),
{
}

/// A run that has been told to stop does not go on, whatever the time is.
pub proof fn law_shutdown_ends_run(state: ClientRunState, elapsed: Option<u128>)
    requires
        !state.alive(),
    ensures
        !state.alive_after(elapsed),
{
}

/// What the clock is said to have been read as is what reading it gave, and
/// nothing else.
pub(crate) proof fn law_clock_is_read_as_it_is(
    time: std::time::SystemTime,
    start: std::time::SystemTime,
    elapsed: Option<u128>,
)
    ensures
        clock_reads(time) <==> call_ensures(now, (), time),
        clock_says(start, elapsed) <==> call_ensures(nanos_since, (&start,), elapsed),
{
}

/// A run that has waited too long for the server stays ended, however much
/// more time passes.
pub proof fn law_kill_timer_expiry_is_final(state: ClientRunState, elapsed: u128, later: u128)
    requires
        !state.alive_after(Some(elapsed)),
        elapsed <= later,
    ensures
        !state.alive_after(Some(later)),
{
}

/// A run whose kill timer has not been started goes on until it is told to
/// stop.
pub proof fn law_no_timeout_without_kill_timer(state: ClientRunState, elapsed: Option<u128>)
    requires
        state.kill_timer() is None,
    ensures
        state.alive_after(elapsed) == state.alive(),
{
}

impl RunState for ClientRunState {
    open spec fn stopped(&self) -> bool {
        !self.alive()
    }

    open spec fn running(&self) -> bool {
        self.alive() && self.kill_timer() is None
    }

    fn is_alive(&self) -> (alive: bool)
        ensures
            exists|elapsed: Option<u128>| alive == #[trigger] self.alive_after(elapsed),
            self.kill_timer() matches Some(start) ==> exists|elapsed: Option<u128>| #[trigger]
                clock_says(start, elapsed) && alive == self.alive_after(elapsed),
    {
        let elapsed: Option<u128> = match &self.kill_timer_start {
            Some(start) => nanos_since(start),
            None => None,
        };
        assert(self.kill_timer() matches Some(start) ==> clock_says(start, elapsed));
        self.is_alive_after(elapsed)
    }
}

impl Default for ClientRunState {
    fn default() -> (state: Self)
        ensures
            state.alive(),
            state.kill_timer() is None,
    {
        Self::new()
    }
}

} // verus!
