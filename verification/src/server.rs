//! The life cycle of the server: accepting connections, draining them on
//! shutdown, and stopping.
//!
//! The server is a state machine that is told what happened and says what to
//! do next. It keeps the count of the connections in flight: a connection is
//! counted from the moment it is accepted until its task has ended, however it
//! ended. The server stops only when that count is zero.

use vstd::prelude::*;

verus! {

/// How long to wait, in milliseconds, before looking again whether the
/// connections in flight have ended.
pub const DRAIN_POLL_INTERVAL_MS: u64 = 100;

/// The exit code of a clean shutdown.
pub const EXIT_SUCCESS: u8 = 0;

/// The exit code when startup or the final flush failed.
pub const EXIT_FAILURE: u8 = 1;

/// Where the server is in its life.
#[derive(Clone, Copy, Debug, PartialEq, Eq, Structural)]
pub enum Phase {
    /// New connections are taken.
    Accepting,
    /// No new connection is taken; the ones in flight are left to finish.
    Draining,
    /// No connection is in flight and none will be taken.
    Stopped,
}

/// What the server is told.
#[derive(Clone, Copy, Debug, PartialEq, Eq, Structural)]
pub enum Event {
    /// The listener has a new connection.
    ConnectionAvailable,
    /// The listener failed.
    AcceptFailed,
    /// A termination signal came in.
    ShutdownRequested,
    /// The task of a connection has ended, with or without an error.
    ConnectionClosed,
    /// It is time to look at the connections in flight.
    DrainTick,
}

/// What the server asks for in return.
#[derive(Clone, Copy, Debug, PartialEq, Eq, Structural)]
pub enum Action {
    /// Nothing.
    Ignore,
    /// Start a task that serves the new connection, and report its end with
    /// `ConnectionClosed`.
    Serve,
    /// Drop the new connection.
    Refuse,
    /// Leave the accept loop and send `DrainTick`.
    StopAccepting,
    /// Wait for this many milliseconds, then send `DrainTick` again.
    Wait { millis: u64 },
    /// Flush the telemetry and exit.
    Flush,
}

/// The state of a server: its phase, the number of connections in flight, and
/// how many connections it has taken and seen end since it started.
pub struct ServerState {
    pub phase: Phase,
    pub active: nat,
    pub accepted: nat,
    pub completed: nat,
}

/// What holds of a server at all times: the connections in flight are those
/// that were accepted and have not ended, and a stopped server has none.
pub open spec fn consistent(s: ServerState) -> bool {
    &&& s.completed <= s.accepted
    &&& s.active == s.accepted - s.completed
    &&& s.phase == Phase::Stopped ==> s.active == 0
}

/// The state in which a server starts.
pub open spec fn initial() -> ServerState {
    ServerState { phase: Phase::Accepting, active: 0, accepted: 0, completed: 0 }
}

/// The state after `event`, and the action that answers it. `limit` is the
/// largest count of connections in flight that the server can hold.
pub open spec fn next(s: ServerState, event: Event, limit: nat) -> (ServerState, Action) {
    match event {
        Event::ConnectionAvailable => if s.phase == Phase::Accepting && s.active < limit {
            (ServerState { active: s.active + 1, accepted: s.accepted + 1, ..s }, Action::Serve)
        } else {
            (s, Action::Refuse)
        },
        Event::AcceptFailed | Event::ShutdownRequested => if s.phase == Phase::Accepting {
            (ServerState { phase: Phase::Draining, ..s }, Action::StopAccepting)
        } else {
            (s, Action::Ignore)
        },
        Event::ConnectionClosed => if s.active > 0 {
            (
                ServerState { active: (s.active - 1) as nat, completed: s.completed + 1, ..s },
                Action::Ignore,
            )
        } else {
            (s, Action::Ignore)
        },
        Event::DrainTick => if s.phase == Phase::Draining {
            if s.active == 0 {
                (ServerState { phase: Phase::Stopped, ..s }, Action::Flush)
            } else {
                (s, Action::Wait { millis: DRAIN_POLL_INTERVAL_MS })
            }
        } else {
            (s, Action::Ignore)
        },
    }
}

/// The state after a run of events, from `s` on.
pub open spec fn run(s: ServerState, events: Seq<Event>, limit: nat) -> ServerState
    decreases events.len(),
{
    if events.len() == 0 {
        s
    } else {
        next(run(s, events.drop_last(), limit), events.last(), limit).0
    }
}

/// The place of a phase in the order in which a server goes through them.
pub open spec fn rank(phase: Phase) -> nat {
    match phase {
        Phase::Accepting => 0,
        Phase::Draining => 1,
        Phase::Stopped => 2,
    }
}

/// The server.
pub struct Server {
    phase: Phase,
    active_tasks: usize,
    accepted: Ghost<nat>,
    completed: Ghost<nat>,
}

impl View for Server {
    type V = ServerState;

    closed spec fn view(&self) -> ServerState {
        ServerState {
            phase: self.phase,
            active: self.active_tasks as nat,
            accepted: self.accepted@,
            completed: self.completed@,
        }
    }
}

impl Server {
    #[verifier::type_invariant]
    spec fn is_consistent(self) -> bool {
        consistent(self@)
    }

    /// A server that takes connections and has none in flight.
    pub fn new() -> (server: Self)
        ensures
            server@ == initial(),
    {
        Server {
            phase: Phase::Accepting,
            active_tasks: 0,
            accepted: Ghost(0),
            completed: Ghost(0),
        }
    }

    /// The phase that the server is in.
    pub fn phase(&self) -> (phase: Phase)
        ensures
            phase == self@.phase,
    {
        self.phase
    }

    /// The number of connections in flight.
    pub fn active_tasks(&self) -> (active: usize)
        ensures
            active == self@.active,
            active == self@.accepted - self@.completed,
    {
        proof {
            use_type_invariant(self);
        }
        self.active_tasks
    }

    /// Whether the server still takes connections.
    pub fn is_accepting(&self) -> (accepting: bool)
        ensures
            accepting == (self@.phase == Phase::Accepting),
    {
        self.phase == Phase::Accepting
    }

    /// Whether the server has stopped.
    pub fn is_stopped(&self) -> (stopped: bool)
        ensures
            stopped == (self@.phase == Phase::Stopped),
            stopped ==> self@.active == 0,
    {
        proof {
            use_type_invariant(self);
        }
        self.phase == Phase::Stopped
    }

    /// Takes in one event and answers with what to do.
    ///
    /// While accepting, a new connection is counted and served; a shutdown
    /// request or a failure of the listener ends the accepting for good. From
    /// then on new connections are refused and further shutdown requests
    /// change nothing. The end of a connection lowers the count in any phase,
    /// and never below zero. A drain tick stops the server if no connection is
    /// in flight, and asks to wait and tick again otherwise.
    pub fn step(&mut self, event: Event) -> (action: Action)
        ensures
            (final(self)@, action) == next(old(self)@, event, usize::MAX as nat),
            consistent(final(self)@),
    {
        proof {
            use_type_invariant(&*self);
            lemma_next_consistent(self@, event, usize::MAX as nat);
        }
        let ghost before = self@;
        let (phase, active_tasks, accepted, completed, action) = match event {
            Event::ConnectionAvailable => {
                if self.phase == Phase::Accepting && self.active_tasks < usize::MAX {
                    (
                        self.phase,
                        self.active_tasks + 1,
                        Ghost(self.accepted@ + 1),
                        self.completed,
                        Action::Serve,
                    )
                } else {
                    (self.phase, self.active_tasks, self.accepted, self.completed, Action::Refuse)
                }
            },
            Event::AcceptFailed | Event::ShutdownRequested => {
                if self.phase == Phase::Accepting {
                    (
                        Phase::Draining,
                        self.active_tasks,
                        self.accepted,
                        self.completed,
                        Action::StopAccepting,
                    )
                } else {
                    (self.phase, self.active_tasks, self.accepted, self.completed, Action::Ignore)
                }
            },
            Event::ConnectionClosed => {
                if self.active_tasks > 0 {
                    (
                        self.phase,
                        self.active_tasks - 1,
                        self.accepted,
                        Ghost(self.completed@ + 1),
                        Action::Ignore,
                    )
                } else {
                    (self.phase, self.active_tasks, self.accepted, self.completed, Action::Ignore)
                }
            },
            Event::DrainTick => {
                if self.phase == Phase::Draining {
                    if self.active_tasks == 0 {
                        (
                            Phase::Stopped,
                            self.active_tasks,
                            self.accepted,
                            self.completed,
                            Action::Flush,
                        )
                    } else {
                        (
                            self.phase,
                            self.active_tasks,
                            self.accepted,
                            self.completed,
                            Action::Wait { millis: DRAIN_POLL_INTERVAL_MS },
                        )
                    }
                } else {
                    (self.phase, self.active_tasks, self.accepted, self.completed, Action::Ignore)
                }
            },
        };
        *self = Server { phase, active_tasks, accepted, completed };
        action
    }
}

/// The exit code of the process, given whether the final flush of the
/// telemetry went well.
pub fn exit_code(flushed: bool) -> (code: u8)
    ensures
        code == if flushed { EXIT_SUCCESS } else { EXIT_FAILURE },
{
    if flushed {
        EXIT_SUCCESS
    } else {
        EXIT_FAILURE
    }
}

/// Every step keeps the count of connections in flight equal to the number
/// of connections accepted less the number that ended, and never below zero.
pub proof fn lemma_next_consistent(s: ServerState, event: Event, limit: nat)
    requires
        consistent(s),
    ensures
        consistent(next(s, event, limit).0),
{
}

/// At all times, whatever events came in and in whatever order, the count of
/// connections in flight is the number of connections accepted less the
/// number that ended, and a stopped server has none in flight.
pub proof fn lemma_run_consistent(events: Seq<Event>, limit: nat)
    ensures
        consistent(run(initial(), events, limit)),
    decreases events.len(),
{
    if events.len() > 0 {
        lemma_run_consistent(events.drop_last(), limit);
        lemma_next_consistent(run(initial(), events.drop_last(), limit), events.last(), limit);
    }
}

/// A second shutdown request changes nothing: the state after two requests
/// is the state after one, and the second asks for no action.
pub proof fn lemma_shutdown_idempotent(s: ServerState, limit: nat)
    ensures
        next(next(s, Event::ShutdownRequested, limit).0, Event::ShutdownRequested, limit) == (
            next(s, Event::ShutdownRequested, limit).0,
            Action::Ignore,
        ),
{
}

/// A server never goes back to an earlier phase: once it has left the
/// accepting phase no event reopens it.
pub proof fn lemma_phase_never_goes_back(s: ServerState, event: Event, limit: nat)
    ensures
        rank(s.phase) <= rank(next(s, event, limit).0.phase),
{
}

/// Once shutdown is under way no connection is taken: a new connection is
/// refused and leaves the state as it is.
pub proof fn lemma_no_accept_after_shutdown(s: ServerState, limit: nat)
    requires
        s.phase != Phase::Accepting,
    ensures
        next(s, Event::ConnectionAvailable, limit) == (s, Action::Refuse),
{
}

/// A shutdown request ends the accepting at once, whatever is in flight.
pub proof fn lemma_shutdown_stops_accepting(s: ServerState, limit: nat)
    ensures
        next(s, Event::ShutdownRequested, limit).0.phase != Phase::Accepting,
        next(s, Event::ShutdownRequested, limit).0.active == s.active,
{
}

/// The state after `n` connections have ended, from `s` on.
pub open spec fn after_closing(s: ServerState, n: nat, limit: nat) -> ServerState
    decreases n,
{
    if n == 0 {
        s
    } else {
        next(after_closing(s, (n - 1) as nat, limit), Event::ConnectionClosed, limit).0
    }
}

/// A draining server whose connections in flight have all ended stops on the
/// next drain tick, and asks for the flush; before they have all ended a
/// drain tick only asks to wait.
pub proof fn lemma_drain_completes(s: ServerState, n: nat, limit: nat)
    requires
        consistent(s),
        s.phase == Phase::Draining,
        n <= s.active,
    ensures
        after_closing(s, n, limit).phase == Phase::Draining,
        after_closing(s, n, limit).active == s.active - n,
        consistent(after_closing(s, n, limit)),
        n == s.active ==> next(after_closing(s, n, limit), Event::DrainTick, limit) == (
            ServerState { phase: Phase::Stopped, ..after_closing(s, n, limit) },
            Action::Flush,
        ),
        n < s.active ==> next(after_closing(s, n, limit), Event::DrainTick, limit) == (
            after_closing(s, n, limit),
            Action::Wait { millis: DRAIN_POLL_INTERVAL_MS },
        ),
    decreases n,
{
    if n > 0 {
        lemma_drain_completes(s, (n - 1) as nat, limit);
    }
}

/// The server stops only on a drain tick that finds no connection in flight.
pub proof fn lemma_stops_only_when_drained(s: ServerState, event: Event, limit: nat)
    requires
        s.phase != Phase::Stopped,
        next(s, event, limit).0.phase == Phase::Stopped,
    ensures
        event == Event::DrainTick,
        s.phase == Phase::Draining,
        s.active == 0,
        next(s, event, limit).1 == Action::Flush,
{
}

} // verus!
