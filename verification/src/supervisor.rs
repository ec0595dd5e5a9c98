//! The connection supervisor: a state machine that decides when to attempt a
//! connection, how long to wait after a failure, and when to give up. The
//! caller performs each action and reports what happened as the next signal.

use vstd::prelude::*;

verus! {

/// How failed attempts are retried.
#[derive(Clone, Copy, Debug, PartialEq, Eq, Structural)]
pub enum RetryPolicy {
    /// Give up at the `max`-th failure; wait `interval` seconds between attempts.
    BoundedBackoff { max: u32, interval: u64 },
    /// Retry until an attempt succeeds; wait `interval` seconds between attempts.
    UnboundedBackoff { interval: u64 },
}

/// Failures after which the first connection is given up.
pub const MAX_RETRIES: u32 = 10;

/// Seconds between attempts of the first connection.
pub const STARTUP_BACKOFF_SECS: u64 = 1;

/// Seconds between attempts of an explicit reconnect.
pub const RECONNECT_BACKOFF_SECS: u64 = 5;

/// The policy of the first connection: bounded, with a short wait.
pub open spec fn startup_policy() -> RetryPolicy {
    RetryPolicy::BoundedBackoff { max: MAX_RETRIES, interval: STARTUP_BACKOFF_SECS }
}

/// The policy of an explicit reconnect: unbounded, with a longer wait.
pub open spec fn reconnect_policy() -> RetryPolicy {
    RetryPolicy::UnboundedBackoff { interval: RECONNECT_BACKOFF_SECS }
}

/// Where the connection stands.
#[derive(Clone, Copy, Debug, PartialEq, Eq, Structural)]
pub enum Phase {
    Idle,
    Connecting,
    Connected,
    Ended,
}

/// What the caller reports to the supervisor.
#[derive(Clone, Copy, Debug, PartialEq, Eq, Structural)]
pub enum Signal {
    /// The client was constructed.
    Start,
    /// A reconnect was asked for from outside.
    Reconnect,
    /// The last attempt produced a transport.
    ConnectSucceeded,
    /// The last attempt failed.
    ConnectFailed,
    /// The reader of the transport reported an error or the end of the stream.
    TransportEnded,
}

/// What the supervisor asks the caller to do next.
#[derive(Clone, Copy, Debug, PartialEq, Eq, Structural)]
pub enum Action {
    /// Attempt to connect now.
    Attempt,
    /// Wait the given number of seconds, then attempt to connect.
    RetryAfter(u64),
    /// Drop the cached state of the outbound client, clear the transport that
    /// the handle holds, then attempt to connect.
    Restart,
    /// Put the transport that the attempt produced into the handle.
    Install,
    /// Stop attempting: the retries are exhausted and the stop signal is due.
    GiveUp,
    /// Raise the stop signal: the connection has ended.
    SignalStop,
    /// The signal does not apply in this phase; what came with it is dropped.
    Ignore,
}

impl Action {
    /// The action leads to a connection attempt.
    pub open spec fn is_attempt(self) -> bool {
        self is Attempt || self is RetryAfter || self is Restart
    }
}

/// The supervisor of one connection handle.
#[derive(Clone, Copy, Debug, PartialEq, Eq, Structural)]
pub struct Supervisor {
    /// Where the connection stands.
    pub phase: Phase,
    /// The policy in force for the current run of attempts.
    pub policy: RetryPolicy,
    /// Failures since the current run of attempts began.
    pub retries: u32,
    /// The handle holds a transport.
    pub holds_transport: bool,
}

/// The state and the action that follow a signal.
pub open spec fn step_spec(s: Supervisor, signal: Signal) -> (Supervisor, Action) {
    match signal {
        Signal::Start => if s.phase is Idle {
            (Supervisor { phase: Phase::Connecting, ..s }, Action::Attempt)
        } else {
            (s, Action::Ignore)
        },
        Signal::Reconnect => (
            Supervisor {
                phase: Phase::Connecting,
                policy: reconnect_policy(),
                holds_transport: false,
                ..s
            },
            Action::Restart,
        ),
        Signal::ConnectSucceeded => if s.phase is Connecting {
            (
                Supervisor { phase: Phase::Connected, retries: 0, holds_transport: true, ..s },
                Action::Install,
            )
        } else {
            (s, Action::Ignore)
        },
        Signal::ConnectFailed => if s.phase is Connecting {
            match s.policy {
                RetryPolicy::BoundedBackoff { max, interval } => if s.retries + 1 >= max {
                    (
                        Supervisor { phase: Phase::Ended, retries: (s.retries + 1) as u32, ..s },
                        Action::GiveUp,
                    )
                } else {
                    (
                        Supervisor { retries: (s.retries + 1) as u32, ..s },
                        Action::RetryAfter(interval),
                    )
                },
                RetryPolicy::UnboundedBackoff { interval } => (s, Action::RetryAfter(interval)),
            }
        } else {
            (s, Action::Ignore)
        },
        Signal::TransportEnded => if s.phase is Connected {
            (Supervisor { phase: Phase::Ended, ..s }, Action::SignalStop)
        } else {
            (s, Action::Ignore)
        },
    }
}

/// The state after a series of signals, taken first to last.
pub open spec fn run(s: Supervisor, signals: Seq<Signal>) -> Supervisor
    decreases signals.len(),
{
    if signals.len() == 0 {
        s
    } else {
        step_spec(run(s, signals.drop_last()), signals.last()).0
    }
}

/// The actions that a series of signals brings, in order.
pub open spec fn actions_of(s: Supervisor, signals: Seq<Signal>) -> Seq<Action>
    decreases signals.len(),
{
    if signals.len() == 0 {
        Seq::empty()
    } else {
        actions_of(s, signals.drop_last()).push(
            step_spec(run(s, signals.drop_last()), signals.last()).1,
        )
    }
}

/// How many transports a handle holds after the caller has carried out a
/// series of actions on a handle that held `live` of them: an install adds one,
/// a restart clears the handle.
pub open spec fn transports_after(live: nat, actions: Seq<Action>) -> nat
    decreases actions.len(),
{
    if actions.len() == 0 {
        live
    } else {
        let before = transports_after(live, actions.drop_last());
        match actions.last() {
            Action::Install => before + 1,
            Action::Restart => 0,
            _ => before,
        }
    }
}

/// How many of a series of actions lead to a connection attempt.
pub open spec fn attempts_in(actions: Seq<Action>) -> nat
    decreases actions.len(),
{
    if actions.len() == 0 {
        0
    } else {
        attempts_in(actions.drop_last()) + if actions.last().is_attempt() {
            1nat
        } else {
            0nat
        }
    }
}

/// A start followed by `failures` failed attempts.
pub open spec fn start_then_failures(failures: nat) -> Seq<Signal> {
    seq![Signal::Start] + Seq::new(failures, |i: int| Signal::ConnectFailed)
}

impl Supervisor {
    /// The state is one that the machine can be in: the handle holds a
    /// transport when connected and none before; nothing is counted outside
    /// a run of attempts; and under a bounded policy the count stays under
    /// the bound while attempts are due.
    pub open spec fn wf(self) -> bool {
        &&& self.phase is Idle ==> !self.holds_transport && self.retries == 0
        &&& self.phase is Connecting ==> !self.holds_transport
        &&& self.phase is Connected ==> self.holds_transport && self.retries == 0
        &&& (self.phase is Idle || self.phase is Connecting) ==> match self.policy {
            RetryPolicy::BoundedBackoff { max, interval } => self.retries < max,
            RetryPolicy::UnboundedBackoff { interval } => true,
        }
    }

    /// Tells whether the state is one that the machine can be in.
    pub fn is_wf(&self) -> (r: bool)
        ensures
            r == self.wf(),
    {
        let counted = match self.policy {
            RetryPolicy::BoundedBackoff { max, interval: _ } => self.retries < max,
            RetryPolicy::UnboundedBackoff { interval: _ } => true,
        };
        match self.phase {
            Phase::Idle => !self.holds_transport && self.retries == 0 && counted,
            Phase::Connecting => !self.holds_transport && counted,
            Phase::Connected => self.holds_transport && self.retries == 0,
            Phase::Ended => true,
        }
    }

    /// The number of transports that the handle holds.
    pub open spec fn transports(self) -> nat {
        if self.holds_transport {
            1
        } else {
            0
        }
    }

    /// A supervisor that has not started, with the policy of the first
    /// connection.
    pub fn new() -> (r: Supervisor)
        ensures
            r.wf(),
            r.phase is Idle,
            r.policy == startup_policy(),
    {
        Supervisor {
            phase: Phase::Idle,
            policy: RetryPolicy::BoundedBackoff { max: MAX_RETRIES, interval: STARTUP_BACKOFF_SECS },
            retries: 0,
            holds_transport: false,
        }
    }

    /// A supervisor that has not started, with a bounded policy of the
    /// caller's choice. A bound of zero is taken as one: the first failure ends
    /// the run.
    pub fn bounded(max: u32, interval: u64) -> (r: Supervisor)
        ensures
            r.wf(),
            r.phase is Idle,
            r.policy == (RetryPolicy::BoundedBackoff { max: if max == 0 { 1u32 } else { max }, interval }),
    {
        Supervisor {
            phase: Phase::Idle,
            policy: RetryPolicy::BoundedBackoff { max: if max == 0 { 1 } else { max }, interval },
            retries: 0,
            holds_transport: false,
        }
    }

    /// Takes one signal: moves to the next state and returns what the caller
    /// is to do.
    pub fn step(&mut self, signal: Signal) -> (action: Action)
        requires
            old(self).wf(),
        ensures
            final(self).wf(),
            (*final(self), action) == step_spec(*old(self), signal),
    {
        match signal {
            Signal::Start => {
                if self.phase == Phase::Idle {
                    self.phase = Phase::Connecting;
                    Action::Attempt
                } else {
                    Action::Ignore
                }
            },
            Signal::Reconnect => {
                self.phase = Phase::Connecting;
                self.policy = RetryPolicy::UnboundedBackoff { interval: RECONNECT_BACKOFF_SECS };
                self.holds_transport = false;
                Action::Restart
            },
            Signal::ConnectSucceeded => {
                if self.phase == Phase::Connecting {
                    self.phase = Phase::Connected;
                    self.retries = 0;
                    self.holds_transport = true;
                    Action::Install
                } else {
                    Action::Ignore
                }
            },
            Signal::ConnectFailed => {
                if self.phase == Phase::Connecting {
                    match self.policy {
                        RetryPolicy::BoundedBackoff { max, interval } => {
                            self.retries = self.retries + 1;
                            if self.retries >= max {
                                self.phase = Phase::Ended;
                                Action::GiveUp
                            } else {
                                Action::RetryAfter(interval)
                            }
                        },
                        RetryPolicy::UnboundedBackoff { interval } => Action::RetryAfter(interval),
                    }
                } else {
                    Action::Ignore
                }
            },
            Signal::TransportEnded => {
                if self.phase == Phase::Connected {
                    self.phase = Phase::Ended;
                    Action::SignalStop
                } else {
                    Action::Ignore
                }
            },
        }
    }
}

/// At most one transport: whatever signals arrive, and in whatever order, a
/// handle that held at most one transport holds zero or one after the caller
/// has carried out the supervisor's actions.
pub proof fn lemma_at_most_one_transport(s: Supervisor, signals: Seq<Signal>)
    requires
        s.wf(),
    ensures
        run(s, signals).wf(),
        transports_after(s.transports(), actions_of(s, signals)) == run(s, signals).transports(),
        transports_after(s.transports(), actions_of(s, signals)) <= 1,
    decreases signals.len(),
{
    if signals.len() > 0 {
        lemma_at_most_one_transport(s, signals.drop_last());
        let actions = actions_of(s, signals);
        assert(actions.drop_last() =~= actions_of(s, signals.drop_last()));
    }
}

/// While the failures stay under the bound, a started supervisor keeps
/// connecting, has counted every failure, and has asked for one attempt at
/// the start and one more after each failure.
pub proof fn lemma_failures_under_bound(s: Supervisor, max: u32, interval: u64, failures: nat)
    requires
        s.wf(),
        s.phase is Idle,
        s.policy == (RetryPolicy::BoundedBackoff { max, interval }),
        failures < max,
    ensures
        run(s, start_then_failures(failures)).phase is Connecting,
        run(s, start_then_failures(failures)).policy == s.policy,
        run(s, start_then_failures(failures)).retries == failures,
        !run(s, start_then_failures(failures)).holds_transport,
        attempts_in(actions_of(s, start_then_failures(failures))) == failures + 1,
    decreases failures,
{
    let signals = start_then_failures(failures);
    let actions = actions_of(s, signals);
    if failures == 0 {
        assert(signals =~= seq![Signal::Start]);
        assert(signals.drop_last() =~= Seq::<Signal>::empty());
        assert(run(s, signals.drop_last()) == s);
        assert(actions_of(s, signals.drop_last()) =~= Seq::<Action>::empty());
        assert(actions.drop_last() =~= Seq::<Action>::empty());
        assert(attempts_in(actions.drop_last()) == 0);
        assert(actions.last() == Action::Attempt);
    } else {
        lemma_failures_under_bound(s, max, interval, (failures - 1) as nat);
        assert(signals.drop_last() =~= start_then_failures((failures - 1) as nat));
        assert(signals.last() == Signal::ConnectFailed);
        assert(actions.drop_last() =~= actions_of(s, signals.drop_last()));
    }
}

/// Bounded retries: a supervisor with a bound of `max` whose every attempt
/// fails makes exactly `max` attempts, then gives up and has ended.
pub proof fn lemma_bounded_retries(s: Supervisor, max: u32, interval: u64)
    requires
        s.wf(),
        s.phase is Idle,
        s.policy == (RetryPolicy::BoundedBackoff { max, interval }),
    ensures
        run(s, start_then_failures(max as nat)).phase is Ended,
        attempts_in(actions_of(s, start_then_failures(max as nat))) == max,
        actions_of(s, start_then_failures(max as nat)).last() == Action::GiveUp,
{
    let signals = start_then_failures(max as nat);
    let actions = actions_of(s, signals);
    lemma_failures_under_bound(s, max, interval, (max - 1) as nat);
    assert(signals.drop_last() =~= start_then_failures((max - 1) as nat));
    assert(signals.last() == Signal::ConnectFailed);
    assert(actions.drop_last() =~= actions_of(s, signals.drop_last()));
}

/// The count of failures goes back to zero only when an attempt succeeds.
pub proof fn lemma_retries_reset_only_on_success(s: Supervisor, signal: Signal)
    requires
        s.wf(),
        s.retries != 0,
        step_spec(s, signal).0.retries == 0,
    ensures
        signal == Signal::ConnectSucceeded,
        s.phase is Connecting,
        step_spec(s, signal).0.phase is Connected,
{
}

/// How often in a row the connection may be lost before the caller waits
/// longer to rebuild the client.
pub const QUICK_REBUILDS: u32 = 5;

/// Seconds to wait before a quick rebuild.
pub const QUICK_REBUILD_SECS: u64 = 5;

/// Seconds to wait once the quick rebuilds are used up.
pub const SLOW_REBUILD_SECS: u64 = 30;

/// Paces the rebuilding of the whole client after the stop signal: a short
/// wait for the first losses in a row, then one long wait, after which the
/// count starts again.
#[derive(Clone, Copy, Debug, PartialEq, Eq, Structural)]
pub struct RebuildPacer {
    /// Losses in a row since the last long wait.
    pub losses: u32,
}

/// The pacer and the seconds to wait after one more loss.
pub open spec fn pace_spec(pacer: RebuildPacer) -> (RebuildPacer, u64) {
    if pacer.losses + 1 >= QUICK_REBUILDS {
        (RebuildPacer { losses: 0 }, SLOW_REBUILD_SECS)
    } else {
        (RebuildPacer { losses: (pacer.losses + 1) as u32 }, QUICK_REBUILD_SECS)
    }
}

impl RebuildPacer {
    /// A pacer that has seen no loss.
    pub fn new() -> (r: RebuildPacer)
        ensures
            r.losses == 0,
    {
        RebuildPacer { losses: 0 }
    }

    /// Counts one more loss of the connection and returns the seconds to wait
    /// before the client is rebuilt.
    pub fn on_connection_lost(&mut self) -> (wait: u64)
        ensures
            (*final(self), wait) == pace_spec(*old(self)),
    {
        if self.losses >= QUICK_REBUILDS - 1 {
            self.losses = 0;
            SLOW_REBUILD_SECS
        } else {
            self.losses = self.losses + 1;
            QUICK_REBUILD_SECS
        }
    }
}

/// Once ended, the supervisor asks for no attempt and stays ended until a
/// reconnect is asked for.
pub proof fn lemma_ended_stays_ended(s: Supervisor, signal: Signal)
    requires
        s.phase is Ended,
        signal != Signal::Reconnect,
    ensures
        step_spec(s, signal).0 == s,
        step_spec(s, signal).1 == Action::Ignore,
        !step_spec(s, signal).1.is_attempt(),
{
}

} // verus!
