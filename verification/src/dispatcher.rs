//! The state dispatcher: waits for a transport, subscribes, and for every
//! event decides which callbacks run, in which order.

use crate::constants::{lemma_state_names_distinct, GameState};
use crate::decoder::{LcuData, LcuDataView};
use crate::json::{as_str, Json};
use crate::lcu_api::GAMEFLOW_PHASE;
use crate::registry::CallbackRegistry;
use crate::text::str_eq;
use vstd::prelude::*;

verus! {

/// Checks for a transport after which the dispatcher stops waiting.
pub const MAX_CONNECTION_ATTEMPTS: u32 = 30;

/// Seconds between two checks for a transport.
pub const POLL_INTERVAL_SECS: u64 = 1;

/// Where an event goes.
#[derive(Clone, Copy, Debug, PartialEq, Eq, Structural)]
pub enum Route {
    /// The event is not about the lifecycle phase: nothing runs.
    Ignored,
    /// The application entered this state: its callbacks run.
    State(GameState),
    /// The event is about the lifecycle phase, but its body is no string or
    /// names no known state.
    Unrecognized,
}

/// Why an event could not be dispatched.
#[derive(Clone, Copy, Debug, PartialEq, Eq, Structural)]
pub enum DispatchError {
    /// The event is about the lifecycle phase and names no known state.
    UnknownState,
}

/// The state with a given wire name.
pub open spec fn state_named(name: Seq<char>) -> GameState {
    choose|s: GameState| s.name() == name
}

/// Where an event goes: by its `uri` first, then by the state that its body
/// names.
pub open spec fn route_of(event: LcuDataView) -> Route {
    if event.uri != GAMEFLOW_PHASE@ {
        Route::Ignored
    } else {
        match event.data {
            Json::Text(name) => if GameState::is_name(name) {
                Route::State(state_named(name))
            } else {
                Route::Unrecognized
            },
            _ => Route::Unrecognized,
        }
    }
}

/// Decides where an event goes.
pub fn route(event: &LcuData) -> (r: Route)
    ensures
        r == route_of(event@),
{
    if !str_eq(event.uri.as_str(), GAMEFLOW_PHASE) {
        return Route::Ignored;
    }
    match as_str(&event.data) {
        Some(name) => match GameState::try_from_value(name) {
            Some(state) => {
                proof {
                    lemma_state_names_distinct(state, state_named(name@));
                }
                Route::State(state)
            },
            None => Route::Unrecognized,
        },
        None => Route::Unrecognized,
    }
}

/// The callbacks to run for an event, first to last: those registered for
/// the state that the event names, in registration order; `None` for an event
/// that is not about the lifecycle phase. The caller runs each callback to
/// completion before it starts the next. An event about the lifecycle phase
/// that names no known state is not accepted: see [`dispatch`].
pub fn match_data<'a, C>(actions: &'a CallbackRegistry<C>, lcu_data: &LcuData) -> (r: Option<
    &'a Vec<C>,
>)
    requires
        actions.wf(),
        !(route_of(lcu_data@) is Unrecognized),
    ensures
        r is Some <==> route_of(lcu_data@) is State,
        r is Some ==> r->0@ == actions.callbacks(route_of(lcu_data@)->State_0),
{
    match route(lcu_data) {
        Route::State(state) => Some(actions.callbacks_for(state)),
        _ => None,
    }
}

/// As [`match_data`], for every event: one about the lifecycle phase that
/// names no known state is reported as an error.
pub fn dispatch<'a, C>(actions: &'a CallbackRegistry<C>, lcu_data: &LcuData) -> (r: Result<
    Option<&'a Vec<C>>,
    DispatchError,
>)
    requires
        actions.wf(),
    ensures
        r is Err <==> route_of(lcu_data@) is Unrecognized,
        r is Ok ==> (r->Ok_0 is Some <==> route_of(lcu_data@) is State),
        r is Ok && r->Ok_0 is Some ==> r->Ok_0->0@ == actions.callbacks(
            route_of(lcu_data@)->State_0,
        ),
{
    match route(lcu_data) {
        Route::Unrecognized => Err(DispatchError::UnknownState),
        _ => Ok(match_data(actions, lcu_data)),
    }
}

/// Where the dispatcher stands.
#[derive(Clone, Copy, Debug, PartialEq, Eq, Structural)]
pub enum DispatcherPhase {
    /// Waiting for a transport; so many checks found none.
    Waiting(u32),
    /// Subscribed and receiving events.
    Receiving,
    /// The dispatcher has stopped.
    Stopped,
}

/// What the caller reports to the dispatcher.
#[derive(Clone, Copy, Debug, PartialEq, Eq, Structural)]
pub enum Notice {
    /// The handle holds a transport.
    TransportAvailable,
    /// The handle holds no transport yet.
    TransportMissing,
    /// The channel delivered an event.
    Received,
    /// The subscriber fell behind and lost events.
    Lagged,
    /// The producer is gone.
    Closed,
}

/// What the dispatcher asks the caller to do next.
#[derive(Clone, Copy, Debug, PartialEq, Eq, Structural)]
pub enum Directive {
    /// Subscribe to the broadcaster, then receive.
    Subscribe,
    /// Wait the given number of seconds, then check for a transport again.
    PollAfter(u64),
    /// Run the callbacks for the event that was received, then receive.
    Dispatch,
    /// Receive the next event; what was lost stays lost.
    KeepReceiving,
    /// Raise the stop signal and end the loop.
    SignalStop,
    /// The notice does not apply in this phase.
    Ignore,
}

/// The phase and the directive that follow a notice.
pub open spec fn advance_spec(phase: DispatcherPhase, notice: Notice) -> (
    DispatcherPhase,
    Directive,
) {
    match phase {
        DispatcherPhase::Waiting(misses) => match notice {
            Notice::TransportAvailable => (DispatcherPhase::Receiving, Directive::Subscribe),
            Notice::TransportMissing => if misses + 1 >= MAX_CONNECTION_ATTEMPTS {
                (DispatcherPhase::Stopped, Directive::SignalStop)
            } else {
                (
                    DispatcherPhase::Waiting((misses + 1) as u32),
                    Directive::PollAfter(POLL_INTERVAL_SECS),
                )
            },
            _ => (phase, Directive::Ignore),
        },
        DispatcherPhase::Receiving => match notice {
            Notice::Received => (phase, Directive::Dispatch),
            Notice::Lagged => (phase, Directive::KeepReceiving),
            Notice::Closed => (DispatcherPhase::Stopped, Directive::SignalStop),
            _ => (phase, Directive::Ignore),
        },
        DispatcherPhase::Stopped => (phase, Directive::Ignore),
    }
}

/// The loop of the dispatcher, as a state machine.
#[derive(Clone, Copy, Debug, PartialEq, Eq, Structural)]
pub struct Dispatcher {
    pub phase: DispatcherPhase,
}

impl Dispatcher {
    /// A dispatcher that waits for a transport and has not checked yet.
    pub fn new() -> (r: Dispatcher)
        ensures
            r.phase == DispatcherPhase::Waiting(0),
    {
        Dispatcher { phase: DispatcherPhase::Waiting(0) }
    }

    /// Takes one notice: moves to the next phase and returns what the caller
    /// is to do.
    pub fn advance(&mut self, notice: Notice) -> (directive: Directive)
        ensures
            (final(self).phase, directive) == advance_spec(old(self).phase, notice),
    {
        match self.phase {
            DispatcherPhase::Waiting(misses) => match notice {
                Notice::TransportAvailable => {
                    self.phase = DispatcherPhase::Receiving;
                    Directive::Subscribe
                },
                Notice::TransportMissing => {
                    if misses >= MAX_CONNECTION_ATTEMPTS - 1 {
                        self.phase = DispatcherPhase::Stopped;
                        Directive::SignalStop
                    } else {
                        self.phase = DispatcherPhase::Waiting(misses + 1);
                        Directive::PollAfter(POLL_INTERVAL_SECS)
                    }
                },
                _ => Directive::Ignore,
            },
            DispatcherPhase::Receiving => match notice {
                Notice::Received => Directive::Dispatch,
                Notice::Lagged => Directive::KeepReceiving,
                Notice::Closed => {
                    self.phase = DispatcherPhase::Stopped;
                    Directive::SignalStop
                },
                _ => Directive::Ignore,
            },
            DispatcherPhase::Stopped => Directive::Ignore,
        }
    }
}

/// The phase after a series of notices, taken first to last.
pub open spec fn advance_all(phase: DispatcherPhase, notices: Seq<Notice>) -> DispatcherPhase
    decreases notices.len(),
{
    if notices.len() == 0 {
        phase
    } else {
        advance_spec(advance_all(phase, notices.drop_last()), notices.last()).0
    }
}

/// Bounded waiting: a dispatcher that never finds a transport keeps waiting
/// while the checks stay under the bound, and has stopped, without ever
/// subscribing, once their number reaches it.
pub proof fn lemma_waiting_is_bounded(checks: nat)
    ensures
        checks < MAX_CONNECTION_ATTEMPTS ==> advance_all(
            DispatcherPhase::Waiting(0),
            Seq::new(checks, |i: int| Notice::TransportMissing),
        ) == DispatcherPhase::Waiting(checks as u32),
        checks >= MAX_CONNECTION_ATTEMPTS ==> advance_all(
            DispatcherPhase::Waiting(0),
            Seq::new(checks, |i: int| Notice::TransportMissing),
        ) == DispatcherPhase::Stopped,
    decreases checks,
{
    let notices = Seq::new(checks, |i: int| Notice::TransportMissing);
    if checks > 0 {
        lemma_waiting_is_bounded((checks - 1) as nat);
        assert(notices.drop_last() =~= Seq::new(
            (checks - 1) as nat,
            |i: int| Notice::TransportMissing,
        ));
        assert(notices.last() == Notice::TransportMissing);
    }
}

/// Nothing is dispatched before the dispatcher has subscribed: callbacks run
/// only for an event received in the receiving phase, and that phase is
/// entered only when a transport was found.
pub proof fn lemma_dispatch_only_when_receiving(phase: DispatcherPhase, notice: Notice)
    ensures
        advance_spec(phase, notice).1 == Directive::Dispatch ==> phase == DispatcherPhase::Receiving
            && notice == Notice::Received,
        advance_spec(phase, notice).0 == DispatcherPhase::Receiving ==> phase
            == DispatcherPhase::Receiving || (phase is Waiting && notice
            == Notice::TransportAvailable),
{
}

/// A lagging subscriber is no reason to stop: the dispatcher stays in the
/// receiving phase and asks for the next event.
pub proof fn lemma_lag_is_not_fatal()
    ensures
        advance_spec(DispatcherPhase::Receiving, Notice::Lagged) == (
            DispatcherPhase::Receiving,
            Directive::KeepReceiving,
        ),
{
}

} // verus!
