//! Wire-level constants: operator codes, event names and lifecycle states,
//! each convertible to and from the value it has on the wire.

use crate::text::str_eq;
use vstd::prelude::*;

verus! {

/// A closed set of items, each standing for exactly one wire value of type `T`.
pub trait Value<T>: Sized {
    /// `val` is the wire value of `self`.
    spec fn encodes(&self, val: T) -> bool;

    /// Some item of the set has the wire value `val`.
    spec fn known(val: T) -> bool;

    /// The wire value of `self`.
    fn value(&self) -> (r: T)
        ensures
            self.encodes(r),
    ;

    /// The item whose wire value is `val`.
    fn from_value(val: T) -> (r: Self)
        requires
            Self::known(val),
        ensures
            r.encodes(val),
    ;
}

/// Operator codes of the envelope protocol.
#[derive(Clone, Copy, Debug, PartialEq, Eq, Structural)]
pub enum Operator {
    Sub,
    DisSub,
    Event,
}

impl Operator {
    /// The integer that stands for the operator on the wire.
    pub open spec fn code(self) -> int {
        match self {
            Operator::Sub => 5,
            Operator::DisSub => 6,
            Operator::Event => 8,
        }
    }

    /// The operator for a wire code, if the code is one of the three known.
    pub fn try_from_value(val: i32) -> (r: Option<Operator>)
        ensures
            r is Some <==> <Operator as Value<i32>>::known(val),
            r is Some ==> r->0.code() == val,
    {
        if val == 5 {
            Some(Operator::Sub)
        } else if val == 6 {
            Some(Operator::DisSub)
        } else if val == 8 {
            Some(Operator::Event)
        } else {
            None
        }
    }
}

impl Value<i32> for Operator {
    open spec fn encodes(&self, val: i32) -> bool {
        val == self.code()
    }

    open spec fn known(val: i32) -> bool {
        val == 5 || val == 6 || val == 8
    }

    fn value(&self) -> (r: i32) {
        match self {
            Operator::Sub => 5,
            Operator::DisSub => 6,
            Operator::Event => 8,
        }
    }

    fn from_value(val: i32) -> (r: Self) {
        if val == 5 {
            Operator::Sub
        } else if val == 6 {
            Operator::DisSub
        } else {
            Operator::Event
        }
    }
}

/// Every operator is recovered from its own wire code, and a known code is
/// the code of exactly one operator.
pub proof fn lemma_operator_codes_distinct(a: Operator, b: Operator)
    ensures
        <Operator as Value<i32>>::known(a.code() as i32),
        a.code() == b.code() ==> a == b,
{
}

/// Event names of the envelope protocol.
#[derive(Clone, Copy, Debug, PartialEq, Eq, Structural)]
pub enum Event {
    OnJsonApiEvent,
}

impl Event {
    /// The name that stands for the event on the wire.
    pub open spec fn name(self) -> Seq<char> {
        match self {
            Event::OnJsonApiEvent => "OnJsonApiEvent"@,
        }
    }

    /// The event for a wire name, if the name is known.
    pub fn try_from_value(val: &str) -> (r: Option<Event>)
        ensures
            r is Some <==> <Event as Value<&str>>::known(val),
            r is Some ==> r->0.name() == val@,
    {
        if str_eq(val, "OnJsonApiEvent") {
            Some(Event::OnJsonApiEvent)
        } else {
            None
        }
    }
}

impl Value<&str> for Event {
    open spec fn encodes(&self, val: &str) -> bool {
        val@ == self.name()
    }

    open spec fn known(val: &str) -> bool {
        val@ == "OnJsonApiEvent"@
    }

    fn value(&self) -> (r: &'static str) {
        match self {
            Event::OnJsonApiEvent => "OnJsonApiEvent",
        }
    }

    fn from_value(val: &str) -> (r: Self) {
        Event::OnJsonApiEvent
    }
}

/// Lifecycle states of the local application.
#[derive(Clone, Copy, Debug, PartialEq, Eq, Hash, Structural)]
pub enum GameState {
    NoState,
    Lobby,
    MatchMaking,
    ReadyCheck,
    ChampSelect,
    GameStart,
    InProgress,
    PreEndOfGame,
    WaitingForStats,
    EndOfGame,
    Reconnect,
    WatchInProgress,
}

impl GameState {
    /// The string that stands for the state on the wire.
    pub open spec fn name(self) -> Seq<char> {
        match self {
            GameState::NoState => "None"@,
            GameState::Lobby => "Lobby"@,
            GameState::MatchMaking => "Matchmaking"@,
            GameState::ReadyCheck => "ReadyCheck"@,
            GameState::ChampSelect => "ChampSelect"@,
            GameState::GameStart => "GameStart"@,
            GameState::InProgress => "InProgress"@,
            GameState::PreEndOfGame => "PreEndOfGame"@,
            GameState::WaitingForStats => "WaitingForStats"@,
            GameState::EndOfGame => "EndOfGame"@,
            GameState::Reconnect => "Reconnect"@,
            GameState::WatchInProgress => "WatchInProgress"@,
        }
    }

    /// The position of the state in the enumeration, from 0.
    pub open spec fn ordinal(self) -> nat {
        match self {
            GameState::NoState => 0,
            GameState::Lobby => 1,
            GameState::MatchMaking => 2,
            GameState::ReadyCheck => 3,
            GameState::ChampSelect => 4,
            GameState::GameStart => 5,
            GameState::InProgress => 6,
            GameState::PreEndOfGame => 7,
            GameState::WaitingForStats => 8,
            GameState::EndOfGame => 9,
            GameState::Reconnect => 10,
            GameState::WatchInProgress => 11,
        }
    }

    /// Some state has the wire name `val`.
    pub open spec fn is_name(val: Seq<char>) -> bool {
        val == "None"@
        || val == "Lobby"@
        || val == "Matchmaking"@
        || val == "ReadyCheck"@
        || val == "ChampSelect"@
        || val == "GameStart"@
        || val == "InProgress"@
        || val == "PreEndOfGame"@
        || val == "WaitingForStats"@
        || val == "EndOfGame"@
        || val == "Reconnect"@
        || val == "WatchInProgress"@
    }

    /// The position of the state in the enumeration, from 0.
    pub fn index(&self) -> (r: usize)
        ensures
            r == self.ordinal(),
            r < STATE_COUNT,
    {
        match self {
            GameState::NoState => 0,
            GameState::Lobby => 1,
            GameState::MatchMaking => 2,
            GameState::ReadyCheck => 3,
            GameState::ChampSelect => 4,
            GameState::GameStart => 5,
            GameState::InProgress => 6,
            GameState::PreEndOfGame => 7,
            GameState::WaitingForStats => 8,
            GameState::EndOfGame => 9,
            GameState::Reconnect => 10,
            GameState::WatchInProgress => 11,
        }
    }

    /// The state for a wire name; `None` for a string that names no state.
    pub fn try_from_value(val: &str) -> (r: Option<GameState>)
        ensures
            r is Some <==> GameState::is_name(val@),
            r is Some ==> r->0.name() == val@,
    {
        if str_eq(val, "None") {
            Some(GameState::NoState)
        } else if str_eq(val, "Lobby") {
            Some(GameState::Lobby)
        } else if str_eq(val, "Matchmaking") {
            Some(GameState::MatchMaking)
        } else if str_eq(val, "ReadyCheck") {
            Some(GameState::ReadyCheck)
        } else if str_eq(val, "ChampSelect") {
            Some(GameState::ChampSelect)
        } else if str_eq(val, "GameStart") {
            Some(GameState::GameStart)
        } else if str_eq(val, "InProgress") {
            Some(GameState::InProgress)
        } else if str_eq(val, "PreEndOfGame") {
            Some(GameState::PreEndOfGame)
        } else if str_eq(val, "WaitingForStats") {
            Some(GameState::WaitingForStats)
        } else if str_eq(val, "EndOfGame") {
            Some(GameState::EndOfGame)
        } else if str_eq(val, "Reconnect") {
            Some(GameState::Reconnect)
        } else if str_eq(val, "WatchInProgress") {
            Some(GameState::WatchInProgress)
        } else {
            None
        }
    }
}

/// The number of lifecycle states.
pub const STATE_COUNT: usize = 12;

impl Value<&str> for GameState {
    open spec fn encodes(&self, val: &str) -> bool {
        val@ == self.name()
    }

    open spec fn known(val: &str) -> bool {
        GameState::is_name(val@)
    }

    fn value(&self) -> (r: &'static str) {
        match self {
            GameState::NoState => "None",
            GameState::Lobby => "Lobby",
            GameState::MatchMaking => "Matchmaking",
            GameState::ReadyCheck => "ReadyCheck",
            GameState::ChampSelect => "ChampSelect",
            GameState::GameStart => "GameStart",
            GameState::InProgress => "InProgress",
            GameState::PreEndOfGame => "PreEndOfGame",
            GameState::WaitingForStats => "WaitingForStats",
            GameState::EndOfGame => "EndOfGame",
            GameState::Reconnect => "Reconnect",
            GameState::WatchInProgress => "WatchInProgress",
        }
    }

    fn from_value(val: &str) -> (r: Self) {
        match GameState::try_from_value(val) {
            Some(s) => s,
            // Not reached: `val` names a state.
            None => GameState::NoState,
        }
    }
}

/// Two different states never share a wire name, so a name decodes to at most
/// one state and every state is recovered from its own name.
pub proof fn lemma_state_names_distinct(a: GameState, b: GameState)
    ensures
        GameState::is_name(a.name()),
        a.name() == b.name() ==> a == b,
{
    reveal_strlit("None");
    reveal_strlit("Lobby");
    reveal_strlit("Matchmaking");
    reveal_strlit("ReadyCheck");
    reveal_strlit("ChampSelect");
    reveal_strlit("GameStart");
    reveal_strlit("InProgress");
    reveal_strlit("PreEndOfGame");
    reveal_strlit("WaitingForStats");
    reveal_strlit("EndOfGame");
    reveal_strlit("Reconnect");
    reveal_strlit("WatchInProgress");
    assert("WaitingForStats"@[2] == 'i');
    assert("WatchInProgress"@[2] == 't');
    if a.name() == b.name() {
        assert(a.name().len() == b.name().len());
        assert(a.name()[0] == b.name()[0]);
        assert(a.name()[2] == b.name()[2]);
    }
}

} // verus!
