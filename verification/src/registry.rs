//! The callback registry: for every lifecycle state, the callbacks to run
//! when the application enters it, in the order of their registration.

use crate::constants::{GameState, STATE_COUNT};
use vstd::prelude::*;

verus! {

/// Why a callback could not be removed.
#[derive(Clone, Copy, Debug, PartialEq, Eq, Structural)]
pub enum RegistryError {
    /// The state has no callback at the given position.
    IndexOutOfRange,
}

/// Callbacks per lifecycle state, each list in registration order.
pub struct CallbackRegistry<C> {
    lists: Vec<Vec<C>>,
}

/// The model of a registry without callbacks: every state has an empty list.
pub open spec fn empty_spec<C>() -> Map<GameState, Seq<C>> {
    Map::new(|s: GameState| true, |s: GameState| Seq::<C>::empty())
}

/// The registry model after one registration: the callback is appended to the
/// list of its state, and every other list is left alone.
pub open spec fn add_spec<C>(model: Map<GameState, Seq<C>>, state: GameState, callback: C) -> Map<
    GameState,
    Seq<C>,
> {
    model.insert(state, model[state].push(callback))
}

/// The registry model after removing the callback at `index` from the list of
/// `state`.
pub open spec fn remove_spec<C>(model: Map<GameState, Seq<C>>, state: GameState, index: int) -> Map<
    GameState,
    Seq<C>,
> {
    model.insert(state, model[state].remove(index))
}

/// The registry model after a series of registrations, applied first to last.
pub open spec fn add_all_spec<C>(model: Map<GameState, Seq<C>>, adds: Seq<(GameState, C)>) -> Map<
    GameState,
    Seq<C>,
>
    decreases adds.len(),
{
    if adds.len() == 0 {
        model
    } else {
        add_spec(add_all_spec(model, adds.drop_last()), adds.last().0, adds.last().1)
    }
}

/// The callbacks that a series of registrations names for one state, in the
/// order of the series.
pub open spec fn registered_for<C>(adds: Seq<(GameState, C)>, state: GameState) -> Seq<C>
    decreases adds.len(),
{
    if adds.len() == 0 {
        Seq::empty()
    } else if adds.last().0 == state {
        registered_for(adds.drop_last(), state).push(adds.last().1)
    } else {
        registered_for(adds.drop_last(), state)
    }
}

impl<C> View for CallbackRegistry<C> {
    type V = Map<GameState, Seq<C>>;

    closed spec fn view(&self) -> Map<GameState, Seq<C>> {
        Map::new(|s: GameState| true, |s: GameState| self.lists@[s.ordinal() as int]@)
    }
}

impl<C> CallbackRegistry<C> {
    /// The registry holds one list for every state.
    pub closed spec fn wf(&self) -> bool {
        self.lists@.len() == STATE_COUNT
    }

    /// Tells whether the registry holds one list for every state.
    pub fn is_wf(&self) -> (r: bool)
        ensures
            r == self.wf(),
    {
        self.lists.len() == STATE_COUNT
    }

    /// The callbacks registered for a state, in registration order.
    pub open spec fn callbacks(&self, state: GameState) -> Seq<C> {
        self@[state]
    }

    /// Every state has a list in the model.
    pub proof fn lemma_total(&self)
        ensures
            forall|s: GameState| self@.contains_key(s),
    {
    }

    /// A registry without callbacks.
    pub fn new() -> (r: Self)
        ensures
            r.wf(),
            r@ == empty_spec::<C>(),
    {
        let mut lists: Vec<Vec<C>> = Vec::new();
        let mut i: usize = 0;
        while i < STATE_COUNT
            invariant
                i <= STATE_COUNT,
                lists@.len() == i,
                forall|k: int| 0 <= k < i ==> (#[trigger] lists@[k])@ == Seq::<C>::empty(),
            decreases STATE_COUNT - i,
        {
            lists.push(Vec::new());
            i = i + 1;
        }
        let r = CallbackRegistry { lists };
        assert(r@ =~= empty_spec::<C>());
        r
    }

    /// Appends a callback to the list of a state. Nothing is de-duplicated: a
    /// callback registered twice stands in the list twice.
    pub fn add_game_flow_action(&mut self, game_state: GameState, callback: C)
        requires
            old(self).wf(),
        ensures
            final(self).wf(),
            final(self)@ == add_spec(old(self)@, game_state, callback),
    {
        let slot = game_state.index();
        let mut list = self.lists.remove(slot);
        list.push(callback);
        self.lists.insert(slot, list);
        assert(self@ =~= add_spec(old(self)@, game_state, callback));
    }

    /// Removes the callback at a position of the list of a state; the
    /// callbacks behind it move up by one. A position past the end of the list
    /// is an error and leaves the registry as it was.
    pub fn remove_game_flow_action(&mut self, game_state: GameState, index: usize) -> (r: Result<
        (),
        RegistryError,
    >)
        requires
            old(self).wf(),
        ensures
            final(self).wf(),
            r is Ok <==> index < old(self).callbacks(game_state).len(),
            r is Ok ==> final(self)@ == remove_spec(old(self)@, game_state, index as int),
            r is Err ==> final(self)@ == old(self)@,
    {
        let slot = game_state.index();
        if index >= self.lists[slot].len() {
            return Err(RegistryError::IndexOutOfRange);
        }
        let mut list = self.lists.remove(slot);
        list.remove(index);
        self.lists.insert(slot, list);
        assert(self.lists@[slot as int]@ == old(self).lists@[slot as int]@.remove(index as int));
        assert(self@ =~= remove_spec(old(self)@, game_state, index as int));
        Ok(())
    }

    /// The callbacks registered for a state, in registration order.
    pub fn callbacks_for(&self, game_state: GameState) -> (r: &Vec<C>)
        requires
            self.wf(),
        ensures
            r@ == self.callbacks(game_state),
    {
        &self.lists[game_state.index()]
    }
}

/// Registration order is dispatch order: after any series of registrations,
/// the list of every state is what it was before, followed by the callbacks
/// that the series names for that state, in the order of the series.
pub proof fn lemma_registration_order<C>(
    model: Map<GameState, Seq<C>>,
    adds: Seq<(GameState, C)>,
    state: GameState,
)
    requires
        forall|s: GameState| model.contains_key(s),
    ensures
        forall|s: GameState| add_all_spec(model, adds).contains_key(s),
        add_all_spec(model, adds)[state] == model[state] + registered_for(adds, state),
    decreases adds.len(),
{
    if adds.len() == 0 {
        assert(model[state] + Seq::<C>::empty() =~= model[state]);
    } else {
        lemma_registration_order(model, adds.drop_last(), state);
        let before = add_all_spec(model, adds.drop_last());
        if adds.last().0 == state {
            assert(before[state].push(adds.last().1) =~= model[state] + registered_for(
                adds,
                state,
            ));
        }
    }
}

} // verus!
