//! The parameters that the operator has tuned, one vector per effect.

use vstd::prelude::*;
use crate::catalog::{effect_defaults, EffectCatalog, EFFECT_COUNT};
use crate::parameter::{in_range, lowered, raised, ParameterVector, PARAMETER_COUNT};

verus! {

/// One parameter vector for each effect of the catalog.
pub struct ParameterStore {
    vectors: Vec<ParameterVector>,
}

impl View for ParameterStore {
    type V = Seq<Seq<int>>;

    closed spec fn view(&self) -> Seq<Seq<int>> {
        Seq::new(EFFECT_COUNT as nat, |i: int| self.vectors[i]@)
    }
}

/// The store in which every effect is at its defaults.
pub open spec fn initial_store() -> Seq<Seq<int>> {
    Seq::new(EFFECT_COUNT as nat, |i: int| effect_defaults(i))
}

/// One vector per effect, each of four values between 0.00 and 1.00.
pub open spec fn store_in_range(store: Seq<Seq<int>>) -> bool {
    &&& store.len() == EFFECT_COUNT
    &&& forall|i: int| 0 <= i < store.len() ==> in_range(#[trigger] store[i])
}

impl ParameterStore {
    #[verifier::type_invariant]
    spec fn complete(self) -> bool {
        self.vectors.len() == EFFECT_COUNT
    }

    /// The store with every effect at the defaults of the catalog.
    pub fn new() -> (store: ParameterStore)
        ensures
            store@ == initial_store(),
            store_in_range(store@),
    {
        let mut vectors: Vec<ParameterVector> = Vec::new();
        let mut index: usize = 0;
        while index < EFFECT_COUNT
            invariant
                index <= EFFECT_COUNT,
                vectors.len() == index,
                forall|i: int| 0 <= i < index ==> (#[trigger] vectors[i])@ == effect_defaults(i),
            decreases EFFECT_COUNT - index,
        {
            vectors.push(EffectCatalog::defaults(index));
            index += 1;
        }
        let store = ParameterStore { vectors };
        assert(store@ =~= initial_store());
        store
    }

    /// The parameters of the effect at `effect`.
    pub fn get(&self, effect: usize) -> (vector: &ParameterVector)
        requires
            effect < EFFECT_COUNT,
        ensures
            vector@ == self@[effect as int],
    {
        proof {
            use_type_invariant(self);
        }
        &self.vectors[effect]
    }

    /// Moves one parameter of one effect a step up, capped at 1.00.
    pub fn increase(&mut self, effect: usize, parameter: usize)
        requires
            effect < EFFECT_COUNT,
            parameter < PARAMETER_COUNT,
        ensures
            final(self)@ == old(self)@.update(
                effect as int,
                old(self)@[effect as int].update(
                    parameter as int,
                    raised(old(self)@[effect as int][parameter as int]),
                ),
            ),
            in_range(final(self)@[effect as int]),
    {
        proof {
            use_type_invariant(&*self);
        }
        let next = self.vectors[effect].increased(parameter);
        self.vectors[effect] = next;
        assert(self@ =~= old(self)@.update(effect as int, next@));
    }

    /// Moves one parameter of one effect a step down, floored at 0.00.
    pub fn decrease(&mut self, effect: usize, parameter: usize)
        requires
            effect < EFFECT_COUNT,
            parameter < PARAMETER_COUNT,
        ensures
            final(self)@ == old(self)@.update(
                effect as int,
                old(self)@[effect as int].update(
                    parameter as int,
                    lowered(old(self)@[effect as int][parameter as int]),
                ),
            ),
            in_range(final(self)@[effect as int]),
    {
        proof {
            use_type_invariant(&*self);
        }
        let next = self.vectors[effect].decreased(parameter);
        self.vectors[effect] = next;
        assert(self@ =~= old(self)@.update(effect as int, next@));
    }

    /// Puts the parameters of one effect back to the defaults of the catalog.
    pub fn reset(&mut self, effect: usize)
        requires
            effect < EFFECT_COUNT,
        ensures
            final(self)@ == old(self)@.update(effect as int, effect_defaults(effect as int)),
            final(self)@[effect as int] == effect_defaults(effect as int),
            in_range(final(self)@[effect as int]),
    {
        proof {
            use_type_invariant(&*self);
        }
        let defaults = EffectCatalog::defaults(effect);
        self.vectors[effect] = defaults;
        assert(self@ =~= old(self)@.update(effect as int, effect_defaults(effect as int)));
    }
}

/// The store of a fresh panel holds only values between 0.00 and 1.00.
pub proof fn law_initial_store_in_range()
    ensures
        store_in_range(initial_store()),
{
}

/// A step up, a step down or a reset, on any parameter of any effect, leaves
/// every value of the store between 0.00 and 1.00.
pub proof fn law_store_stays_in_range(store: Seq<Seq<int>>, effect: int, parameter: int)
    requires
        store_in_range(store),
        0 <= effect < EFFECT_COUNT,
        0 <= parameter < PARAMETER_COUNT,
    ensures
        store_in_range(
            store.update(effect, store[effect].update(parameter, raised(store[effect][parameter]))),
        ),
        store_in_range(
            store.update(effect, store[effect].update(parameter, lowered(store[effect][parameter]))),
        ),
        store_in_range(store.update(effect, effect_defaults(effect))),
{
    assert(in_range(store[effect]));
}

} // verus!
