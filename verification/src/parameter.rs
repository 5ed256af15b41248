//! Bounded effect parameters in fixed point.
//!
//! A parameter is a knob between 0.00 and 1.00. It is held as a whole number
//! of hundredths, so that every step of 0.05 is exact and the two-decimal
//! rendering of a value loses nothing.

use vstd::prelude::*;

verus! {

/// Number of parameters that every effect has.
pub const PARAMETER_COUNT: usize = 4;

/// The value 1.00, in hundredths.
pub const FULL_SCALE: u8 = 100;

/// One step of a parameter, 0.05, in hundredths.
pub const STEP: u8 = 5;

/// A value one step up, capped at full scale.
pub open spec fn raised(value: int) -> int {
    if value + STEP >= FULL_SCALE {
        FULL_SCALE as int
    } else {
        value + STEP
    }
}

/// A value one step down, floored at zero.
pub open spec fn lowered(value: int) -> int {
    if value <= STEP {
        0
    } else {
        value - STEP
    }
}

/// A value after `count` steps up.
pub open spec fn raised_by(value: int, count: nat) -> int
    decreases count,
{
    if count == 0 {
        value
    } else {
        raised(raised_by(value, (count - 1) as nat))
    }
}

/// A value after `count` steps down.
pub open spec fn lowered_by(value: int, count: nat) -> int
    decreases count,
{
    if count == 0 {
        value
    } else {
        lowered(lowered_by(value, (count - 1) as nat))
    }
}

/// A value after a sequence of steps, each of them up (`true`) or down
/// (`false`).
pub open spec fn stepped(value: int, steps: Seq<bool>) -> int
    decreases steps.len(),
{
    if steps.len() == 0 {
        value
    } else if steps.last() {
        raised(stepped(value, steps.drop_last()))
    } else {
        lowered(stepped(value, steps.drop_last()))
    }
}

/// Four values, each between zero and full scale.
pub open spec fn in_range(values: Seq<int>) -> bool {
    &&& values.len() == PARAMETER_COUNT
    &&& forall|i: int| 0 <= i < values.len() ==> 0 <= #[trigger] values[i] <= FULL_SCALE
}

/// The four parameters of one effect, in hundredths.
#[derive(Clone, Copy, Debug, PartialEq, Eq)]
pub struct ParameterVector {
    hundredths: [u8; 4],
}

impl View for ParameterVector {
    type V = Seq<int>;

    closed spec fn view(&self) -> Seq<int> {
        Seq::new(PARAMETER_COUNT as nat, |i: int| self.hundredths[i] as int)
    }
}

/// The vector that holds the values given.
pub closed spec fn vector_of(values: Seq<int>) -> ParameterVector {
    choose|vector: ParameterVector| vector@ == values
}

impl ParameterVector {
    #[verifier::type_invariant]
    spec fn bounded(self) -> bool {
        forall|i: int| 0 <= i < PARAMETER_COUNT ==> self.hundredths[i] <= FULL_SCALE
    }

    /// Two vectors with the same values are the same vector.
    pub proof fn lemma_view_injective(self, other: ParameterVector)
        requires
            self@ == other@,
        ensures
            self == other,
    {
        assert forall|i: int| 0 <= i < 4 implies self.hundredths[i] == other.hundredths[i] by {
            assert(self@[i] == self.hundredths[i] as int);
            assert(other@[i] == other.hundredths[i] as int);
        }
        assert(self.hundredths@ =~= other.hundredths@);
        vstd::array::axiom_array_ext_equal(self.hundredths, other.hundredths);
    }

    /// A vector is the only one with its values.
    pub proof fn lemma_vector_of_view(self)
        ensures
            vector_of(self@) == self,
    {
        let chosen = vector_of(self@);
        assert(chosen@ == self@);
        chosen.lemma_view_injective(self);
    }

    /// The vector of the given hundredths, when each is at most full scale.
    pub fn from_hundredths(values: [u8; 4]) -> (made: Option<ParameterVector>)
        ensures
            made is Some <==> forall|i: int| 0 <= i < 4 ==> values[i] <= FULL_SCALE,
            made matches Some(vector) ==> {
                &&& in_range(vector@)
                &&& forall|i: int| 0 <= i < 4 ==> vector@[i] == values[i]
            },
    {
        if values[0] <= FULL_SCALE && values[1] <= FULL_SCALE && values[2] <= FULL_SCALE
            && values[3] <= FULL_SCALE {
            Some(ParameterVector { hundredths: values })
        } else {
            None
        }
    }

    pub(crate) fn of(p0: u8, p1: u8, p2: u8, p3: u8) -> (made: ParameterVector)
        requires
            p0 <= FULL_SCALE,
            p1 <= FULL_SCALE,
            p2 <= FULL_SCALE,
            p3 <= FULL_SCALE,
        ensures
            made@ == seq![p0 as int, p1 as int, p2 as int, p3 as int],
    {
        let made = ParameterVector { hundredths: [p0, p1, p2, p3] };
        assert(made@ =~= seq![p0 as int, p1 as int, p2 as int, p3 as int]);
        made
    }

    /// The parameter at `index`, in hundredths.
    pub fn get(&self, index: usize) -> (value: u8)
        requires
            index < PARAMETER_COUNT,
        ensures
            value == self@[index as int],
            value <= FULL_SCALE,
    {
        proof {
            use_type_invariant(self);
        }
        self.hundredths[index]
    }

    /// The four parameters, in hundredths.
    pub fn hundredths(&self) -> (values: [u8; 4])
        ensures
            in_range(self@),
            forall|i: int| 0 <= i < 4 ==> values[i] == self@[i],
    {
        proof {
            use_type_invariant(self);
        }
        self.hundredths
    }

    /// The vector with the parameter at `index` one step up, capped at 1.00.
    pub fn increased(self, index: usize) -> (next: ParameterVector)
        requires
            index < PARAMETER_COUNT,
        ensures
            next@ == self@.update(index as int, raised(self@[index as int])),
            in_range(next@),
    {
        proof {
            use_type_invariant(&self);
        }
        let current = self.hundredths[index];
        let value: u8 = if current >= FULL_SCALE - STEP {
            FULL_SCALE
        } else {
            current + STEP
        };
        let mut hundredths = self.hundredths;
        hundredths[index] = value;
        let next = ParameterVector { hundredths };
        assert(next@ =~= self@.update(index as int, raised(self@[index as int])));
        next
    }

    /// The vector with the parameter at `index` one step down, floored at 0.00.
    pub fn decreased(self, index: usize) -> (next: ParameterVector)
        requires
            index < PARAMETER_COUNT,
        ensures
            next@ == self@.update(index as int, lowered(self@[index as int])),
            in_range(next@),
    {
        proof {
            use_type_invariant(&self);
        }
        let current = self.hundredths[index];
        let value: u8 = if current <= STEP {
            0
        } else {
            current - STEP
        };
        let mut hundredths = self.hundredths;
        hundredths[index] = value;
        let next = ParameterVector { hundredths };
        assert(next@ =~= self@.update(index as int, lowered(self@[index as int])));
        next
    }
}

/// A step in either direction keeps a value between 0.00 and 1.00.
pub proof fn law_step_stays_in_range(value: int)
    requires
        0 <= value <= FULL_SCALE,
    ensures
        0 <= raised(value) <= FULL_SCALE,
        0 <= lowered(value) <= FULL_SCALE,
{
}

/// Any sequence of steps, up and down in any order, keeps a value between
/// 0.00 and 1.00.
pub proof fn law_steps_stay_in_range(value: int, steps: Seq<bool>)
    requires
        0 <= value <= FULL_SCALE,
    ensures
        0 <= stepped(value, steps) <= FULL_SCALE,
    decreases steps.len(),
{
    if steps.len() > 0 {
        law_steps_stay_in_range(value, steps.drop_last());
    }
}

/// `count` steps up add `count` times 0.05 and stop at exactly 1.00.
pub proof fn law_raised_by(value: int, count: nat)
    requires
        0 <= value <= FULL_SCALE,
    ensures
        raised_by(value, count) == if value + STEP * count >= FULL_SCALE {
            FULL_SCALE as int
        } else {
            value + STEP * count
        },
    decreases count,
{
    if count > 0 {
        law_raised_by(value, (count - 1) as nat);
        assert(STEP * count == STEP * (count - 1) + STEP) by (nonlinear_arith);
    }
}

/// `count` steps down take away `count` times 0.05 and stop at exactly 0.00.
pub proof fn law_lowered_by(value: int, count: nat)
    requires
        0 <= value <= FULL_SCALE,
    ensures
        lowered_by(value, count) == if value <= STEP * count {
            0
        } else {
            value - STEP * count
        },
    decreases count,
{
    if count > 0 {
        law_lowered_by(value, (count - 1) as nat);
        assert(STEP * count == STEP * (count - 1) + STEP) by (nonlinear_arith);
    }
}

/// Twenty steps up from 0.00 reach exactly 1.00, and nineteen do not yet.
pub proof fn law_twenty_steps_reach_full_scale()
    ensures
        raised_by(0, 20) == FULL_SCALE,
        raised_by(0, 19) < FULL_SCALE,
        raised_by(0, 21) == FULL_SCALE,
{
    law_raised_by(0, 19);
    law_raised_by(0, 20);
    law_raised_by(0, 21);
}

/// A step up at the ceiling, and a step down at the floor, change nothing.
pub proof fn law_steps_idempotent_at_the_ends()
    ensures
        raised(FULL_SCALE as int) == FULL_SCALE,
        lowered(0) == 0,
{
}

} // verus!
