//! Which effect and which parameter are current.

use vstd::prelude::*;
use ratatui::widgets::ListState;
use crate::catalog::EFFECT_COUNT;
use crate::parameter::PARAMETER_COUNT;
use crate::widget::highlighted_row;

verus! {

/// The effect after the one at `index`, wrapping round at the end.
pub open spec fn following_effect(index: int) -> int {
    (index + 1) % (EFFECT_COUNT as int)
}

/// The effect before the one at `index`, wrapping round at the start.
pub open spec fn preceding_effect(index: int) -> int {
    (index - 1 + EFFECT_COUNT) % (EFFECT_COUNT as int)
}

/// The parameter after the one at `cursor`, wrapping round at the end.
pub open spec fn following_parameter(cursor: int) -> int {
    (cursor + 1) % (PARAMETER_COUNT as int)
}

/// The effect reached from `index` by `count` steps forward.
pub open spec fn effect_after(index: int, count: nat) -> int
    decreases count,
{
    if count == 0 {
        index
    } else {
        following_effect(effect_after(index, (count - 1) as nat))
    }
}

/// The parameter reached from `cursor` by `count` steps forward.
pub open spec fn parameter_after(cursor: int, count: nat) -> int
    decreases count,
{
    if count == 0 {
        cursor
    } else {
        following_parameter(parameter_after(cursor, (count - 1) as nat))
    }
}

/// The selection as plain numbers.
pub struct SelectionView {
    pub effect: int,
    pub cursor: int,
}

impl SelectionView {
    /// Exactly one effect and one parameter are current.
    pub open spec fn valid(self) -> bool {
        &&& 0 <= self.effect < EFFECT_COUNT
        &&& 0 <= self.cursor < PARAMETER_COUNT
    }

    /// The selection after a step to the next effect.
    pub open spec fn next_effect(self) -> SelectionView {
        SelectionView { effect: following_effect(self.effect), cursor: 0 }
    }

    /// The selection after a step to the previous effect.
    pub open spec fn prev_effect(self) -> SelectionView {
        SelectionView { effect: preceding_effect(self.effect), cursor: 0 }
    }

    /// The selection after a step to the next parameter.
    pub open spec fn next_parameter(self) -> SelectionView {
        SelectionView { effect: self.effect, cursor: following_parameter(self.cursor) }
    }
}

/// The current effect and parameter, and the list widget's state, which
/// always highlights the current effect.
pub struct SelectionState {
    effect_index: usize,
    parameter_cursor: usize,
    list_state: ListState,
}

impl View for SelectionState {
    type V = SelectionView;

    closed spec fn view(&self) -> SelectionView {
        SelectionView { effect: self.effect_index as int, cursor: self.parameter_cursor as int }
    }
}

impl SelectionState {
    #[verifier::type_invariant]
    spec fn coherent(self) -> bool {
        &&& self.effect_index < EFFECT_COUNT
        &&& self.parameter_cursor < PARAMETER_COUNT
        &&& highlighted_row(self.list_state) == Some(self.effect_index)
    }

    /// The list widget's state.
    pub closed spec fn widget(self) -> ListState {
        self.list_state
    }

    /// The row that the list widget highlights.
    pub open spec fn highlighted(self) -> Option<usize> {
        highlighted_row(self.widget())
    }

    /// The first effect and its first parameter.
    pub fn new() -> (selection: SelectionState)
        ensures
            selection@ == (SelectionView { effect: 0, cursor: 0 }),
            selection.highlighted() == Some(0usize),
    {
        let mut list_state = ListState::default();
        list_state.select(Some(0));
        SelectionState { effect_index: 0, parameter_cursor: 0, list_state }
    }

    /// Index of the current effect.
    pub fn effect_index(&self) -> (index: usize)
        ensures
            index == self@.effect,
            self@.valid(),
            self.highlighted() == Some(index),
    {
        proof {
            use_type_invariant(self);
        }
        self.effect_index
    }

    /// Index of the current parameter.
    pub fn parameter_cursor(&self) -> (cursor: usize)
        ensures
            cursor == self@.cursor,
            self@.valid(),
    {
        proof {
            use_type_invariant(self);
        }
        self.parameter_cursor
    }

    /// The list widget's state, for drawing the catalog.
    pub fn list_state(&self) -> (state: &ListState)
        ensures
            *state == self.widget(),
            self.highlighted() == Some(self@.effect as usize),
    {
        proof {
            use_type_invariant(self);
        }
        &self.list_state
    }

    /// The row that the list widget highlights: always the current effect.
    pub fn highlighted_effect(&self) -> (row: Option<usize>)
        ensures
            row == Some(self@.effect as usize),
            row == self.highlighted(),
    {
        proof {
            use_type_invariant(self);
        }
        self.list_state.selected()
    }

    /// Takes back the list widget's state after it was drawn with, so that
    /// what the widget noted while drawing is kept. A state that highlights
    /// another row than the current effect is not taken.
    pub fn keep_list_state(&mut self, drawn: ListState)
        ensures
            final(self)@ == old(self)@,
            final(self).widget() == if highlighted_row(drawn) == Some(old(self)@.effect as usize) {
                drawn
            } else {
                old(self).widget()
            },
            final(self).highlighted() == Some(final(self)@.effect as usize),
    {
        proof {
            use_type_invariant(&*self);
        }
        let agrees = match drawn.selected() {
            Some(row) => row == self.effect_index,
            None => false,
        };
        if agrees {
            self.list_state = drawn;
        }
    }

    fn select(&mut self, effect: usize)
        requires
            effect < EFFECT_COUNT,
        ensures
            final(self)@ == (SelectionView { effect: effect as int, cursor: 0 }),
            final(self).highlighted() == Some(effect),
    {
        let mut list_state = self.list_state.clone();
        list_state.select(Some(effect));
        *self = SelectionState { effect_index: effect, parameter_cursor: 0, list_state };
    }

    /// Moves to the next effect, wrapping round, and back to its first
    /// parameter.
    pub fn next_effect(&mut self)
        ensures
            final(self)@ == old(self)@.next_effect(),
            final(self)@.valid(),
            final(self).highlighted() == Some(final(self)@.effect as usize),
    {
        proof {
            use_type_invariant(&*self);
        }
        let effect = (self.effect_index + 1) % EFFECT_COUNT;
        self.select(effect);
    }

    /// Moves to the previous effect, wrapping round, and back to its first
    /// parameter.
    pub fn prev_effect(&mut self)
        ensures
            final(self)@ == old(self)@.prev_effect(),
            final(self)@.valid(),
            final(self).highlighted() == Some(final(self)@.effect as usize),
    {
        proof {
            use_type_invariant(&*self);
        }
        let effect = if self.effect_index == 0 {
            EFFECT_COUNT - 1
        } else {
            self.effect_index - 1
        };
        self.select(effect);
    }

    /// Moves to the next parameter of the current effect, wrapping round.
    pub fn next_parameter(&mut self)
        ensures
            final(self)@ == old(self)@.next_parameter(),
            final(self)@.valid(),
            final(self).widget() == old(self).widget(),
    {
        proof {
            use_type_invariant(&*self);
        }
        self.parameter_cursor = (self.parameter_cursor + 1) % PARAMETER_COUNT;
    }
}

/// Each move keeps exactly one effect and one parameter current.
pub proof fn law_moves_keep_selection_valid(selection: SelectionView)
    requires
        selection.valid(),
    ensures
        selection.next_effect().valid(),
        selection.prev_effect().valid(),
        selection.next_parameter().valid(),
{
}

/// Any switch of effect puts the parameter cursor back to the first
/// parameter, wherever it stood.
pub proof fn law_effect_switch_resets_cursor(selection: SelectionView)
    ensures
        selection.next_effect().cursor == 0,
        selection.prev_effect().cursor == 0,
{
}

/// `count` steps forward from `index` lead to `index + count`, counted round
/// the catalog.
pub proof fn law_effect_after(index: int, count: nat)
    requires
        0 <= index < EFFECT_COUNT,
    ensures
        effect_after(index, count) == (index + count) % (EFFECT_COUNT as int),
    decreases count,
{
    if count > 0 {
        law_effect_after(index, (count - 1) as nat);
    }
}

/// As many steps forward as the catalog has effects lead back to the start.
pub proof fn law_next_effect_cycles(index: int)
    requires
        0 <= index < EFFECT_COUNT,
    ensures
        effect_after(index, EFFECT_COUNT as nat) == index,
{
    law_effect_after(index, EFFECT_COUNT as nat);
}

/// A step back from the first effect leads to the last one.
pub proof fn law_prev_effect_wraps()
    ensures
        preceding_effect(0) == EFFECT_COUNT - 1,
{
}

/// A step forward and a step back undo each other.
pub proof fn law_next_and_prev_are_inverse(index: int)
    requires
        0 <= index < EFFECT_COUNT,
    ensures
        preceding_effect(following_effect(index)) == index,
        following_effect(preceding_effect(index)) == index,
{
}

/// Four steps of the parameter cursor lead back to where it stood.
pub proof fn law_next_parameter_cycles(cursor: int)
    requires
        0 <= cursor < PARAMETER_COUNT,
    ensures
        parameter_after(cursor, PARAMETER_COUNT as nat) == cursor,
{
    reveal_with_fuel(parameter_after, 5);
}

} // verus!
