//! What this library relies on of the list widget's state.
//!
//! The panel shows the catalog as a list and highlights the current effect.
//! The highlighted row lives in ratatui's `ListState`, which the library
//! keeps in step with the selection. Nothing here is proved: these are the
//! statements about ratatui that the rest of the library builds on.

use vstd::prelude::*;
use ratatui::widgets::ListState;

verus! {

/// ratatui's `ListState`, carried as an opaque value.
#[verifier::external_type_specification]
#[verifier::external_body]
pub struct ExListState(ListState);

/// The row that a list state highlights, if any: what `ListState::selected`
/// reads.
pub uninterp spec fn highlighted_row(state: ListState) -> Option<usize>;

/// `<ListState as Default>::default`: a list state that highlights no row.
pub assume_specification[ <ListState as core::default::Default>::default ]() -> (state: ListState)
    ensures
        highlighted_row(state) is None,
;

/// `<ListState as Clone>::clone`: a copy equal to the state it was made from.
pub assume_specification[ <ListState as Clone>::clone ](state: &ListState) -> (copy: ListState)
    ensures
        copy == *state,
;

/// `ListState::select`: afterwards the state highlights exactly the row given.
pub assume_specification[ ListState::select ](state: &mut ListState, index: Option<usize>)
    ensures
        highlighted_row(*final(state)) == index,
;

/// `ListState::selected`: the highlighted row.
pub assume_specification[ ListState::selected ](state: &ListState) -> (row: Option<usize>)
    ensures
        row == highlighted_row(*state),
;

} // verus!
