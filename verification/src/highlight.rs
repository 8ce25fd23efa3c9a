use ratatui::widgets::ListState;
use vstd::prelude::*;

verus! {

/// `ratatui::widgets::ListState`: nothing of it is visible but the selected
/// row, through `highlighted_row`.
#[verifier::external_type_specification]
#[verifier::external_body]
pub struct ExListState(ratatui::widgets::ListState);

/// The row that a list widget's state marks as selected.
pub uninterp spec fn highlighted_row(state: ListState) -> Option<usize>;

/// `ListState::select` stores `index` as the selected row.
pub assume_specification[ ListState::select ](state: &mut ListState, index: Option<usize>)
    ensures
        highlighted_row(*final(state)) == index,
;

/// `ListState::selected` hands back the selected row.
pub assume_specification[ ListState::selected ](state: &ListState) -> (row: Option<usize>)
    ensures
        row == highlighted_row(*state),
;

/// `ListState::default`: a state with no row selected.
#[verifier::external_body]
pub(crate) fn blank_state() -> (state: ListState)
    ensures
        highlighted_row(state) is None,
{
    ListState::default()
}

/// `ListState::clone`: the copy selects the row that `state` selects.
#[verifier::external_body]
pub(crate) fn copy_state(state: &ListState) -> (copy: ListState)
    ensures
        highlighted_row(copy) == highlighted_row(*state),
{
    state.clone()
}

} // verus!
