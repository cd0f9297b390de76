//! The selection in the list of pages, kept by `tui_widget_list`.
use tui_widget_list::ListState;
use vstd::prelude::*;

verus! {

/// Where a list is scrolled to and what is selected in it. What it holds is named below.
#[verifier::external_type_specification]
#[verifier::external_body]
pub struct ExListState(ListState);

/// The position that is selected in the list, if any.
pub uninterp spec fn list_selected(state: ListState) -> Option<usize>;

/// How many elements the list had when it was last drawn.
pub uninterp spec fn list_len(state: ListState) -> usize;

/// Whether the selection goes round from one end of the list to the other.
pub uninterp spec fn list_circular(state: ListState) -> bool;

/// The selection that follows `selected` in a list of `len` elements.
pub open spec fn after_next(selected: Option<usize>, len: usize, circular: bool) -> Option<usize> {
    if len == 0 {
        selected
    } else {
        match selected {
            None => Some(0),
            Some(i) => if i + 1 < len {
                Some((i + 1) as usize)
            } else if circular {
                Some(0)
            } else {
                Some(i)
            },
        }
    }
}

/// The selection that precedes `selected` in a list of `len` elements.
pub open spec fn after_previous(
    selected: Option<usize>,
    len: usize,
    circular: bool,
) -> Option<usize> {
    if len == 0 {
        selected
    } else {
        match selected {
            None => Some(0),
            Some(i) => if i > 0 {
                Some((i - 1) as usize)
            } else if circular {
                Some((len - 1) as usize)
            } else {
                Some(i)
            },
        }
    }
}

/// `ListState::default`: nothing is selected, the list has not been drawn, and the selection goes
/// round at the ends.
#[verifier::external_body]
pub(crate) fn new_list_state() -> (state: ListState)
    ensures
        list_selected(state) is None,
        list_len(state) == 0,
        list_circular(state),
{
    ListState::default()
}

/// The public field `selected` of `ListState`.
#[verifier::external_body]
pub(crate) fn selected_position(state: &ListState) -> (selected: Option<usize>)
    ensures
        selected == list_selected(*state),
{
    state.selected
}

/// `ListState::next` moves the selection one step on, from nothing to the first element, and from
/// the last element to the first or nowhere. In an empty list it does nothing.
pub assume_specification[ ListState::next ](state: &mut ListState)
    ensures
        list_selected(*final(state)) == after_next(
            list_selected(*old(state)),
            list_len(*old(state)),
            list_circular(*old(state)),
        ),
        list_len(*final(state)) == list_len(*old(state)),
        list_circular(*final(state)) == list_circular(*old(state)),
;

/// `ListState::previous` moves the selection one step back, from nothing to the first element, and
/// from the first element to the last or nowhere. In an empty list it does nothing.
pub assume_specification[ ListState::previous ](state: &mut ListState)
    ensures
        list_selected(*final(state)) == after_previous(
            list_selected(*old(state)),
            list_len(*old(state)),
            list_circular(*old(state)),
        ),
        list_len(*final(state)) == list_len(*old(state)),
        list_circular(*final(state)) == list_circular(*old(state)),
;

} // verus!
