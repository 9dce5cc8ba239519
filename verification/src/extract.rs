//! Extraction of the text items of one page.

use crate::operation::{Operation, OperationView};
use crate::state::{advance, advance_stays_within, shown, PlacedText, Placement, TextItem, TextPlacementState};
use vstd::prelude::*;

verus! {

/// The state after all of `ops`, starting from the initial state.
pub open spec fn state_after(ops: Seq<OperationView>) -> Placement
    decreases ops.len(),
{
    if ops.len() == 0 {
        Placement::initial()
    } else {
        advance(state_after(ops.drop_last()), ops.last())
    }
}

/// The items that `ops` show, in the order of the operations that show them,
/// each with the state reached just before its operation.
pub open spec fn extracted(ops: Seq<OperationView>) -> Seq<PlacedText>
    decreases ops.len(),
{
    if ops.len() == 0 {
        Seq::empty()
    } else {
        let earlier = extracted(ops.drop_last());
        match shown(state_after(ops.drop_last()), ops.last()) {
            Some(item) => earlier.push(item),
            None => earlier,
        }
    }
}

/// One more operation at the end advances the state reached so far and adds
/// what it shows to the items found so far.
pub proof fn one_more_operation(ops: Seq<OperationView>, op: OperationView)
    ensures
        state_after(ops.push(op)) == advance(state_after(ops), op),
        extracted(ops.push(op)) == match shown(state_after(ops), op) {
            Some(item) => extracted(ops).push(item),
            None => extracted(ops),
        },
{
    assert(ops.push(op).drop_last() =~= ops);
}

/// How many of `ops` are named as operators that show text.
pub open spec fn show_count(ops: Seq<OperationView>) -> nat
    decreases ops.len(),
{
    if ops.len() == 0 {
        0
    } else if ops.last().kind().shows_text() {
        show_count(ops.drop_last()) + 1
    } else {
        show_count(ops.drop_last())
    }
}

/// There are never more items than operations that show text.
pub proof fn extracted_at_most_shows(ops: Seq<OperationView>)
    ensures
        extracted(ops).len() <= show_count(ops),
    decreases ops.len(),
{
    if ops.len() > 0 {
        extracted_at_most_shows(ops.drop_last());
    }
}

/// Reads the operations of one page from first to last and returns what
/// they show.  Every call starts from the initial state; nothing is kept
/// from one call to the next.
pub fn extract(ops: &[Operation]) -> (items: Vec<TextItem>)
    ensures
        items.deep_view() == extracted(ops.deep_view()),
        items.len() <= show_count(ops.deep_view()),
{
    let mut state = TextPlacementState::new();
    let mut items: Vec<TextItem> = Vec::new();
    let mut i: usize = 0;
    assert(items.deep_view() =~= Seq::empty());
    while i < ops.len()
        invariant
            i <= ops.len(),
            state@ == state_after(ops.deep_view().take(i as int)),
            items.deep_view() == extracted(ops.deep_view().take(i as int)),
            state@.within(i as int),
        decreases ops.len() - i,
    {
        let ghost before = ops.deep_view().take(i as int);
        let ghost earlier = items.deep_view();
        proof {
            assert(ops.deep_view().take(i + 1) =~= before.push(ops[i as int]@));
            one_more_operation(before, ops[i as int]@);
            advance_stays_within(state@, ops[i as int], i as int);
        }
        match state.apply(&ops[i]) {
            Some(item) => {
                items.push(item);
                assert(items.deep_view() =~= earlier.push(item@));
            },
            None => {},
        }
        i += 1;
    }
    proof {
        assert(ops.deep_view().take(i as int) =~= ops.deep_view());
        extracted_at_most_shows(ops.deep_view());
    }
    items
}

} // verus!
