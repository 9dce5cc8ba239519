//! Properties of extraction that hold for every page.

use crate::extract::{extracted, state_after};
use crate::operand::{OperandError, OperandView};
use crate::operation::{Operation, OperationView, Operator};
use crate::state::{advance, shown, Placement, TextItem};
use crate::text::joined;
use vstd::prelude::*;

verus! {

/// Extraction has no memory: two results obtained for the same operations
/// have the same value, item by item.
pub proof fn extraction_is_repeatable(
    ops: &[Operation],
    first: Vec<TextItem>,
    second: Vec<TextItem>,
)
    requires
        first.deep_view() == extracted(ops.deep_view()),
        second.deep_view() == extracted(ops.deep_view()),
    ensures
        first.deep_view() == second.deep_view(),
        first.len() == second.len(),
        forall|i: int| 0 <= i < first.len() ==> first[i]@ == second[i]@,
{
    assert(first.deep_view().len() == first.len());
    assert(second.deep_view().len() == second.len());
    assert forall|i: int| 0 <= i < first.len() implies first[i]@ == second[i]@ by {
        assert(first.deep_view()[i] == first[i]@);
        assert(second.deep_view()[i] == second[i]@);
    }
}

/// Each of the seven recognized names stands for an operator of its own.
pub proof fn recognized_names()
    ensures
        Operator::of("BT"@) == Operator::BeginText,
        Operator::of("Tf"@) == Operator::SetFont,
        Operator::of("Td"@) == Operator::MoveText,
        Operator::of("TD"@) == Operator::MoveTextSetLeading,
        Operator::of("Tm"@) == Operator::SetTextMatrix,
        Operator::of("Tj"@) == Operator::ShowText,
        Operator::of("TJ"@) == Operator::ShowTextAdjusted,
{
    reveal_strlit("BT");
    reveal_strlit("Tf");
    reveal_strlit("Td");
    reveal_strlit("TD");
    reveal_strlit("Tm");
    reveal_strlit("Tj");
    reveal_strlit("TJ");
    assert("BT"@[0] == 'B' && "Tf"@[0] == 'T' && "Td"@[0] == 'T' && "TD"@[0] == 'T');
    assert("Tm"@[0] == 'T' && "Tj"@[0] == 'T' && "TJ"@[0] == 'T');
    assert("BT"@[1] == 'T' && "Tf"@[1] == 'f' && "Td"@[1] == 'd' && "TD"@[1] == 'D');
    assert("Tm"@[1] == 'm' && "Tj"@[1] == 'j' && "TJ"@[1] == 'J');
}

/// Beginning a text object puts the position back at the origin, keeps the
/// font size and shows nothing, whatever the state was and whatever operands
/// come with the operator.
pub proof fn begin_text_resets_position(at: Placement, op: OperationView)
    requires
        op.kind() == Operator::BeginText,
    ensures
        advance(at, op) == (Placement { x: 0, y: 0, font_size: at.font_size }),
        shown(at, op) is None,
{
}

/// Setting the font with a number as second operand sets the font size to
/// that number and leaves the position alone.
pub proof fn font_size_is_second_operand(at: Placement, op: OperationView, size: int)
    requires
        op.kind() == Operator::SetFont,
        op.number_at(1) == Ok::<int, OperandError>(size),
    ensures
        advance(at, op) == (Placement { x: at.x, y: at.y, font_size: size }),
{
}

/// Setting the font without a number as second operand changes nothing.
pub proof fn malformed_font_changes_nothing(at: Placement, op: OperationView)
    requires
        op.kind() == Operator::SetFont,
        op.number_at(1) is Err,
    ensures
        advance(at, op) == at,
        shown(at, op) is None,
{
}

/// Two moves in a row add both their offsets to the position.
pub proof fn moves_add_up(
    at: Placement,
    first: OperationView,
    second: OperationView,
    offsets: (int, int, int, int),
)
    requires
        first.kind().moves_position(),
        second.kind().moves_position(),
        first.number_at(0) == Ok::<int, OperandError>(offsets.0),
        first.number_at(1) == Ok::<int, OperandError>(offsets.1),
        second.number_at(0) == Ok::<int, OperandError>(offsets.2),
        second.number_at(1) == Ok::<int, OperandError>(offsets.3),
    ensures
        advance(advance(at, first), second) == (Placement {
            x: at.x + offsets.0 + offsets.2,
            y: at.y + offsets.1 + offsets.3,
            font_size: at.font_size,
        }),
{
}

/// A move that lacks one of its two numbers moves nothing.
pub proof fn malformed_move_changes_nothing(at: Placement, op: OperationView)
    requires
        op.kind().moves_position(),
        op.number_at(0) is Err || op.number_at(1) is Err,
    ensures
        advance(at, op) == at,
        shown(at, op) is None,
{
}

/// A text matrix puts the position where its fifth and sixth operands say,
/// wherever it was before and whatever the first four operands are.
pub proof fn text_matrix_sets_position(at: Placement, op: OperationView, e: int, f: int)
    requires
        op.kind() == Operator::SetTextMatrix,
        op.number_at(4) == Ok::<int, OperandError>(e),
        op.number_at(5) == Ok::<int, OperandError>(f),
    ensures
        advance(at, op) == (Placement { x: e, y: f, font_size: at.font_size }),
        shown(at, op) is None,
{
}

/// Showing text leaves the state as it was.
pub proof fn showing_does_not_move(at: Placement, op: OperationView)
    requires
        op.kind().shows_text(),
    ensures
        advance(at, op) == at,
{
}

/// An element that is not a byte string, such as a spacing adjustment, can
/// stand anywhere in an array without changing the text the array shows.
pub proof fn adjustments_add_no_text(
    items: Seq<OperandView>,
    position: int,
    adjustment: OperandView,
)
    requires
        0 <= position <= items.len(),
        !(adjustment is ByteString),
    ensures
        joined(items.insert(position, adjustment)) == joined(items),
    decreases items.len(),
{
    let longer = items.insert(position, adjustment);
    if position == items.len() {
        assert(longer.drop_last() =~= items);
        assert(longer.last() == adjustment);
        assert(joined(items) + Seq::<char>::empty() =~= joined(items));
    } else {
        adjustments_add_no_text(items.drop_last(), position, adjustment);
        assert(longer.drop_last() =~= items.drop_last().insert(position, adjustment));
        assert(longer.last() == items.last());
    }
}

/// Showing an array yields exactly one item, whose text is that of all the
/// strings in the array, in order.
pub proof fn array_show_yields_one_item(at: Placement, op: OperationView, items: Seq<OperandView>)
    requires
        op.kind() == Operator::ShowTextAdjusted,
        op.operand(0) == Ok::<OperandView, OperandError>(OperandView::Array(items)),
    ensures
        shown(at, op) == Some(at.place(joined(items))),
{
}

/// An operation whose name is not recognized neither moves the state nor
/// shows anything.
pub proof fn unrecognized_operation_is_idle(at: Placement, op: OperationView)
    requires
        op.kind() == Operator::Other,
    ensures
        advance(at, op) == at,
        shown(at, op) is None,
{
}

/// An operation whose name is not recognized can be inserted anywhere
/// among the operations of a page without changing the final state or the
/// items extracted.
pub proof fn unrecognized_operation_is_ignored(
    ops: Seq<OperationView>,
    position: int,
    extra: OperationView,
)
    requires
        0 <= position <= ops.len(),
        extra.kind() == Operator::Other,
    ensures
        state_after(ops.insert(position, extra)) == state_after(ops),
        extracted(ops.insert(position, extra)) == extracted(ops),
    decreases ops.len(),
{
    let longer = ops.insert(position, extra);
    if position == ops.len() {
        assert(longer.drop_last() =~= ops);
        assert(longer.last() == extra);
    } else {
        unrecognized_operation_is_ignored(ops.drop_last(), position, extra);
        assert(longer.drop_last() =~= ops.drop_last().insert(position, extra));
        assert(longer.last() == ops.last());
    }
}

/// One pass, no looking ahead: the items that the first operations of a page
/// show stay as they are, and in their places, whatever operations follow.
pub proof fn later_operations_only_add(ops: Seq<OperationView>, more: Seq<OperationView>)
    ensures
        extracted(ops).is_prefix_of(extracted(ops + more)),
    decreases more.len(),
{
    if more.len() == 0 {
        assert(ops + more =~= ops);
    } else {
        later_operations_only_add(ops, more.drop_last());
        assert((ops + more).drop_last() =~= ops + more.drop_last());
    }
}

} // verus!
