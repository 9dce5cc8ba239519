//! The text placement state and its transitions.
//!
//! The state is the current text position and the font size.  Positions are
//! exact: they hold the mathematical sum of the offsets applied since the
//! position was last set, in a type wide enough for any page that fits in
//! memory.

use crate::operand::{number_in_range, OperandView};
use crate::operation::{Operation, OperationView, Operator};
use crate::text::{decoded, joined, joined_text};
use vstd::prelude::*;

verus! {

/// Where text goes and how large it is, while a page is being read.
#[derive(Debug, Clone, Copy, PartialEq, Eq, Structural)]
pub struct TextPlacementState {
    pub x: i128,
    pub y: i128,
    pub font_size: i64,
}

/// The mathematical value of a [`TextPlacementState`].
pub struct Placement {
    pub x: int,
    pub y: int,
    pub font_size: int,
}

/// A string shown on the page, with the state in force when it was shown.
#[derive(Debug, Clone, PartialEq, Eq)]
pub struct TextItem {
    pub text: String,
    pub x: i128,
    pub y: i128,
    pub font_size: i64,
}

/// The mathematical value of a [`TextItem`].
pub struct PlacedText {
    pub text: Seq<char>,
    pub x: int,
    pub y: int,
    pub font_size: int,
}

impl View for TextPlacementState {
    type V = Placement;

    open spec fn view(&self) -> Placement {
        Placement { x: self.x as int, y: self.y as int, font_size: self.font_size as int }
    }
}

impl View for TextItem {
    type V = PlacedText;

    open spec fn view(&self) -> PlacedText {
        PlacedText {
            text: self.text@,
            x: self.x as int,
            y: self.y as int,
            font_size: self.font_size as int,
        }
    }
}

impl DeepView for TextItem {
    type V = PlacedText;

    open spec fn deep_view(&self) -> PlacedText {
        self.view()
    }
}

/// The magnitude of the largest offset a single operand can hold.
pub open spec fn largest_offset() -> int {
    0x8000_0000_0000_0000
}

impl Placement {
    /// The state in which every page starts.
    pub open spec fn initial() -> Placement {
        Placement { x: 0, y: 0, font_size: 0 }
    }

    /// `text` placed at this position and size.
    pub open spec fn place(self, text: Seq<char>) -> PlacedText {
        PlacedText { text, x: self.x, y: self.y, font_size: self.font_size }
    }

    /// Both coordinates are at most `steps` largest offsets away from zero.
    pub open spec fn within(self, steps: int) -> bool {
        &&& -steps * largest_offset() <= self.x <= steps * largest_offset()
        &&& -steps * largest_offset() <= self.y <= steps * largest_offset()
    }

    /// Any one offset can be added to the position without leaving the
    /// range of the machine type that holds it.
    pub open spec fn has_room(self) -> bool {
        &&& i128::MIN + largest_offset() <= self.x <= i128::MAX - largest_offset()
        &&& i128::MIN + largest_offset() <= self.y <= i128::MAX - largest_offset()
    }
}

/// The state after `op`, when the state before it was `at`.
///
/// An operator whose operands are missing or of the wrong kind leaves the
/// state as it was.  Of a text matrix only the last two entries are kept:
/// they become the position, and the four entries before them are not read.
pub open spec fn advance(at: Placement, op: OperationView) -> Placement {
    match op.kind() {
        Operator::BeginText => Placement { x: 0, y: 0, font_size: at.font_size },
        Operator::SetFont => match op.number_at(1) {
            Ok(size) => Placement { x: at.x, y: at.y, font_size: size },
            Err(_) => at,
        },
        Operator::MoveText | Operator::MoveTextSetLeading => match (
            op.number_at(0),
            op.number_at(1),
        ) {
            (Ok(tx), Ok(ty)) => Placement { x: at.x + tx, y: at.y + ty, font_size: at.font_size },
            _ => at,
        },
        Operator::SetTextMatrix => match (op.number_at(4), op.number_at(5)) {
            (Ok(e), Ok(f)) => Placement { x: e, y: f, font_size: at.font_size },
            _ => at,
        },
        _ => at,
    }
}

/// What `op` shows when the state before it is `at`, if it shows anything.
///
/// Showing a string needs a byte string as first operand; showing with
/// adjustments needs an array there, and yields one item for the whole array.
pub open spec fn shown(at: Placement, op: OperationView) -> Option<PlacedText> {
    match op.kind() {
        Operator::ShowText => match op.operand(0) {
            Ok(OperandView::ByteString(bytes)) => Some(at.place(decoded(bytes))),
            _ => None,
        },
        Operator::ShowTextAdjusted => match op.operand(0) {
            Ok(OperandView::Array(items)) => Some(at.place(joined(items))),
            _ => None,
        },
        _ => None,
    }
}

/// A state that lies within `steps` offsets of the origin lies within
/// `steps + 1` of them after one more operation.
pub proof fn advance_stays_within(at: Placement, op: Operation, steps: int)
    requires
        0 <= steps,
        at.within(steps),
    ensures
        advance(at, op@).within(steps + 1),
{
    let operands = op.operands;
    assert forall|i: int| 0 <= i < operands@.len() implies match #[trigger] op@.operands[i] {
        OperandView::Number(n) => -largest_offset() <= n < largest_offset(),
        _ => true,
    } by {
        number_in_range(operands@[i]);
    }
}

impl TextPlacementState {
    /// The state in which every page starts: at the origin, with no font
    /// size set.
    pub fn new() -> (state: TextPlacementState)
        ensures
            state@ == Placement::initial(),
    {
        TextPlacementState { x: 0, y: 0, font_size: 0 }
    }

    /// Whether any one offset can still be added to the position.
    pub fn has_room(&self) -> (room: bool)
        ensures
            room == self@.has_room(),
    {
        let low: i128 = i128::MIN + 0x8000_0000_0000_0000;
        let high: i128 = i128::MAX - 0x8000_0000_0000_0000;
        low <= self.x && self.x <= high && low <= self.y && self.y <= high
    }

    /// `text` as an item at the current position and size.
    pub fn place(&self, text: String) -> (item: TextItem)
        ensures
            item@ == self@.place(text@),
    {
        TextItem { text, x: self.x, y: self.y, font_size: self.font_size }
    }

    /// Carries out one operation: updates the state as the operator says
    /// and returns the item it shows, if any.  Before an operator that
    /// moves the position, the position must have room for the offset.
    pub fn apply(&mut self, op: &Operation) -> (emitted: Option<TextItem>)
        requires
            op@.kind().moves_position() ==> old(self)@.has_room(),
        ensures
            final(self)@ == advance(old(self)@, op@),
            match emitted {
                Some(item) => shown(old(self)@, op@) == Some(item@),
                None => shown(old(self)@, op@) is None,
            },
    {
        match Operator::parse(op.operator.as_str()) {
            Operator::BeginText => {
                self.x = 0;
                self.y = 0;
                None
            },
            Operator::SetFont => {
                match op.number_at(1) {
                    Ok(size) => {
                        self.font_size = size;
                    },
                    Err(_) => {},
                }
                None
            },
            Operator::MoveText | Operator::MoveTextSetLeading => {
                match (op.number_at(0), op.number_at(1)) {
                    (Ok(tx), Ok(ty)) => {
                        self.x = self.x + tx as i128;
                        self.y = self.y + ty as i128;
                    },
                    _ => {},
                }
                None
            },
            Operator::SetTextMatrix => {
                match (op.number_at(4), op.number_at(5)) {
                    (Ok(e), Ok(f)) => {
                        self.x = e as i128;
                        self.y = f as i128;
                    },
                    _ => {},
                }
                None
            },
            Operator::ShowText => {
                match op.operand(0) {
                    Ok(operand) => match operand.text() {
                        Ok(text) => Some(self.place(text)),
                        Err(_) => None,
                    },
                    Err(_) => None,
                }
            },
            Operator::ShowTextAdjusted => {
                match op.operand(0) {
                    Ok(operand) => match operand.as_array() {
                        Ok(items) => Some(self.place(joined_text(items))),
                        Err(_) => None,
                    },
                    Err(_) => None,
                }
            },
            Operator::Other => None,
        }
    }
}

} // verus!
