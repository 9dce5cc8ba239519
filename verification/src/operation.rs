//! Operators, and operations: an operator name with its operands.

use crate::operand::{Operand, OperandError, OperandView};
use vstd::prelude::*;
use vstd::string::StrSliceExecFns;

verus! {

/// What an operator name means to text extraction.  Names are matched
/// exactly and with regard to case; every name that does not place or show
/// text is `Other`.
#[derive(Debug, Clone, Copy, PartialEq, Eq, Structural)]
pub enum Operator {
    /// `BT`: begin a text object.
    BeginText,
    /// `Tf`: set the font and the font size.
    SetFont,
    /// `Td`: move the text position.
    MoveText,
    /// `TD`: move the text position and set the leading.
    MoveTextSetLeading,
    /// `Tm`: set the text matrix.
    SetTextMatrix,
    /// `Tj`: show a string.
    ShowText,
    /// `TJ`: show strings with spacing adjustments between them.
    ShowTextAdjusted,
    /// Any other name.
    Other,
}

impl Operator {
    /// The operator that `name` stands for.
    pub open spec fn of(name: Seq<char>) -> Operator {
        if name == "BT"@ {
            Operator::BeginText
        } else if name == "Tf"@ {
            Operator::SetFont
        } else if name == "Td"@ {
            Operator::MoveText
        } else if name == "TD"@ {
            Operator::MoveTextSetLeading
        } else if name == "Tm"@ {
            Operator::SetTextMatrix
        } else if name == "Tj"@ {
            Operator::ShowText
        } else if name == "TJ"@ {
            Operator::ShowTextAdjusted
        } else {
            Operator::Other
        }
    }

    /// Whether the operator shows text.
    pub open spec fn shows_text(self) -> bool {
        self == Operator::ShowText || self == Operator::ShowTextAdjusted
    }

    /// Whether the operator adds an offset to the text position.
    pub open spec fn moves_position(self) -> bool {
        self == Operator::MoveText || self == Operator::MoveTextSetLeading
    }

    /// Recognizes an operator by its name.
    pub fn parse(name: &str) -> (operator: Operator)
        ensures
            operator == Operator::of(name@),
    {
        proof {
            reveal_strlit("BT");
            reveal_strlit("Tf");
            reveal_strlit("Td");
            reveal_strlit("TD");
            reveal_strlit("Tm");
            reveal_strlit("Tj");
            reveal_strlit("TJ");
        }
        if name.unicode_len() != 2 {
            return Operator::Other;
        }
        let first = name.get_char(0);
        let second = name.get_char(1);
        if first == 'B' && second == 'T' {
            assert(name@ =~= "BT"@);
            Operator::BeginText
        } else if first == 'T' && second == 'f' {
            assert(name@ =~= "Tf"@);
            Operator::SetFont
        } else if first == 'T' && second == 'd' {
            assert(name@ =~= "Td"@);
            Operator::MoveText
        } else if first == 'T' && second == 'D' {
            assert(name@ =~= "TD"@);
            Operator::MoveTextSetLeading
        } else if first == 'T' && second == 'm' {
            assert(name@ =~= "Tm"@);
            Operator::SetTextMatrix
        } else if first == 'T' && second == 'j' {
            assert(name@ =~= "Tj"@);
            Operator::ShowText
        } else if first == 'T' && second == 'J' {
            assert(name@ =~= "TJ"@);
            Operator::ShowTextAdjusted
        } else {
            Operator::Other
        }
    }
}

/// One step of a content stream: an operator name and its operands.
#[derive(Debug, Clone, PartialEq, Eq)]
pub struct Operation {
    pub operator: String,
    pub operands: Vec<Operand>,
}

/// The mathematical value of an [`Operation`].
pub struct OperationView {
    pub operator: Seq<char>,
    pub operands: Seq<OperandView>,
}

impl View for Operation {
    type V = OperationView;

    open spec fn view(&self) -> OperationView {
        OperationView { operator: self.operator@, operands: self.operands.deep_view() }
    }
}

impl DeepView for Operation {
    type V = OperationView;

    open spec fn deep_view(&self) -> OperationView {
        self.view()
    }
}

impl OperationView {
    /// What the operator name of this operation stands for.
    pub open spec fn kind(self) -> Operator {
        Operator::of(self.operator)
    }

    /// The operand at position `i`, or `Missing` when there are too few.
    pub open spec fn operand(self, i: int) -> Result<OperandView, OperandError> {
        if 0 <= i < self.operands.len() {
            Ok(self.operands[i])
        } else {
            Err(OperandError::Missing)
        }
    }

    /// The number at position `i`: `Missing` when there are too few
    /// operands, `NotANumber` when the operand there is of another kind.
    pub open spec fn number_at(self, i: int) -> Result<int, OperandError> {
        match self.operand(i) {
            Ok(OperandView::Number(n)) => Ok(n),
            Ok(_) => Err(OperandError::NotANumber),
            Err(e) => Err(e),
        }
    }
}

impl Operation {
    /// An operation with the given operator name and operands.
    pub fn new(operator: &str, operands: Vec<Operand>) -> (operation: Operation)
        ensures
            operation@ == (OperationView {
                operator: operator@,
                operands: operands.deep_view(),
            }),
    {
        Operation { operator: operator.to_owned(), operands }
    }

    /// The operand at position `i`, if the operation has that many.
    pub fn operand(&self, i: usize) -> (r: Result<&Operand, OperandError>)
        ensures
            match r {
                Ok(operand) => self@.operand(i as int) == Ok::<OperandView, OperandError>(
                    operand@,
                ),
                Err(e) => self@.operand(i as int) == Err::<OperandView, OperandError>(e),
            },
    {
        if i < self.operands.len() {
            Ok(&self.operands[i])
        } else {
            Err(OperandError::Missing)
        }
    }

    /// The number at position `i`, if the operation has that many operands
    /// and the one there is a number.
    pub fn number_at(&self, i: usize) -> (r: Result<i64, OperandError>)
        ensures
            match r {
                Ok(n) => self@.number_at(i as int) == Ok::<int, OperandError>(n as int),
                Err(e) => self@.number_at(i as int) == Err::<int, OperandError>(e),
            },
    {
        match self.operand(i) {
            Ok(operand) => operand.as_number(),
            Err(e) => Err(e),
        }
    }
}

} // verus!
