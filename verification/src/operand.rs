//! Operands of content-stream operations and their mathematical model.

use vstd::prelude::*;

verus! {

/// How many fixed-point units make one unit of text space: numbers carry
/// three decimal places.
pub const SCALE: i64 = 1000;

/// The largest whole number whose fixed-point form fits in an `i64`.
pub const MAX_WHOLE: i64 = 9_223_372_036_854_775;

/// A typed argument of a content-stream operator.
///
/// Numbers are fixed-point: the payload of `Number` counts steps of
/// `1 / SCALE` of a unit of text space.
#[derive(Debug, PartialEq, Eq)]
pub enum Operand {
    Number(i64),
    ByteString(Vec<u8>),
    Name(Vec<u8>),
    Array(Vec<Operand>),
    Dictionary(Vec<(Vec<u8>, Operand)>),
    Reference(u32, u16),
    Boolean(bool),
    Null,
}

/// The mathematical value of an [`Operand`].
pub enum OperandView {
    Number(int),
    ByteString(Seq<u8>),
    Name(Seq<u8>),
    Array(Seq<OperandView>),
    Dictionary(Seq<(Seq<u8>, OperandView)>),
    Reference(nat, nat),
    Boolean(bool),
    Null,
}

/// The value of an operand, defined by recursion on its structure.  The
/// sequences built for arrays and dictionaries are only ever read below their
/// length, so the value given beyond it plays no part.
pub open spec fn operand_value(operand: Operand) -> OperandView
    decreases operand,
{
    match operand {
        Operand::Number(n) => OperandView::Number(n as int),
        Operand::ByteString(bytes) => OperandView::ByteString(bytes@),
        Operand::Name(bytes) => OperandView::Name(bytes@),
        Operand::Array(items) => OperandView::Array(
            Seq::new(
                items@.len(),
                |i: int|
                    if 0 <= i < items@.len() {
                        operand_value(items@[i])
                    } else {
                        OperandView::Null
                    },
            ),
        ),
        Operand::Dictionary(entries) => OperandView::Dictionary(
            Seq::new(
                entries@.len(),
                |i: int|
                    if 0 <= i < entries@.len() {
                        (entries@[i].0@, operand_value(entries@[i].1))
                    } else {
                        (Seq::empty(), OperandView::Null)
                    },
            ),
        ),
        Operand::Reference(id, generation) => OperandView::Reference(id as nat, generation as nat),
        Operand::Boolean(b) => OperandView::Boolean(b),
        Operand::Null => OperandView::Null,
    }
}

impl View for Operand {
    type V = OperandView;

    open spec fn view(&self) -> OperandView {
        operand_value(*self)
    }
}

impl DeepView for Operand {
    type V = OperandView;

    open spec fn deep_view(&self) -> OperandView {
        self.view()
    }
}

/// Why an operand could not be used the way an operator wanted it.
#[derive(Debug, Clone, Copy, PartialEq, Eq, Structural)]
pub enum OperandError {
    /// The operation has no operand at the position asked for.
    Missing,
    /// The operand is present but is not a number.
    NotANumber,
    /// The operand is present but is not a byte string.
    NotAByteString,
    /// The operand is present but is not an array.
    NotAnArray,
}

/// `value` brought into the range of `i64`.
pub open spec fn saturated(value: int) -> int {
    if value < i64::MIN {
        i64::MIN as int
    } else if value > i64::MAX {
        i64::MAX as int
    } else {
        value
    }
}

/// The views of a sequence of operands, element by element.
pub open spec fn operand_views(items: Seq<Operand>) -> Seq<OperandView> {
    Seq::new(items.len(), |i: int| items[i]@)
}

/// The view of an array operand lists the views of its elements.
pub proof fn array_view(items: Vec<Operand>)
    ensures
        Operand::Array(items)@ == OperandView::Array(operand_views(items@)),
        items.deep_view() == operand_views(items@),
{
    assert(Operand::Array(items)@->Array_0 =~= operand_views(items@));
    assert(items.deep_view() =~= operand_views(items@));
}

/// A number operand holds a value in the range of `i64`.
pub proof fn number_in_range(operand: Operand)
    ensures
        match operand@ {
            OperandView::Number(n) => i64::MIN <= n <= i64::MAX,
            _ => true,
        },
{
}

impl Clone for Operand {
    /// A copy with the same value, however deeply arrays are nested.
    fn clone(&self) -> (copy: Operand)
        ensures
            copy@ == self@,
        decreases self,
    {
        match self {
            Operand::Number(n) => Operand::Number(*n),
            Operand::ByteString(bytes) => Operand::ByteString(bytes.clone()),
            Operand::Name(bytes) => Operand::Name(bytes.clone()),
            Operand::Array(items) => {
                let mut copies: Vec<Operand> = Vec::new();
                let mut i: usize = 0;
                while i < items.len()
                    invariant
                        i <= items.len(),
                        copies.len() == i,
                        *self == Operand::Array(*items),
                        forall|j: int| 0 <= j < i ==> copies[j]@ == items[j]@,
                    decreases items.len() - i,
                {
                    proof {
                        assert(decreases_to!(*self => self->Array_0@));
                        assert(decreases_to!(items@ => items@[i as int]));
                    }
                    copies.push(items[i].clone());
                    i += 1;
                }
                proof {
                    array_view(*items);
                    array_view(copies);
                    assert(operand_views(copies@) =~= operand_views(items@));
                }
                Operand::Array(copies)
            },
            Operand::Dictionary(entries) => {
                let mut copies: Vec<(Vec<u8>, Operand)> = Vec::new();
                let mut i: usize = 0;
                while i < entries.len()
                    invariant
                        i <= entries.len(),
                        copies.len() == i,
                        *self == Operand::Dictionary(*entries),
                        forall|j: int|
                            0 <= j < i ==> copies[j].0@ == entries[j].0@ && copies[j].1@
                                == entries[j].1@,
                    decreases entries.len() - i,
                {
                    proof {
                        assert(decreases_to!(*self => self->Dictionary_0@));
                        assert(decreases_to!(entries@ => entries@[i as int]));
                        assert(decreases_to!(entries@[i as int] => entries@[i as int].1));
                    }
                    copies.push((entries[i].0.clone(), entries[i].1.clone()));
                    i += 1;
                }
                let copy = Operand::Dictionary(copies);
                assert(copy@->Dictionary_0 =~= self@->Dictionary_0);
                copy
            },
            Operand::Reference(id, generation) => Operand::Reference(*id, *generation),
            Operand::Boolean(b) => Operand::Boolean(*b),
            Operand::Null => Operand::Null,
        }
    }
}

impl Operand {
    /// The operand for the whole number `value`, in fixed-point units.
    /// A value too large for the fixed-point range becomes the nearest bound.
    pub fn from_integer(value: i64) -> (operand: Operand)
        ensures
            operand@ == OperandView::Number(saturated(value * SCALE)),
    {
        if value > MAX_WHOLE {
            Operand::Number(i64::MAX)
        } else if value < -MAX_WHOLE {
            Operand::Number(i64::MIN)
        } else {
            Operand::Number(value * SCALE)
        }
    }

    /// The number this operand holds; any other kind of operand is
    /// `NotANumber`.
    pub fn as_number(&self) -> (r: Result<i64, OperandError>)
        ensures
            match r {
                Ok(n) => self@ == OperandView::Number(n as int),
                Err(e) => e == OperandError::NotANumber && !(self@ is Number),
            },
    {
        match self {
            Operand::Number(n) => Ok(*n),
            _ => Err(OperandError::NotANumber),
        }
    }

    /// The bytes of a byte-string operand; any other kind of operand is
    /// `NotAByteString`.
    pub fn as_byte_string(&self) -> (r: Result<&[u8], OperandError>)
        ensures
            match r {
                Ok(bytes) => self@ == OperandView::ByteString(bytes@),
                Err(e) => e == OperandError::NotAByteString && !(self@ is ByteString),
            },
    {
        match self {
            Operand::ByteString(bytes) => Ok(bytes.as_slice()),
            _ => Err(OperandError::NotAByteString),
        }
    }

    /// The elements of an array operand; any other kind of operand is
    /// `NotAnArray`.
    pub fn as_array(&self) -> (r: Result<&[Operand], OperandError>)
        ensures
            match r {
                Ok(items) => self@ == OperandView::Array(items.deep_view()),
                Err(e) => e == OperandError::NotAnArray && !(self@ is Array),
            },
    {
        match self {
            Operand::Array(items) => {
                proof {
                    array_view(*items);
                }
                let elements = items.as_slice();
                assert(elements.deep_view() =~= operand_views(items@));
                Ok(elements)
            },
            _ => Err(OperandError::NotAnArray),
        }
    }
}

} // verus!
