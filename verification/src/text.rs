//! Turning the bytes of string operands into text.
//!
//! Every string is decoded the same way, whichever operator shows it: as
//! UTF-8, with each invalid sequence replaced by U+FFFD.  Decoding therefore
//! never fails.

use crate::operand::{Operand, OperandError, OperandView};
use vstd::prelude::*;
use vstd::utf8::{decode_utf8, pop_first_scalar, valid_utf8};

verus! {

/// What lossy UTF-8 decoding makes of `bytes` that are not valid UTF-8:
/// the characters of the valid stretches, with U+FFFD in place of each
/// invalid sequence.
pub uninterp spec fn lossy_utf8(bytes: Seq<u8>) -> Seq<char>;

/// The text that `bytes` decode to.  Valid UTF-8 decodes to the characters
/// it encodes; anything else decodes lossily.
pub open spec fn decoded(bytes: Seq<u8>) -> Seq<char> {
    if valid_utf8(bytes) {
        decode_utf8(bytes)
    } else {
        lossy_utf8(bytes)
    }
}

/// Calls `String::from_utf8_lossy` and takes ownership of what it returns.
///
/// Not proved: that bytes which are valid UTF-8 come back as exactly the
/// characters they encode, and that for other bytes the result depends on
/// the bytes alone, which is what lets it be named `lossy_utf8`.
#[verifier::external_body]
fn decode_lossy(bytes: &[u8]) -> (text: String)
    ensures
        valid_utf8(bytes@) ==> text@ == decode_utf8(bytes@),
        !valid_utf8(bytes@) ==> text@ == lossy_utf8(bytes@),
{
    String::from_utf8_lossy(bytes).into_owned()
}

/// Whether every byte is an ASCII character.
pub open spec fn is_ascii_bytes(bytes: Seq<u8>) -> bool {
    forall|i: int| 0 <= i < bytes.len() ==> bytes[i] < 0x80
}

/// The characters that ASCII bytes stand for, one for each byte.
pub open spec fn ascii_text(bytes: Seq<u8>) -> Seq<char> {
    Seq::new(bytes.len(), |i: int| bytes[i] as char)
}

/// ASCII bytes decode to the characters they stand for.
pub proof fn ascii_decodes_to_itself(bytes: Seq<u8>)
    requires
        is_ascii_bytes(bytes),
    ensures
        valid_utf8(bytes),
        decoded(bytes) == ascii_text(bytes),
    decreases bytes.len(),
{
    if bytes.len() > 0 {
        let first = bytes[0];
        assert(first & 0x7f == first) by (bit_vector)
            requires
                first < 0x80,
        ;
        let rest = pop_first_scalar(bytes);
        assert(rest =~= bytes.subrange(1, bytes.len() as int));
        ascii_decodes_to_itself(rest);
        assert(decode_utf8(bytes) =~= ascii_text(bytes));
    } else {
        assert(decode_utf8(bytes) =~= ascii_text(bytes));
    }
}

/// The text an operand contributes inside an array of strings and spacing
/// adjustments: the decoded bytes of a byte string, nothing for anything else.
pub open spec fn fragment(operand: OperandView) -> Seq<char> {
    match operand {
        OperandView::ByteString(bytes) => decoded(bytes),
        _ => Seq::empty(),
    }
}

/// The fragments of `items`, joined in order.
pub open spec fn joined(items: Seq<OperandView>) -> Seq<char>
    decreases items.len(),
{
    if items.len() == 0 {
        Seq::empty()
    } else {
        joined(items.drop_last()) + fragment(items.last())
    }
}

impl Operand {
    /// The decoded text of a byte-string operand; any other kind of operand
    /// is `NotAByteString`.
    pub fn text(&self) -> (r: Result<String, OperandError>)
        ensures
            match r {
                Ok(text) => self@ is ByteString && text@ == fragment(self@),
                Err(e) => e == OperandError::NotAByteString && !(self@ is ByteString),
            },
    {
        match self.as_byte_string() {
            Ok(bytes) => Ok(decode_lossy(bytes)),
            Err(e) => Err(e),
        }
    }
}

/// Decodes every byte string among `items` and joins the pieces in order.
/// Elements of any other kind, such as spacing adjustments, add nothing.
pub fn joined_text(items: &[Operand]) -> (text: String)
    ensures
        text@ == joined(items.deep_view()),
{
    let mut text = String::new();
    let mut i: usize = 0;
    while i < items.len()
        invariant
            i <= items.len(),
            text@ == joined(items.deep_view().take(i as int)),
        decreases items.len() - i,
    {
        let ghost before = items.deep_view().take(i as int);
        let ghost after = items.deep_view().take(i + 1);
        proof {
            assert(after.drop_last() =~= before);
            assert(after.last() == items[i as int]@);
        }
        match items[i].as_byte_string() {
            Ok(bytes) => {
                let piece = decode_lossy(bytes);
                text.append(piece.as_str());
            },
            Err(_) => {
                assert(text@ + Seq::<char>::empty() =~= text@);
            },
        }
        i += 1;
    }
    proof {
        assert(items.deep_view().take(i as int) =~= items.deep_view());
    }
    text
}

} // verus!
