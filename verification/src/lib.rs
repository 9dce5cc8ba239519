//! Positioned text extraction from the decoded content stream of one PDF page.
//!
//! The crate walks a sequence of content-stream operations, tracks the text
//! position and the font size, and reports every shown string together with
//! the position and size in force when it was shown.  Numbers are fixed-point
//! integers, so positions are exact sums of the offsets that led to them.

pub mod extract;
pub mod laws;
pub mod operand;
pub mod operation;
pub mod state;
pub mod text;

pub use crate::extract::extract;
pub use crate::operand::{Operand, OperandError, SCALE};
pub use crate::operation::{Operation, Operator};
pub use crate::state::{TextItem, TextPlacementState};
