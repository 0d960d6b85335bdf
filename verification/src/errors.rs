//! Diagnostics produced while assembling.
//!
//! Every error carries the source line number it originated from. Errors are
//! collected into a list and never abort the whole run; output is produced
//! only when the list stays empty.

use vstd::prelude::*;
use crate::instruction::{ops_view, Mnemonic, OpType, OpView};

verus! {

/// One diagnostic. The variants follow the stages of the pipeline: an
/// unrecognized instruction keyword, an operand token that parses to nothing,
/// a wrong operand count, an operand combination absent from the opcode
/// table, a relative branch target outside the signed 8-bit window, a label
/// reference with no table entry, and a malformed origin directive.
#[derive(Debug, Clone, PartialEq, Eq)]
pub enum AsmError {
    /// The mnemonic keyword is not in the instruction set.
    UnknownMnemonic { line: u64, name: String },
    /// An immediate token (`#...`) that is not an 8- or 16-bit number.
    InvalidData { line: u64 },
    /// An address literal that does not fit in 16 bits.
    InvalidAddress { line: u64 },
    /// Fewer operands than the mnemonic's minimum arity.
    TooFewOperands { line: u64, mnemonic: Mnemonic },
    /// More operands than the mnemonic's maximum arity.
    TooManyOperands { line: u64, mnemonic: Mnemonic },
    /// The operand type combination is not in the mnemonic's legal table;
    /// the operands actually supplied ride along for the diagnostic.
    InvalidOperands { line: u64, mnemonic: Mnemonic, ops: Vec<OpType> },
    /// A relative branch target more than 128 bytes before the next
    /// instruction.
    AddressOutOfRange { line: u64 },
    /// A label reference whose name is in no symbol table entry.
    UnresolvedLabel { line: u64, name: String },
    /// An `ORG`/`CSEG`/`DSEG` directive whose operand is neither a plain
    /// address nor a label followed by an address.
    InvalidOrigin { line: u64 },
}

/// The mathematical abstraction of [`AsmError`]: names become character
/// sequences. Contracts speak over this view.
pub enum ErrView {
    UnknownMnemonic { line: u64, name: Seq<char> },
    InvalidData { line: u64 },
    InvalidAddress { line: u64 },
    TooFewOperands { line: u64, mnemonic: Mnemonic },
    TooManyOperands { line: u64, mnemonic: Mnemonic },
    InvalidOperands { line: u64, mnemonic: Mnemonic, ops: Seq<OpView> },
    AddressOutOfRange { line: u64 },
    UnresolvedLabel { line: u64, name: Seq<char> },
    InvalidOrigin { line: u64 },
}

impl View for AsmError {
    type V = ErrView;

    open spec fn view(&self) -> ErrView {
        match self {
            AsmError::UnknownMnemonic { line, name } => ErrView::UnknownMnemonic {
                line: *line,
                name: name@,
            },
            AsmError::InvalidData { line } => ErrView::InvalidData { line: *line },
            AsmError::InvalidAddress { line } => ErrView::InvalidAddress { line: *line },
            AsmError::TooFewOperands { line, mnemonic } => ErrView::TooFewOperands {
                line: *line,
                mnemonic: *mnemonic,
            },
            AsmError::TooManyOperands { line, mnemonic } => ErrView::TooManyOperands {
                line: *line,
                mnemonic: *mnemonic,
            },
            AsmError::InvalidOperands { line, mnemonic, ops } => ErrView::InvalidOperands {
                line: *line,
                mnemonic: *mnemonic,
                ops: ops_view(ops@),
            },
            AsmError::AddressOutOfRange { line } => ErrView::AddressOutOfRange { line: *line },
            AsmError::UnresolvedLabel { line, name } => ErrView::UnresolvedLabel {
                line: *line,
                name: name@,
            },
            AsmError::InvalidOrigin { line } => ErrView::InvalidOrigin { line: *line },
        }
    }
}

impl AsmError {
    /// The source line number the diagnostic refers to.
    pub open spec fn spec_line(self) -> u64 {
        match self {
            AsmError::UnknownMnemonic { line, .. } => line,
            AsmError::InvalidData { line } => line,
            AsmError::InvalidAddress { line } => line,
            AsmError::TooFewOperands { line, .. } => line,
            AsmError::TooManyOperands { line, .. } => line,
            AsmError::InvalidOperands { line, .. } => line,
            AsmError::AddressOutOfRange { line } => line,
            AsmError::UnresolvedLabel { line, .. } => line,
            AsmError::InvalidOrigin { line } => line,
        }
    }

    /// The source line number, for callers that report diagnostics.
    pub fn line(&self) -> (r: u64)
        ensures
            r == self.spec_line(),
    {
        match self {
            AsmError::UnknownMnemonic { line, .. } => *line,
            AsmError::InvalidData { line } => *line,
            AsmError::InvalidAddress { line } => *line,
            AsmError::TooFewOperands { line, .. } => *line,
            AsmError::TooManyOperands { line, .. } => *line,
            AsmError::InvalidOperands { line, .. } => *line,
            AsmError::AddressOutOfRange { line } => *line,
            AsmError::UnresolvedLabel { line, .. } => *line,
            AsmError::InvalidOrigin { line } => *line,
        }
    }
}

} // verus!
