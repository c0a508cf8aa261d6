//! The closed error taxonomy of the compiler. Every error is fatal for the
//! current compilation; the caller must fix the source expression.

use vstd::prelude::*;

verus! {

/// Why a source expression cannot be realised on the datapath.
#[derive(Debug, Clone, Copy, PartialEq, Eq, Structural)]
pub enum CanNotBeAchievedReason {
    /// `AR` was used as a read source; the address register cannot be read.
    UnreadableOperand,
    /// `SR` was used as an assignment destination; the S-latch cannot be
    /// written from the ALU result.
    UnwritableOperand,
    /// Both sides of a binary term name the same identifier.
    IdenticalOperands,
    /// `DR` and `MEM` were combined in one binary term.
    IllegalOperandCombination,
    /// The identifier pair of a binary term is covered by no rule.
    UnknownExpression,
    /// A deliberately unimplemented source form: a literal operand, `PC` in a
    /// binary term, `IP` as a destination, or an explicit next-address flag.
    UnsupportedOperand,
}

/// A compilation error.
#[derive(Debug, Clone, Copy, PartialEq, Eq, Structural)]
pub enum Error {
    /// The expression is well-formed but cannot be achieved on this hardware.
    CanNotBeAchieved(CanNotBeAchievedReason),
}

impl CanNotBeAchievedReason {
    /// A human-readable description of the reason.
    pub fn message(&self) -> &'static str {
        match self {
            CanNotBeAchievedReason::UnreadableOperand => "AR cannot be read",
            CanNotBeAchievedReason::UnwritableOperand => "SR cannot be written",
            CanNotBeAchievedReason::IdenticalOperands => {
                "the two sides of a binary term must differ"
            },
            CanNotBeAchievedReason::IllegalOperandCombination => {
                "DR cannot appear in a binary term together with MEM"
            },
            CanNotBeAchievedReason::UnknownExpression => "unknown expression",
            CanNotBeAchievedReason::UnsupportedOperand => "unsupported operand",
        }
    }
}

impl Error {
    /// A human-readable description of the error.
    pub fn message(&self) -> &'static str {
        match self {
            Error::CanNotBeAchieved(reason) => reason.message(),
        }
    }
}

} // verus!
