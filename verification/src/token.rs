//! Tokens of the micro-operation language: the closed sets of identifiers,
//! operators, branch conditions and pulse flags that an expression tree is
//! built from.

use vstd::prelude::*;

verus! {

/// An operand of the datapath. `PC` is hardware-aliased to general register 5
/// and `IP` to general register 6; the rule tables encode that aliasing.
#[derive(Debug, Clone, Copy, PartialEq, Eq, Structural)]
pub enum Identifier {
    /// Program counter (physically general register 5).
    PC,
    /// Address register; it can be written but never read back.
    AR,
    /// The memory operand, read or written through a memory cycle.
    MEM,
    /// The ALU "S"-input latch (the A-port latch source).
    SR,
    /// The ALU output latch.
    Q,
    /// The data register (the B-port latch source).
    DR,
    /// Instruction pointer (physically general register 6).
    IP,
    /// One of the sixteen general registers R0..R15.
    R(u8),
}

/// Binary operator of a term.
#[derive(Debug, Clone, Copy, PartialEq, Eq, Structural)]
pub enum Operator {
    /// Addition; always compiled to the ALU function "R plus S".
    Add,
    /// Subtraction; compiled to "R minus S" or, for the S-port-wired operand
    /// pairs, to "S minus R" with the operands swapped.
    Minus,
}

/// A branch condition. Each one selects a row of the condition table, a pair
/// of (condition-select-high, condition-select-low) field values.
#[derive(Debug, Clone, Copy, PartialEq, Eq, Structural)]
pub enum Condition {
    /// Condition always satisfied.
    Zero,
    /// Condition never satisfied.
    One,
    NotFS1,
    NotFS2,
    NotFS3,
    NotWait,
    NotS,
    NotV,
    NotZ,
    NotC,
    NotINT,
    /// Condition select driven from instruction-register bits 10..8. The
    /// hardware documentation leaves the low select bit unresolved; the low
    /// component 0 is kept as found.
    IR108,
}

/// Punctuation tokens of the surface syntax. The compiler core never sees
/// them; they are part of the language's token set.
#[derive(Debug, Clone, Copy, PartialEq, Eq, Structural)]
pub enum Extra {
    CC,
    ASSIGN,
    GAP,
    EQUAL,
}

/// A flag appended to an expression after the assignment.
#[derive(Debug, Clone, Copy, PartialEq, Eq, Structural)]
pub enum Flag {
    /// Conditional-branch request with its condition.
    Condition(Condition),
    /// Advance the program counter (physically register 5) by one step.
    PCStep,
    /// Latch the ALU status flags into the status register.
    CarryFromALU,
    /// Explicit next-address request; deliberately unimplemented in the
    /// compiler (rejected as an unsupported form).
    Next(u16),
}

} // verus!
