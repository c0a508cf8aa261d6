//! The domain rule tables, as specification functions. Each rule maps a
//! piece of the expression tree to the sequence of field-value writes it
//! performs (each write with its overridability) and the outcome of that
//! stage. The executable compiler is proved to apply exactly these writes,
//! in exactly this order.

use vstd::prelude::*;

use crate::error::CanNotBeAchievedReason;
use crate::expr::{Assignment, Expr, Primary, Term};
use crate::field_map::{apply_writes, FieldMap, MapState};
use crate::instrument::Instrument;
use crate::token::{Condition, Flag, Identifier, Operator};

verus! {

/// The writes one compilation stage performs, and its outcome. On an error
/// the writes made before the stage failed have still been applied.
pub type RuleStep = (Seq<(Instrument, bool)>, Result<(), CanNotBeAchievedReason>);

/// Pairs every field value of a rule with one overridability.
pub open spec fn with_check(s: Seq<Instrument>, check: bool) -> Seq<(Instrument, bool)> {
    s.map_values(|i: Instrument| (i, check))
}

/// Marks every write of a rule as locked (not overridable).
pub open spec fn locked(s: Seq<Instrument>) -> Seq<(Instrument, bool)> {
    with_check(s, false)
}

/// Wraps a rule outcome in the public error type.
pub open spec fn lift_result(r: Result<(), CanNotBeAchievedReason>) -> Result<(), crate::error::Error> {
    match r {
        Ok(_) => Ok(()),
        Err(e) => Err(crate::error::Error::CanNotBeAchieved(e)),
    }
}

/// The condition table: condition-select-high and condition-select-low for
/// each branch condition. The hardware documentation leaves `IR108`'s low
/// bit unresolved; the value 0 is kept as found.
pub open spec fn condition_select(c: Condition) -> (u8, u8) {
    match c {
        Condition::Zero => (0, 0),
        Condition::One => (1, 0),
        Condition::NotFS1 => (2, 0),
        Condition::NotFS2 => (3, 0),
        Condition::NotFS3 => (4, 0),
        Condition::NotWait => (5, 0),
        Condition::NotC => (2, 1),
        Condition::NotZ => (3, 1),
        Condition::NotV => (4, 1),
        Condition::NotS => (5, 1),
        Condition::NotINT => (6, 1),
        Condition::IR108 => (7, 0),
    }
}

/// The next-address pattern seeded, overridably, by a conditional branch.
pub open spec fn branch_next_pattern() -> u16 {
    0b0010100100
}

/// Reading a single identifier as the source term. `PC` reads through both
/// ports of its physical register 5; `AR` cannot be read at all.
pub open spec fn unary_writes(p: Primary) -> RuleStep {
    match p {
        Primary::Identifier(id) => match id {
            Identifier::PC => (
                locked(
                    seq![
                        Instrument::MI86(2),
                        Instrument::A(5),
                        Instrument::SA(0),
                        Instrument::B(5),
                        Instrument::SB(0),
                        Instrument::MI20(3),
                    ],
                ),
                Ok(()),
            ),
            Identifier::AR => (seq![], Err(CanNotBeAchievedReason::UnreadableOperand)),
            Identifier::MEM => (
                locked(
                    seq![
                        Instrument::MI20(7),
                        Instrument::MIO(0),
                        Instrument::REQ(0),
                        Instrument::WE(1),
                    ],
                ),
                Ok(()),
            ),
            Identifier::SR => (locked(seq![Instrument::SA(1), Instrument::MI20(4)]), Ok(())),
            Identifier::DR => (locked(seq![Instrument::SB(1), Instrument::MI20(3)]), Ok(())),
            Identifier::Q => (locked(seq![Instrument::MI20(2)]), Ok(())),
            Identifier::IP => (
                locked(seq![Instrument::B(6), Instrument::SB(0), Instrument::MI20(3)]),
                Ok(()),
            ),
            Identifier::R(n) => (
                locked(seq![Instrument::B(n), Instrument::SB(0), Instrument::MI20(3)]),
                Ok(()),
            ),
        },
        Primary::Number(_) => (seq![], Err(CanNotBeAchievedReason::UnsupportedOperand)),
    }
}

/// Writing the compiled term into a destination identifier. `SR` cannot be
/// written; write-back to `IP` is deliberately unimplemented.
pub open spec fn dest_writes(id: Identifier) -> RuleStep {
    match id {
        Identifier::PC => (locked(seq![Instrument::MI86(3)]), Ok(())),
        Identifier::AR => (locked(seq![Instrument::DC2(2)]), Ok(())),
        Identifier::MEM => (
            locked(
                seq![
                    Instrument::DC1(1),
                    Instrument::MIO(0),
                    Instrument::REQ(0),
                    Instrument::WE(0),
                ],
            ),
            Ok(()),
        ),
        Identifier::SR => (seq![], Err(CanNotBeAchievedReason::UnwritableOperand)),
        Identifier::Q => (locked(seq![Instrument::MI86(0)]), Ok(())),
        Identifier::DR => (locked(seq![Instrument::MI86(3), Instrument::SB(1)]), Ok(())),
        Identifier::R(n) => (
            locked(
                seq![
                    Instrument::MI86(3),
                    Instrument::A(n),
                    Instrument::SA(0),
                    Instrument::B(n),
                    Instrument::SB(0),
                ],
            ),
            Ok(()),
        ),
        Identifier::IP => (seq![], Err(CanNotBeAchievedReason::UnsupportedOperand)),
    }
}

/// Subtraction normalisation: these written operand pairs are hard-wired to
/// the ALU's S-input port, so `-` must be expressed as "S minus R" with the
/// operands swapped.
pub open spec fn minus_swaps(l: Identifier, r: Identifier) -> bool {
    ||| (l == Identifier::Q && r == Identifier::SR)
    ||| (l == Identifier::DR && r == Identifier::SR)
    ||| r == Identifier::MEM
}

/// The ALU function a binary operator selects: `+` is always "R plus S";
/// `-` is "S minus R" for the swapped pairs and "R minus S" otherwise.
pub open spec fn alu_function(op: Operator, l: Identifier, r: Identifier) -> u8 {
    match op {
        Operator::Add => 0,
        Operator::Minus => if minus_swaps(l, r) {
            1
        } else {
            2
        },
    }
}

/// Whether `l` and `r` are `x` and `y` in either order.
pub open spec fn pair_is(l: Identifier, r: Identifier, x: Identifier, y: Identifier) -> bool {
    (l == x && r == y) || (l == y && r == x)
}

/// The operand-source table for a (possibly swapped) binary operand pair:
/// which ports, latches and memory cycle the pair activates.
pub open spec fn pair_writes(l: Identifier, r: Identifier) -> RuleStep {
    if l == Identifier::PC || r == Identifier::PC {
        (seq![], Err(CanNotBeAchievedReason::UnsupportedOperand))
    } else if l == Identifier::AR || r == Identifier::AR {
        (seq![], Err(CanNotBeAchievedReason::UnreadableOperand))
    } else if pair_is(l, r, Identifier::SR, Identifier::Q) {
        (locked(seq![Instrument::SA(1), Instrument::MI20(0)]), Ok(()))
    } else if pair_is(l, r, Identifier::SR, Identifier::DR) {
        (locked(seq![Instrument::SA(1), Instrument::SB(1), Instrument::MI20(1)]), Ok(()))
    } else if pair_is(l, r, Identifier::MEM, Identifier::SR) {
        (
            locked(
                seq![
                    Instrument::SA(1),
                    Instrument::MIO(0),
                    Instrument::REQ(0),
                    Instrument::WE(1),
                    Instrument::MI20(5),
                ],
            ),
            Ok(()),
        )
    } else if pair_is(l, r, Identifier::MEM, Identifier::Q) {
        (
            locked(
                seq![
                    Instrument::MIO(0),
                    Instrument::REQ(0),
                    Instrument::WE(1),
                    Instrument::MI20(6),
                ],
            ),
            Ok(()),
        )
    } else if pair_is(l, r, Identifier::MEM, Identifier::DR) {
        (seq![], Err(CanNotBeAchievedReason::IllegalOperandCombination))
    } else if pair_is(l, r, Identifier::IP, Identifier::SR) {
        (
            locked(
                seq![
                    Instrument::SA(1),
                    Instrument::B(6),
                    Instrument::SB(0),
                    Instrument::MI20(1),
                ],
            ),
            Ok(()),
        )
    } else if pair_is(l, r, Identifier::IP, Identifier::DR) {
        (
            locked(
                seq![
                    Instrument::SB(1),
                    Instrument::A(6),
                    Instrument::SA(0),
                    Instrument::MI20(1),
                ],
            ),
            Ok(()),
        )
    } else if pair_is(l, r, Identifier::IP, Identifier::Q) {
        (locked(seq![Instrument::A(6), Instrument::SA(0), Instrument::MI20(0)]), Ok(()))
    } else if pair_is(l, r, Identifier::IP, Identifier::MEM) {
        (
            locked(
                seq![
                    Instrument::MIO(0),
                    Instrument::REQ(0),
                    Instrument::WE(1),
                    Instrument::A(6),
                    Instrument::SA(0),
                    Instrument::B(5),
                    Instrument::SB(0),
                    Instrument::MI20(5),
                ],
            ),
            Ok(()),
        )
    } else {
        (seq![], Err(CanNotBeAchievedReason::UnknownExpression))
    }
}

/// A binary source term: equal operands are rejected; the operator selects
/// the ALU function (swapping the operands where subtraction is wired
/// through the S port); the swapped pair then drives the operand-source
/// table. Literal operands are deliberately unimplemented.
pub open spec fn binary_writes(left: Primary, op: Operator, right: Primary) -> RuleStep {
    match (left, right) {
        (Primary::Identifier(l), Primary::Identifier(r)) => {
            if l == r {
                (seq![], Err(CanNotBeAchievedReason::IdenticalOperands))
            } else {
                let swap = op == Operator::Minus && minus_swaps(l, r);
                let a = if swap {
                    r
                } else {
                    l
                };
                let b = if swap {
                    l
                } else {
                    r
                };
                let opw = locked(seq![Instrument::MI53(alu_function(op, l, r))]);
                let (pw, pr) = pair_writes(a, b);
                (opw + pw, pr)
            }
        },
        _ => (seq![], Err(CanNotBeAchievedReason::UnsupportedOperand)),
    }
}

/// A source term: unary or binary.
pub open spec fn term_writes(t: Term) -> RuleStep {
    match t.right {
        Option::None => unary_writes(t.left),
        Option::Some((op, right)) => binary_writes(t.left, op, right),
    }
}

/// An assignment: the source term, then (if the term compiled) the
/// destination.
pub open spec fn assignment_writes(a: Assignment) -> RuleStep {
    let (tw, tr) = term_writes(a.term);
    match tr {
        Err(e) => (tw, Err(e)),
        Ok(_) => {
            let (dw, dr) = dest_writes(a.identifier);
            (tw + dw, dr)
        },
    }
}

/// One flag. A condition seeds the branch next-address pattern overridably,
/// then locks the instruction class and the condition selects; a PC-step
/// advances physical register 5; a carry latch captures the ALU flags. An
/// explicit next-address flag is deliberately unimplemented.
pub open spec fn flag_writes(f: Flag) -> RuleStep {
    match f {
        Flag::Condition(c) => {
            let (hi, lo) = condition_select(c);
            (
                seq![(Instrument::NEXT(branch_next_pattern()), true)] + locked(
                    seq![Instrument::CI(3), Instrument::SCC(hi), Instrument::SC(lo)],
                ),
                Ok(()),
            )
        },
        Flag::PCStep => (
            locked(
                seq![
                    Instrument::SCi(1),
                    Instrument::MI86(2),
                    Instrument::B(5),
                    Instrument::SB(0),
                    Instrument::MI20(3),
                ],
            ),
            Ok(()),
        ),
        Flag::CarryFromALU => (locked(seq![Instrument::SST(1)]), Ok(())),
        Flag::Next(_) => (seq![], Err(CanNotBeAchievedReason::UnsupportedOperand)),
    }
}

/// The flag list, in order; an unsupported flag stops the pass.
pub open spec fn flags_writes(fs: Seq<Flag>) -> RuleStep
    decreases fs.len(),
{
    if fs.len() == 0 {
        (seq![], Ok(()))
    } else {
        let (w1, r1) = flag_writes(fs[0]);
        match r1 {
            Err(e) => (w1, Err(e)),
            Ok(_) => {
                let (wr, rr) = flags_writes(fs.drop_first());
                (w1 + wr, rr)
            },
        }
    }
}

/// A whole expression: the assignment pass, then (if it succeeded) the flag
/// pass.
pub open spec fn expr_writes(e: Expr) -> RuleStep {
    let (aw, ar) = match e.assignment {
        Option::None => (seq![], Ok(())),
        Option::Some(a) => assignment_writes(a),
    };
    match ar {
        Err(x) => (aw, Err(x)),
        Ok(_) => {
            let (fw, fr) = flags_writes(e.flags_spec());
            (aw + fw, fr)
        },
    }
}

/// The three defaults a fresh compiler seeds: instruction class "sequential
/// execution", memory cycle "none", second-stage ALU function "none".
pub open spec fn seed_writes() -> Seq<(Instrument, bool)> {
    seq![
        (Instrument::CI(14), true),
        (Instrument::MIO(1), true),
        (Instrument::REQ(0), true),
        (Instrument::WE(0), true),
        (Instrument::MI86(1), true),
    ]
}

/// The state of a freshly constructed compiler.
pub open spec fn initial_state() -> MapState {
    apply_writes((FieldMap::empty_spec(), Seq::empty()), seed_writes())
}

/// The compilation state after compiling `e` from a fresh compiler.
pub open spec fn compile_state(e: Expr) -> MapState {
    apply_writes(initial_state(), expr_writes(e).0)
}

/// The outcome of compiling `e`.
pub open spec fn compile_result(e: Expr) -> Result<(), CanNotBeAchievedReason> {
    expr_writes(e).1
}

} // verus!
