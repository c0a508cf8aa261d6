use tec2::error::{CanNotBeAchievedReason, Error};
use tec2::signal::{ToInstrument, A, B, MEM as MemCycle};
use tec2::expr::{Assignment, Expr, FlagExpr, Primary, Term};
use tec2::instrument::Instrument;
use tec2::parser::ExprParser;
use tec2::token::Identifier::{AR, DR, IP, MEM, PC, Q, R, SR};
use tec2::token::Operator::{Add, Minus};
use tec2::token::{Condition, Flag, Identifier, Operator};

fn expr(assignment: Option<Assignment>, flags: Vec<Flag>) -> Expr {
    let mut head: Option<Box<FlagExpr>> = None;
    for flag in flags.into_iter().rev() {
        head = Some(Box::new(FlagExpr { flag, next: head }));
    }
    Expr {
        assignment,
        flag_expr: head,
    }
}

fn assign(
    left: Identifier,
    op_right: Option<(Operator, Identifier)>,
    dest: Identifier,
) -> Option<Assignment> {
    Some(Assignment {
        term: Term {
            left: Primary::Identifier(left),
            right: op_right.map(|(op, r)| (op, Primary::Identifier(r))),
        },
        identifier: dest,
    })
}

fn compiled(e: Expr) -> ExprParser {
    let mut parser = ExprParser::new(e);
    parser.parse().unwrap();
    parser
}

fn compile_err(e: Expr) -> Error {
    let mut parser = ExprParser::new(e);
    parser.parse().unwrap_err()
}

/// The emitted word is exactly 56 bits / 7 bytes, and the reserved gap
/// positions 10, 11 and 20 are always zero.
#[test]
fn test_word_size_and_gaps() {
    let scenarios = vec![
        expr(None, vec![Flag::PCStep]),
        expr(assign(MEM, None, DR), vec![]),
        expr(assign(DR, None, MEM), vec![Flag::Condition(Condition::Zero)]),
        expr(assign(IP, Some((Add, MEM)), PC), vec![Flag::Condition(Condition::NotC)]),
        expr(assign(SR, Some((Minus, DR)), Q), vec![Flag::CarryFromALU]),
        expr(None, vec![]),
    ];
    for e in scenarios {
        let parser = compiled(e);
        let bits = parser.bin();
        let bytes = parser.hex();
        assert_eq!(bits.len(), 56);
        assert_eq!(bytes.len(), 7);
        assert_eq!(bits[10], 0);
        assert_eq!(bits[11], 0);
        assert_eq!(bits[20], 0);
        for b in bits {
            assert!(b <= 1);
        }
    }
}

/// Compiling the same expression tree twice yields byte-identical output.
#[test]
fn test_idempotent_compilation() {
    let make = || expr(assign(MEM, Some((Minus, Q)), Q), vec![Flag::CarryFromALU]);
    let first = compiled(make());
    let second = compiled(make());
    assert_eq!(first.hex(), second.hex());
    assert_eq!(first.bin(), second.bin());
    assert_eq!(first.hex_string(), second.hex_string());
}

/// The closed error taxonomy, one input per error.
#[test]
fn test_error_cases() {
    // AR as a unary read source.
    assert_eq!(
        compile_err(expr(assign(AR, None, Q), vec![])),
        Error::CanNotBeAchieved(CanNotBeAchievedReason::UnreadableOperand)
    );
    // AR inside a binary term, either side.
    assert_eq!(
        compile_err(expr(assign(AR, Some((Add, Q)), Q), vec![])),
        Error::CanNotBeAchieved(CanNotBeAchievedReason::UnreadableOperand)
    );
    assert_eq!(
        compile_err(expr(assign(Q, Some((Add, AR)), Q), vec![])),
        Error::CanNotBeAchieved(CanNotBeAchievedReason::UnreadableOperand)
    );
    // SR as a destination.
    assert_eq!(
        compile_err(expr(assign(Q, None, SR), vec![])),
        Error::CanNotBeAchieved(CanNotBeAchievedReason::UnwritableOperand)
    );
    // MEM and DR combined in a binary term, either order.
    assert_eq!(
        compile_err(expr(assign(MEM, Some((Add, DR)), Q), vec![])),
        Error::CanNotBeAchieved(CanNotBeAchievedReason::IllegalOperandCombination)
    );
    assert_eq!(
        compile_err(expr(assign(DR, Some((Add, MEM)), Q), vec![])),
        Error::CanNotBeAchieved(CanNotBeAchievedReason::IllegalOperandCombination)
    );
    // An identifier paired with itself.
    assert_eq!(
        compile_err(expr(assign(Q, Some((Minus, Q)), Q), vec![])),
        Error::CanNotBeAchieved(CanNotBeAchievedReason::IdenticalOperands)
    );
    assert_eq!(
        compile_err(expr(assign(R(3), Some((Add, R(3))), Q), vec![])),
        Error::CanNotBeAchieved(CanNotBeAchievedReason::IdenticalOperands)
    );
    // A pair covered by no rule.
    assert_eq!(
        compile_err(expr(assign(R(0), Some((Add, R(1))), Q), vec![])),
        Error::CanNotBeAchieved(CanNotBeAchievedReason::UnknownExpression)
    );
}

/// The deliberately unimplemented source forms are explicit unsupported
/// outcomes, not best-effort guesses.
#[test]
fn test_unsupported_forms() {
    let unsupported = Error::CanNotBeAchieved(CanNotBeAchievedReason::UnsupportedOperand);
    // A literal operand as the whole source term.
    let literal = Some(Assignment {
        term: Term {
            left: Primary::Number(1),
            right: None,
        },
        identifier: Q,
    });
    assert_eq!(compile_err(expr(literal, vec![])), unsupported);
    // A literal operand inside a binary term.
    let binary_literal = Some(Assignment {
        term: Term {
            left: Primary::Identifier(Q),
            right: Some((Add, Primary::Number(1))),
        },
        identifier: Q,
    });
    assert_eq!(compile_err(expr(binary_literal, vec![])), unsupported);
    // PC as a binary operand.
    assert_eq!(compile_err(expr(assign(PC, Some((Add, Q)), Q), vec![])), unsupported);
    assert_eq!(compile_err(expr(assign(Q, Some((Add, PC)), Q), vec![])), unsupported);
    // IP as a destination.
    assert_eq!(compile_err(expr(assign(Q, None, IP), vec![])), unsupported);
    // An explicit next-address flag.
    assert_eq!(compile_err(expr(None, vec![Flag::Next(0x100)])), unsupported);
}

/// Subtraction normalisation: the written pairs (Q, SR) and (DR, SR), and a
/// MEM right operand, select "S minus R" (ALU function 1) with the operands
/// swapped; everything else selects "R minus S" (ALU function 2). The ALU
/// function stands at bits 29..32 of the word.
#[test]
fn test_subtraction_normalisation() {
    let alu_function = |e: Expr| {
        let parser = compiled(e);
        let bits = parser.bin();
        bits[29] * 4 + bits[30] * 2 + bits[31]
    };
    // Swapped: S minus R.
    assert_eq!(alu_function(expr(assign(Q, Some((Minus, SR)), Q), vec![])), 1);
    assert_eq!(alu_function(expr(assign(DR, Some((Minus, SR)), Q), vec![])), 1);
    assert_eq!(alu_function(expr(assign(Q, Some((Minus, MEM)), Q), vec![])), 1);
    // As written: R minus S.
    assert_eq!(alu_function(expr(assign(SR, Some((Minus, Q)), Q), vec![])), 2);
    assert_eq!(alu_function(expr(assign(SR, Some((Minus, DR)), Q), vec![])), 2);
    assert_eq!(alu_function(expr(assign(MEM, Some((Minus, Q)), Q), vec![])), 2);
    // Addition is always R plus S.
    assert_eq!(alu_function(expr(assign(MEM, Some((Add, Q)), Q), vec![])), 0);
}

/// The condition table literals: Zero maps to (0, 0), NotC to (2, 1) and
/// IR108 to (7, 0). Condition-select-high stands at bits 16..19,
/// condition-select-low at bit 19.
#[test]
fn test_condition_table() {
    let selects = |c: Condition| {
        let parser = compiled(expr(None, vec![Flag::Condition(c)]));
        let bits = parser.bin();
        (bits[16] * 4 + bits[17] * 2 + bits[18], bits[19])
    };
    assert_eq!(selects(Condition::Zero), (0, 0));
    assert_eq!(selects(Condition::NotC), (2, 1));
    assert_eq!(selects(Condition::IR108), (7, 0));
}

/// A conditional branch seeds the branch next-address pattern 0010100100
/// into bits 0..10 and locks the instruction class to "conditional branch".
#[test]
fn test_condition_next_address() {
    let parser = compiled(expr(None, vec![Flag::Condition(Condition::One)]));
    let bits = parser.bin();
    assert_eq!(&bits[0..10], &[0, 0, 1, 0, 1, 0, 0, 1, 0, 0]);
    // Instruction class at bits 12..16 is 3 (conditional branch).
    assert_eq!(&bits[12..16], &[0, 0, 1, 1]);
}

/// Two rules driving one field to different values collide: the first
/// (locked) value is kept and the rejected write is reported.
#[test]
fn test_collision_keeps_first_value() {
    // Source PC locks the second-stage ALU function to "F->B A" (2) and the
    // B-port latch-source flag to the register file (0); the DR destination
    // then tries "F->B F" (3) and the D-latch (1).
    let mut parser = ExprParser::new(expr(assign(PC, None, DR), vec![]));
    parser.parse().unwrap();
    assert_eq!(parser.collisions(), &vec![Instrument::MI86(3), Instrument::SB(1)]);
    let bits = parser.bin();
    // The first value is kept: bits 25..28 still hold 2.
    assert_eq!(&bits[25..28], &[0, 1, 0]);
    // A collision-free compilation reports nothing.
    let clean = compiled(expr(assign(MEM, None, DR), vec![]));
    assert_eq!(clean.collisions().len(), 0);
}

/// The hexadecimal rendering equals the byte encoding, upper-case.
#[test]
fn test_hex_string_rendering() {
    let parser = compiled(expr(assign(MEM, None, DR), vec![]));
    assert_eq!(parser.hex_string(), "000E0030F00008");
    assert_eq!(parser.hex_string(), hex::encode(parser.hex()).to_uppercase());
}

/// A fresh compiler holds exactly the three seeded defaults (the memory
/// cycle spans three one-bit fields).
#[test]
fn test_seeded_defaults() {
    let parser = ExprParser::new(expr(None, vec![]));
    let values = parser.instruments();
    assert_eq!(
        values,
        vec![
            Instrument::CI(14),
            Instrument::MIO(1),
            Instrument::MI86(1),
            Instrument::REQ(0),
            Instrument::WE(0),
        ]
    );
}

/// The field table: offsets and widths of a few fields, and the gap before
/// the instruction class.
#[test]
fn test_field_table() {
    assert_eq!(Instrument::NEXT(0).begin(), 0);
    assert_eq!(Instrument::NEXT(0).length(), 10);
    assert_eq!(Instrument::NEXT(0).end(), 10);
    assert_eq!(Instrument::CI(0).begin(), 12);
    assert_eq!(Instrument::CI(0).length(), 4);
    assert_eq!(Instrument::DC2(0).begin(), 53);
    assert_eq!(Instrument::DC2(0).end(), 56);
}

/// Flags are flattened in source order.
#[test]
fn test_get_flag_vec() {
    let e = expr(
        None,
        vec![Flag::PCStep, Flag::Condition(Condition::NotZ), Flag::CarryFromALU],
    );
    assert_eq!(
        e.get_flag_vec(),
        vec![Flag::PCStep, Flag::Condition(Condition::NotZ), Flag::CarryFromALU]
    );
    let empty = expr(None, vec![]);
    assert_eq!(empty.get_flag_vec(), Vec::<Flag>::new());
}

/// The memory-cycle truth table: each cycle kind drives the three one-bit
/// fields MIO, REQ and WE with its literal row; a port sourced from a
/// register drives the index and clears the latch-source flag, while a port
/// sourced from a latch only sets the flag.
#[test]
fn test_producer_expansions() {
    let mem_bits = |m: MemCycle| {
        let v = m.to_instrument();
        assert_eq!(v.len(), 3);
        match (v[0], v[1], v[2]) {
            (Instrument::MIO(a), Instrument::REQ(b), Instrument::WE(c)) => (a, b, c),
            other => panic!("unexpected expansion {:?}", other),
        }
    };
    assert_eq!(mem_bits(MemCycle::MemWrite), (0, 0, 0));
    assert_eq!(mem_bits(MemCycle::MemRead), (0, 0, 1));
    assert_eq!(mem_bits(MemCycle::IoRead), (0, 1, 0));
    assert_eq!(mem_bits(MemCycle::IoWrite), (0, 1, 1));
    assert_eq!(mem_bits(MemCycle::NONE), (1, 0, 0));
    assert_eq!(mem_bits(MemCycle::LOAD), (1, 1, 0));
    assert_eq!(
        A::FromSA(9).to_instrument(),
        vec![Instrument::A(9), Instrument::SA(0)]
    );
    assert_eq!(A::SR.to_instrument(), vec![Instrument::SA(1)]);
    assert_eq!(
        B::FromSB(4).to_instrument(),
        vec![Instrument::B(4), Instrument::SB(0)]
    );
    assert_eq!(B::DR.to_instrument(), vec![Instrument::SB(1)]);
}

/// Edge values: an empty expression emits the seeded defaults alone, and
/// the largest register index fills the whole B-port index field.
#[test]
fn test_edge_values() {
    // Only the defaults: instruction class SEQ (14), memory cycle NONE
    // (MIO=1, REQ=0, WE=0), second-stage ALU function NONE (1).
    let empty = compiled(expr(None, vec![]));
    assert_eq!(empty.hex_string(), "000E0090000000");
    // R15 read through the B port: index bits 40..44 all set.
    let top_register = compiled(expr(assign(R(15), None, AR), vec![]));
    assert_eq!(top_register.hex_string(), "000E009030F002");
    let bits = top_register.bin();
    assert_eq!(&bits[40..44], &[1, 1, 1, 1]);
}

/// Error messages name the failing rule.
#[test]
fn test_error_messages() {
    let err = compile_err(expr(assign(AR, None, Q), vec![]));
    assert_eq!(err.message(), "AR cannot be read");
    assert_eq!(
        CanNotBeAchievedReason::UnwritableOperand.message(),
        "SR cannot be written"
    );
}
