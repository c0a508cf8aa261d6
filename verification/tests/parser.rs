use tec2::expr::{Assignment, Expr, FlagExpr, Primary, Term};
use tec2::parser::ExprParser;
use tec2::token::Identifier::{AR, DR, IP, MEM, PC, Q, SR};
use tec2::token::Operator::{Add, Minus};
use tec2::token::{Condition, Flag, Identifier, Operator};

/// Builds an expression tree from an optional assignment and a flag list.
fn expr(assignment: Option<Assignment>, flags: Vec<Flag>) -> Expr {
    let mut head: Option<Box<FlagExpr>> = None;
    for flag in flags.into_iter().rev() {
        head = Some(Box::new(FlagExpr { flag, next: head }));
    }
    Expr {
        assignment,
        flag_expr: head,
    }
}

/// Builds an assignment `left [op right] -> dest` over identifiers.
fn assign(
    left: Identifier,
    op_right: Option<(Operator, Identifier)>,
    dest: Identifier,
) -> Option<Assignment> {
    Some(Assignment {
        term: Term {
            left: Primary::Identifier(left),
            right: op_right.map(|(op, r)| (op, Primary::Identifier(r))),
        },
        identifier: dest,
    })
}

/// Compiles a tree and renders the control word as upper-case hex.
fn get_hex(e: Expr) -> String {
    let mut parser = ExprParser::new(e);
    parser.parse().unwrap();
    hex::encode(parser.hex()).to_uppercase()
}

#[test]
fn test_1() {
    // ", PC + 1 -> PC"
    assert_eq!(get_hex(expr(None, vec![Flag::PCStep])), "000E00A0305400");
    // "PC -> AR, PC + 1 -> PC"
    assert_eq!(
        get_hex(expr(assign(PC, None, AR), vec![Flag::PCStep])),
        "000E00A0355402"
    );
    // "MEM -> DR, CarryFromALU"
    assert_eq!(
        get_hex(expr(assign(MEM, None, DR), vec![Flag::CarryFromALU])),
        "000E0130F00008"
    );
    // "MEM -> DR"
    assert_eq!(get_hex(expr(assign(MEM, None, DR), vec![])), "000E0030F00008");
    // "MEM -> AR"
    assert_eq!(get_hex(expr(assign(MEM, None, AR), vec![])), "000E0010F00002");
    // "DR -> MEM, CC#=0"
    assert_eq!(
        get_hex(expr(assign(DR, None, MEM), vec![Flag::Condition(Condition::Zero)])),
        "29030010300018"
    );
    // "DR -> MEM, CC#=0, CarryFromALU"
    assert_eq!(
        get_hex(expr(
            assign(DR, None, MEM),
            vec![Flag::Condition(Condition::Zero), Flag::CarryFromALU]
        )),
        "29030110300018"
    );
    // "Q -> AR"
    assert_eq!(get_hex(expr(assign(Q, None, AR), vec![])), "000E0090200002");
    // "Q -> AR, CarryFromALU"
    assert_eq!(
        get_hex(expr(assign(Q, None, AR), vec![Flag::CarryFromALU])),
        "000E0190200002"
    );
    // "MEM -> Q"
    assert_eq!(get_hex(expr(assign(MEM, None, Q), vec![])), "000E0000F00000");
    // "SR -> AR"
    assert_eq!(get_hex(expr(assign(SR, None, AR), vec![])), "000E0090400082");
    // "MEM + Q -> AR, CarryFromALU"
    assert_eq!(
        get_hex(expr(assign(MEM, Some((Add, Q)), AR), vec![Flag::CarryFromALU])),
        "000E0110E00002"
    );
    // "MEM + Q -> AR"
    assert_eq!(
        get_hex(expr(assign(MEM, Some((Add, Q)), AR), vec![])),
        "000E0010E00002"
    );
    // "MEM + Q -> Q"
    assert_eq!(
        get_hex(expr(assign(MEM, Some((Add, Q)), Q), vec![])),
        "000E0000E00000"
    );
    // "MEM + Q -> Q, CarryFromALU"
    assert_eq!(
        get_hex(expr(assign(MEM, Some((Add, Q)), Q), vec![Flag::CarryFromALU])),
        "000E0100E00000"
    );
    // "MEM - Q -> Q"
    assert_eq!(
        get_hex(expr(assign(MEM, Some((Minus, Q)), Q), vec![])),
        "000E0002E00000"
    );
    // "MEM - Q -> Q, CarryFromALU"
    assert_eq!(
        get_hex(expr(assign(MEM, Some((Minus, Q)), Q), vec![Flag::CarryFromALU])),
        "000E0102E00000"
    );
    // "DR -> AR"
    assert_eq!(get_hex(expr(assign(DR, None, AR), vec![])), "000E009030000A");
    // "Q -> MEM, CC#=0"
    assert_eq!(
        get_hex(expr(assign(Q, None, MEM), vec![Flag::Condition(Condition::Zero)])),
        "29030010200010"
    );
    // "SR - DR -> Q, CarryFromALU"
    assert_eq!(
        get_hex(expr(assign(SR, Some((Minus, DR)), Q), vec![Flag::CarryFromALU])),
        "000E0182100088"
    );
    // "PC -> AR , PC + 1 -> PC, CC#=Z"
    assert_eq!(
        get_hex(expr(
            assign(PC, None, AR),
            vec![Flag::PCStep, Flag::Condition(Condition::IR108)]
        )),
        "2903E0A0355402"
    );
    // "IP + MEM -> PC, CC#=0"
    assert_eq!(
        get_hex(expr(
            assign(IP, Some((Add, MEM)), PC),
            vec![Flag::Condition(Condition::Zero)]
        )),
        "29030030D65000"
    );
}
