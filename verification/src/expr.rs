//! The expression tree that the compiler consumes: an optional assignment
//! (a term written into a destination identifier) plus an ordered list of
//! flags. The tree is handed over by a surface-syntax front end and is
//! assumed syntactically well-formed; only domain legality is checked here.

use vstd::prelude::*;

use crate::token::{Flag, Identifier, Operator};

verus! {

/// A whole micro-operation line.
#[derive(Debug)]
pub struct Expr {
    /// The assignment, if the line has one.
    pub assignment: Option<Assignment>,
    /// The head of the flag list, if the line has any flags.
    pub flag_expr: Option<Box<FlagExpr>>,
}

/// One link of the ordered flag list.
#[derive(Debug)]
pub struct FlagExpr {
    pub flag: Flag,
    pub next: Option<Box<FlagExpr>>,
}

/// A term written into a destination identifier.
#[derive(Debug, Clone, Copy, PartialEq, Eq)]
pub struct Assignment {
    /// The source term.
    pub term: Term,
    /// The destination identifier.
    pub identifier: Identifier,
}

/// A source term: a left operand, optionally combined with a right operand
/// by an operator.
#[derive(Debug, Clone, Copy, PartialEq, Eq)]
pub struct Term {
    pub left: Primary,
    pub right: Option<(Operator, Primary)>,
}

/// An atomic operand.
#[derive(Debug, Clone, Copy, PartialEq, Eq, Structural)]
pub enum Primary {
    Identifier(Identifier),
    /// A number literal; deliberately unimplemented as an operand.
    Number(u16),
}

impl FlagExpr {
    /// The flags of this list tail, head first.
    pub open spec fn flags_spec(self) -> Seq<Flag>
        decreases self,
    {
        match self.next {
            Option::None => seq![self.flag],
            Option::Some(rest) => seq![self.flag] + rest.flags_spec(),
        }
    }
}

impl Expr {
    /// The flags of the whole expression, in source order.
    pub open spec fn flags_spec(self) -> Seq<Flag> {
        match self.flag_expr {
            Option::None => seq![],
            Option::Some(head) => head.flags_spec(),
        }
    }

    /// Flattens the flag list into a vector, in source order.
    pub fn get_flag_vec(&self) -> (v: Vec<Flag>)
        ensures
            v@ == self.flags_spec(),
    {
        let mut v: Vec<Flag> = Vec::new();
        match &self.flag_expr {
            Option::None => {
                assert(v@ =~= self.flags_spec());
            },
            Option::Some(head) => {
                collect_flags(head, &mut v);
                assert(v@ =~= self.flags_spec());
            },
        }
        v
    }
}

/// Appends the flags of a list tail to `v`, head first.
fn collect_flags(list: &FlagExpr, v: &mut Vec<Flag>)
    ensures
        final(v)@ == old(v)@ + list.flags_spec(),
    decreases *list,
{
    v.push(list.flag);
    match &list.next {
        Option::None => {
            assert(v@ =~= old(v)@ + list.flags_spec());
        },
        Option::Some(rest) => {
            collect_flags(rest, v);
            assert(v@ =~= old(v)@ + list.flags_spec());
        },
    }
}

} // verus!
