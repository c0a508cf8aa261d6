//! The semantic compiler. One `ExprParser` is constructed per expression
//! tree; construction seeds the three overridable defaults, `parse` walks
//! the tree applying the rule tables of [`crate::rules`], and the encoder
//! methods pack the accumulated field map into the 56-bit control word.
//!
//! Field-map write collisions (two rules driving one field to different
//! values) are non-fatal: the first value is kept and the rejected write is
//! recorded, readable through [`ExprParser::collisions`].

use vstd::prelude::*;

use crate::encoder::{encode_bits, encode_bytes, encode_hex_upper, word_bit, word_byte, word_hex_chars};
use crate::error::{CanNotBeAchievedReason, Error};
use crate::expr::{Assignment, Expr, Primary, Term};
use crate::field_map::{
    apply_writes, lemma_apply_writes_concat, lemma_apply_writes_one, present_instruments,
    FieldMap, MapState,
};
use crate::instrument::Instrument;
use crate::rules::{
    alu_function, assignment_writes, binary_writes, branch_next_pattern, condition_select,
    dest_writes, expr_writes, flag_writes, flags_writes, initial_state, lift_result, locked,
    pair_is, pair_writes, seed_writes, term_writes, unary_writes, with_check,
};
use crate::signal::{Ci, Mi20, Mi53, Mi86, SCi, ToInstrument, A, B, DC1, DC2, MEM, SST};
use crate::token::{Condition, Flag, Identifier, Operator};

verus! {

/// The semantic compiler: single-use, one expression tree in, one control
/// word out.
pub struct ExprParser {
    expr: Expr,
    instruments: FieldMap,
    collisions: Vec<Instrument>,
}

impl ExprParser {
    /// The expression tree this compiler was built on.
    pub closed spec fn expr_spec(self) -> Expr {
        self.expr
    }

    /// The accumulated field map.
    pub closed spec fn map_spec(self) -> FieldMap {
        self.instruments
    }

    /// The rejected (collided) writes, in the order they were attempted.
    pub closed spec fn collisions_spec(self) -> Seq<Instrument> {
        self.collisions@
    }

    /// The compilation state: field map plus rejected writes.
    pub open spec fn state(self) -> MapState {
        (self.map_spec(), self.collisions_spec())
    }

    /// Constructs a compiler for one expression tree, seeded with the three
    /// overridable defaults.
    pub fn new(expr: Expr) -> (s: Self)
        ensures
            s.expr_spec() == expr,
            s.state() == initial_state(),
    {
        let mut s = ExprParser { expr, instruments: FieldMap::empty(), collisions: Vec::new() };
        let ghost st0 = s.state();
        s.push_instrument_with_check(&Ci::SEQ, true);
        s.push_instrument_with_check(&MEM::NONE, true);
        s.push_instrument_with_check(&Mi86::NONE, true);
        proof {
            let w1 = with_check(Ci::SEQ.instrument_spec(), true);
            let w2 = with_check(MEM::NONE.instrument_spec(), true);
            let w3 = with_check(Mi86::NONE.instrument_spec(), true);
            lemma_apply_writes_concat(st0, w1, w2);
            lemma_apply_writes_concat(st0, w1 + w2, w3);
            assert(w1 + w2 + w3 =~= seed_writes());
        }
        s
    }

    /// Applies the writes of one producer, with one overridability, under
    /// the merge policy, recording rejected writes.
    fn push_all(&mut self, values: &Vec<Instrument>, check: bool)
        ensures
            final(self).state() == apply_writes(old(self).state(), with_check(values@, check)),
            final(self).expr_spec() == old(self).expr_spec(),
    {
        let ghost st0 = self.state();
        let ghost all = with_check(values@, check);
        let ghost e0 = self.expr;
        let mut idx: usize = 0;
        while idx < values.len()
            invariant
                idx <= values@.len(),
                all == with_check(values@, check),
                self.state() == apply_writes(st0, all.take(idx as int)),
                self.expr == e0,
            decreases values@.len() - idx,
        {
            let ins = values[idx];
            let ghost st_pre = self.state();
            let collided = self.instruments.push_value(ins, check);
            if collided {
                self.collisions.push(ins);
            }
            proof {
                lemma_apply_writes_one(st_pre, ins, check);
                lemma_apply_writes_concat(st0, all.take(idx as int), seq![(ins, check)]);
                assert(all.take(idx as int + 1) =~= all.take(idx as int) + seq![(ins, check)]);
            }
            idx += 1;
        }
        proof {
            assert(all.take(values@.len() as int) =~= all);
        }
    }

    /// Expands one producer and applies its writes with the given
    /// overridability.
    fn push_instrument_with_check<T: ToInstrument>(&mut self, producer: &T, check: bool)
        ensures
            final(self).state() == apply_writes(
                old(self).state(),
                with_check(producer.instrument_spec(), check),
            ),
            final(self).expr_spec() == old(self).expr_spec(),
    {
        let values = producer.to_instrument();
        self.push_all(&values, check);
    }

    /// Expands one producer and applies its writes locked.
    fn push_instrument<T: ToInstrument>(&mut self, producer: &T)
        ensures
            final(self).state() == apply_writes(
                old(self).state(),
                locked(producer.instrument_spec()),
            ),
            final(self).expr_spec() == old(self).expr_spec(),
    {
        self.push_instrument_with_check(producer, false);
    }

    /// The field values accumulated so far, in field-table order.
    pub fn instruments(&self) -> (v: Vec<Instrument>)
        ensures
            v@ == present_instruments(self.map_spec()),
    {
        self.instruments.values()
    }

    /// The writes that were rejected because their field was already locked
    /// to a different value, in the order they were attempted.
    pub fn collisions(&self) -> (v: &Vec<Instrument>)
        ensures
            v@ == self.collisions_spec(),
    {
        &self.collisions
    }

    /// Packs the accumulated field map into the 56-bit control word, one
    /// 0/1 value per bit position.
    pub fn bin(&self) -> (out: Vec<u8>)
        ensures
            out@.len() == 56,
            forall|i: int| 0 <= i < 56 ==> out@[i] == word_bit(self.map_spec(), i) && out@[i] <= 1,
    {
        encode_bits(&self.instruments)
    }

    /// Packs the accumulated field map into the seven bytes of the control
    /// word, MSB-first within each byte.
    pub fn hex(&self) -> (out: Vec<u8>)
        ensures
            out@.len() == 7,
            forall|i: int| 0 <= i < 7 ==> out@[i] == word_byte(self.map_spec(), i),
    {
        encode_bytes(&self.instruments)
    }

    /// Renders the control word as 14 upper-case hexadecimal characters.
    pub fn hex_string(&self) -> (s: String)
        ensures
            s@ == word_hex_chars(self.map_spec()),
    {
        encode_hex_upper(&self.instruments)
    }

    /// Compiles the expression tree: the assignment pass (source term, then
    /// destination), then the flag pass, applying exactly the writes of
    /// [`expr_writes`].
    pub fn parse(&mut self) -> (r: Result<(), Error>)
        ensures
            final(self).state() == apply_writes(
                old(self).state(),
                expr_writes(old(self).expr_spec()).0,
            ),
            r == lift_result(expr_writes(old(self).expr_spec()).1),
            final(self).expr_spec() == old(self).expr_spec(),
    {
        let ghost st0 = self.state();
        let ghost e = self.expr;
        let assignment = self.expr.assignment;
        if let Option::Some(a) = assignment {
            let res = self.parse_assignment(&a);
            if let Err(err) = res {
                return Err(err);
            }
        }
        let flags = self.expr.get_flag_vec();
        let res = self.parse_flag_exprs(&flags);
        proof {
            let fw = flags_writes(e.flags_spec()).0;
            match e.assignment {
                Option::Some(a) => {
                    lemma_apply_writes_concat(st0, assignment_writes(a).0, fw);
                },
                Option::None => {
                    assert(seq![] + fw =~= fw);
                },
            }
        }
        res
    }

    /// The assignment pass: the source term, then (if it compiled) the
    /// destination identifier.
    fn parse_assignment(&mut self, assignment: &Assignment) -> (r: Result<(), Error>)
        ensures
            final(self).state() == apply_writes(
                old(self).state(),
                assignment_writes(*assignment).0,
            ),
            r == lift_result(assignment_writes(*assignment).1),
            final(self).expr_spec() == old(self).expr_spec(),
    {
        let ghost st0 = self.state();
        let res = self.parse_term(&assignment.term);
        match res {
            Err(err) => Err(err),
            Ok(()) => {
                let r2 = self.parse_assignment_identifier(assignment.identifier);
                proof {
                    lemma_apply_writes_concat(
                        st0,
                        term_writes(assignment.term).0,
                        dest_writes(assignment.identifier).0,
                    );
                }
                r2
            },
        }
    }

    /// The source term: unary or binary.
    fn parse_term(&mut self, term: &Term) -> (r: Result<(), Error>)
        ensures
            final(self).state() == apply_writes(old(self).state(), term_writes(*term).0),
            r == lift_result(term_writes(*term).1),
            final(self).expr_spec() == old(self).expr_spec(),
    {
        match term.right {
            Option::Some((operator, right)) => self.parse_binary(term.left, operator, right),
            Option::None => self.parse_unary(term.left),
        }
    }

    /// Reading a single identifier as the source term.
    fn parse_unary(&mut self, primary: Primary) -> (r: Result<(), Error>)
        ensures
            final(self).state() == apply_writes(old(self).state(), unary_writes(primary).0),
            r == lift_result(unary_writes(primary).1),
            final(self).expr_spec() == old(self).expr_spec(),
    {
        match primary {
            Primary::Identifier(identifier) => match identifier {
                Identifier::PC => {
                    let mut values = Mi86::FBA.to_instrument();
                    let mut more = A::FromSA(5).to_instrument();
                    values.append(&mut more);
                    let mut more = B::FromSB(5).to_instrument();
                    values.append(&mut more);
                    let mut more = Mi20::_0B.to_instrument();
                    values.append(&mut more);
                    self.push_all(&values, false);
                    proof {
                        assert(with_check(values@, false) =~= unary_writes(primary).0);
                    }
                    Ok(())
                },
                Identifier::AR => Err(
                    Error::CanNotBeAchieved(CanNotBeAchievedReason::UnreadableOperand),
                ),
                Identifier::MEM => {
                    let mut values = Mi20::D0.to_instrument();
                    let mut more = MEM::MemRead.to_instrument();
                    values.append(&mut more);
                    self.push_all(&values, false);
                    proof {
                        assert(with_check(values@, false) =~= unary_writes(primary).0);
                    }
                    Ok(())
                },
                Identifier::SR => {
                    let mut values = A::SR.to_instrument();
                    let mut more = Mi20::_0A.to_instrument();
                    values.append(&mut more);
                    self.push_all(&values, false);
                    proof {
                        assert(with_check(values@, false) =~= unary_writes(primary).0);
                    }
                    Ok(())
                },
                Identifier::DR => {
                    let mut values = B::DR.to_instrument();
                    let mut more = Mi20::_0B.to_instrument();
                    values.append(&mut more);
                    self.push_all(&values, false);
                    proof {
                        assert(with_check(values@, false) =~= unary_writes(primary).0);
                    }
                    Ok(())
                },
                Identifier::Q => {
                    let values = Mi20::_0Q.to_instrument();
                    self.push_all(&values, false);
                    proof {
                        assert(with_check(values@, false) =~= unary_writes(primary).0);
                    }
                    Ok(())
                },
                Identifier::IP => {
                    let mut values = B::FromSB(6).to_instrument();
                    let mut more = Mi20::_0B.to_instrument();
                    values.append(&mut more);
                    self.push_all(&values, false);
                    proof {
                        assert(with_check(values@, false) =~= unary_writes(primary).0);
                    }
                    Ok(())
                },
                Identifier::R(val) => {
                    let mut values = B::FromSB(val).to_instrument();
                    let mut more = Mi20::_0B.to_instrument();
                    values.append(&mut more);
                    self.push_all(&values, false);
                    proof {
                        assert(with_check(values@, false) =~= unary_writes(primary).0);
                    }
                    Ok(())
                },
            },
            Primary::Number(_) => Err(
                Error::CanNotBeAchieved(CanNotBeAchievedReason::UnsupportedOperand),
            ),
        }
    }

    /// The destination pass: which decoder, write-back or latch the compiled
    /// term is written into.
    fn parse_assignment_identifier(&mut self, identifier: Identifier) -> (r: Result<(), Error>)
        ensures
            final(self).state() == apply_writes(old(self).state(), dest_writes(identifier).0),
            r == lift_result(dest_writes(identifier).1),
            final(self).expr_spec() == old(self).expr_spec(),
    {
        match identifier {
            Identifier::PC => {
                let values = Mi86::FBF.to_instrument();
                self.push_all(&values, false);
                proof {
                    assert(with_check(values@, false) =~= dest_writes(identifier).0);
                }
                Ok(())
            },
            Identifier::AR => {
                let values = DC2::AR.to_instrument();
                self.push_all(&values, false);
                proof {
                    assert(with_check(values@, false) =~= dest_writes(identifier).0);
                }
                Ok(())
            },
            Identifier::MEM => {
                let mut values = DC1::FromALU.to_instrument();
                let mut more = MEM::MemWrite.to_instrument();
                values.append(&mut more);
                self.push_all(&values, false);
                proof {
                    assert(with_check(values@, false) =~= dest_writes(identifier).0);
                }
                Ok(())
            },
            Identifier::SR => Err(
                Error::CanNotBeAchieved(CanNotBeAchievedReason::UnwritableOperand),
            ),
            Identifier::Q => {
                let values = Mi86::FQF.to_instrument();
                self.push_all(&values, false);
                proof {
                    assert(with_check(values@, false) =~= dest_writes(identifier).0);
                }
                Ok(())
            },
            Identifier::DR => {
                let mut values = Mi86::FBF.to_instrument();
                let mut more = B::DR.to_instrument();
                values.append(&mut more);
                self.push_all(&values, false);
                proof {
                    assert(with_check(values@, false) =~= dest_writes(identifier).0);
                }
                Ok(())
            },
            Identifier::R(val) => {
                let mut values = Mi86::FBF.to_instrument();
                let mut more = A::FromSA(val).to_instrument();
                values.append(&mut more);
                let mut more = B::FromSB(val).to_instrument();
                values.append(&mut more);
                self.push_all(&values, false);
                proof {
                    assert(with_check(values@, false) =~= dest_writes(identifier).0);
                }
                Ok(())
            },
            Identifier::IP => Err(
                Error::CanNotBeAchieved(CanNotBeAchievedReason::UnsupportedOperand),
            ),
        }
    }

    /// A binary source term: rejects equal operands, selects the ALU
    /// function (normalising subtraction through the S port), then applies
    /// the operand-source table to the (possibly swapped) pair.
    fn parse_binary(&mut self, left: Primary, operator: Operator, right: Primary) -> (r: Result<
        (),
        Error,
    >)
        ensures
            final(self).state() == apply_writes(
                old(self).state(),
                binary_writes(left, operator, right).0,
            ),
            r == lift_result(binary_writes(left, operator, right).1),
            final(self).expr_spec() == old(self).expr_spec(),
    {
        match (left, right) {
            (Primary::Identifier(l0), Primary::Identifier(r0)) => {
                if l0 == r0 {
                    return Err(Error::CanNotBeAchieved(CanNotBeAchievedReason::IdenticalOperands));
                }
                let ghost st0 = self.state();
                let (a_id, b_id) = match operator {
                    Operator::Add => {
                        self.push_instrument(&Mi53::RAddS);
                        (l0, r0)
                    },
                    Operator::Minus => {
                        if (l0 == Identifier::Q && r0 == Identifier::SR) || (l0 == Identifier::DR
                            && r0 == Identifier::SR) || r0 == Identifier::MEM {
                            self.push_instrument(&Mi53::SSubR);
                            (r0, l0)
                        } else {
                            self.push_instrument(&Mi53::RSubS);
                            (l0, r0)
                        }
                    },
                };
                let ghost opw = locked(seq![Instrument::MI53(alu_function(operator, l0, r0))]);
                proof {
                    assert(self.state() == apply_writes(st0, opw));
                }
                let res = self.parse_pair(a_id, b_id);
                proof {
                    lemma_apply_writes_concat(st0, opw, pair_writes(a_id, b_id).0);
                }
                res
            },
            _ => Err(Error::CanNotBeAchieved(CanNotBeAchievedReason::UnsupportedOperand)),
        }
    }

    /// The operand-source table for a (possibly swapped) binary operand
    /// pair.
    fn parse_pair(&mut self, l: Identifier, r: Identifier) -> (res: Result<(), Error>)
        ensures
            final(self).state() == apply_writes(old(self).state(), pair_writes(l, r).0),
            res == lift_result(pair_writes(l, r).1),
            final(self).expr_spec() == old(self).expr_spec(),
    {
        if l == Identifier::PC || r == Identifier::PC {
            Err(Error::CanNotBeAchieved(CanNotBeAchievedReason::UnsupportedOperand))
        } else if l == Identifier::AR || r == Identifier::AR {
            Err(Error::CanNotBeAchieved(CanNotBeAchievedReason::UnreadableOperand))
        } else if pair_matches(l, r, Identifier::SR, Identifier::Q) {
            let mut values = A::SR.to_instrument();
            let mut more = Mi20::AQ.to_instrument();
            values.append(&mut more);
            self.push_all(&values, false);
            proof {
                assert(with_check(values@, false) =~= pair_writes(l, r).0);
            }
            Ok(())
        } else if pair_matches(l, r, Identifier::SR, Identifier::DR) {
            let mut values = A::SR.to_instrument();
            let mut more = B::DR.to_instrument();
            values.append(&mut more);
            let mut more = Mi20::AB.to_instrument();
            values.append(&mut more);
            self.push_all(&values, false);
            proof {
                assert(with_check(values@, false) =~= pair_writes(l, r).0);
            }
            Ok(())
        } else if pair_matches(l, r, Identifier::MEM, Identifier::SR) {
            let mut values = A::SR.to_instrument();
            let mut more = MEM::MemRead.to_instrument();
            values.append(&mut more);
            let mut more = Mi20::DA.to_instrument();
            values.append(&mut more);
            self.push_all(&values, false);
            proof {
                assert(with_check(values@, false) =~= pair_writes(l, r).0);
            }
            Ok(())
        } else if pair_matches(l, r, Identifier::MEM, Identifier::Q) {
            let mut values = MEM::MemRead.to_instrument();
            let mut more = Mi20::DQ.to_instrument();
            values.append(&mut more);
            self.push_all(&values, false);
            proof {
                assert(with_check(values@, false) =~= pair_writes(l, r).0);
            }
            Ok(())
        } else if pair_matches(l, r, Identifier::MEM, Identifier::DR) {
            Err(Error::CanNotBeAchieved(CanNotBeAchievedReason::IllegalOperandCombination))
        } else if pair_matches(l, r, Identifier::IP, Identifier::SR) {
            let mut values = A::SR.to_instrument();
            let mut more = B::FromSB(6).to_instrument();
            values.append(&mut more);
            let mut more = Mi20::AB.to_instrument();
            values.append(&mut more);
            self.push_all(&values, false);
            proof {
                assert(with_check(values@, false) =~= pair_writes(l, r).0);
            }
            Ok(())
        } else if pair_matches(l, r, Identifier::IP, Identifier::DR) {
            let mut values = B::DR.to_instrument();
            let mut more = A::FromSA(6).to_instrument();
            values.append(&mut more);
            let mut more = Mi20::AB.to_instrument();
            values.append(&mut more);
            self.push_all(&values, false);
            proof {
                assert(with_check(values@, false) =~= pair_writes(l, r).0);
            }
            Ok(())
        } else if pair_matches(l, r, Identifier::IP, Identifier::Q) {
            let mut values = A::FromSA(6).to_instrument();
            let mut more = Mi20::AQ.to_instrument();
            values.append(&mut more);
            self.push_all(&values, false);
            proof {
                assert(with_check(values@, false) =~= pair_writes(l, r).0);
            }
            Ok(())
        } else if pair_matches(l, r, Identifier::IP, Identifier::MEM) {
            let mut values = MEM::MemRead.to_instrument();
            let mut more = A::FromSA(6).to_instrument();
            values.append(&mut more);
            let mut more = B::FromSB(5).to_instrument();
            values.append(&mut more);
            let mut more = Mi20::DA.to_instrument();
            values.append(&mut more);
            self.push_all(&values, false);
            proof {
                assert(with_check(values@, false) =~= pair_writes(l, r).0);
            }
            Ok(())
        } else {
            Err(Error::CanNotBeAchieved(CanNotBeAchievedReason::UnknownExpression))
        }
    }

    /// One flag of the flag pass.
    fn parse_flag(&mut self, flag: Flag) -> (r: Result<(), Error>)
        ensures
            final(self).state() == apply_writes(old(self).state(), flag_writes(flag).0),
            r == lift_result(flag_writes(flag).1),
            final(self).expr_spec() == old(self).expr_spec(),
    {
        match flag {
            Flag::Condition(condition) => {
                let ghost st0 = self.state();
                self.push_instrument_with_check(&Instrument::NEXT(0b0010100100), true);
                let (scc, sc) = condition_lookup(condition);
                let mut values = Ci::IF.to_instrument();
                let mut more = Instrument::SCC(scc).to_instrument();
                values.append(&mut more);
                let mut more = Instrument::SC(sc).to_instrument();
                values.append(&mut more);
                self.push_all(&values, false);
                proof {
                    let w1 = with_check(
                        Instrument::NEXT(branch_next_pattern()).instrument_spec(),
                        true,
                    );
                    lemma_apply_writes_concat(st0, w1, with_check(values@, false));
                    assert(w1 + with_check(values@, false) =~= flag_writes(flag).0);
                }
                Ok(())
            },
            Flag::PCStep => {
                let mut values = SCi::PCStep.to_instrument();
                let mut more = Mi86::FBA.to_instrument();
                values.append(&mut more);
                let mut more = B::FromSB(5).to_instrument();
                values.append(&mut more);
                let mut more = Mi20::_0B.to_instrument();
                values.append(&mut more);
                self.push_all(&values, false);
                proof {
                    assert(with_check(values@, false) =~= flag_writes(flag).0);
                }
                Ok(())
            },
            Flag::CarryFromALU => {
                let values = SST::ALU.to_instrument();
                self.push_all(&values, false);
                proof {
                    assert(with_check(values@, false) =~= flag_writes(flag).0);
                }
                Ok(())
            },
            Flag::Next(_) => Err(
                Error::CanNotBeAchieved(CanNotBeAchievedReason::UnsupportedOperand),
            ),
        }
    }

    /// The flag pass, over the flag list in source order.
    #[verifier::loop_isolation(false)]
    fn parse_flag_exprs(&mut self, flags: &Vec<Flag>) -> (r: Result<(), Error>)
        ensures
            final(self).state() == apply_writes(old(self).state(), flags_writes(flags@).0),
            r == lift_result(flags_writes(flags@).1),
            final(self).expr_spec() == old(self).expr_spec(),
    {
        let ghost st0 = self.state();
        let ghost e0 = self.expr;
        let ghost mut done: Seq<(Instrument, bool)> = seq![];
        let mut idx: usize = 0;
        proof {
            assert(flags@.skip(0) =~= flags@);
            assert(done + flags_writes(flags@).0 =~= flags_writes(flags@).0);
        }
        while idx < flags.len()
            invariant
                idx <= flags@.len(),
                self.state() == apply_writes(st0, done),
                self.expr == e0,
                flags_writes(flags@).0 == done + flags_writes(flags@.skip(idx as int)).0,
                flags_writes(flags@).1 == flags_writes(flags@.skip(idx as int)).1,
            decreases flags@.len() - idx,
        {
            let f = flags[idx];
            let res = self.parse_flag(f);
            proof {
                lemma_apply_writes_concat(st0, done, flag_writes(f).0);
                assert(flags@.skip(idx as int)[0] == f);
                assert(flags@.skip(idx as int).drop_first() =~= flags@.skip(idx as int + 1));
            }
            match res {
                Err(err) => {
                    proof {
                        assert(flags_writes(flags@).0 =~= done + flag_writes(f).0);
                    }
                    return Err(err);
                },
                Ok(()) => {
                    proof {
                        done = done + flag_writes(f).0;
                        assert(flags_writes(flags@).0 =~= done + flags_writes(
                            flags@.skip(idx as int + 1),
                        ).0);
                    }
                    idx += 1;
                },
            }
        }
        proof {
            assert(flags@.skip(flags@.len() as int) =~= Seq::<Flag>::empty());
            assert(flags_writes(flags@).0 =~= done);
        }
        Ok(())
    }
}

/// The condition table, executable form.
fn condition_lookup(c: Condition) -> (r: (u8, u8))
    ensures
        r == condition_select(c),
{
    match c {
        Condition::Zero => (0, 0),
        Condition::One => (1, 0),
        Condition::NotFS1 => (2, 0),
        Condition::NotFS2 => (3, 0),
        Condition::NotFS3 => (4, 0),
        Condition::NotWait => (5, 0),
        Condition::NotC => (2, 1),
        Condition::NotZ => (3, 1),
        Condition::NotV => (4, 1),
        Condition::NotS => (5, 1),
        Condition::NotINT => (6, 1),
        Condition::IR108 => (7, 0),
    }
}

/// Whether `l` and `r` are `x` and `y` in either order.
fn pair_matches(l: Identifier, r: Identifier, x: Identifier, y: Identifier) -> (b: bool)
    ensures
        b == pair_is(l, r, x, y),
{
    (l == x && r == y) || (l == y && r == x)
}

} // verus!
