//! Library-wide laws: properties of the compiler and encoder that hold for
//! every expression tree, stated and proved once over the specification
//! functions the public contracts speak of.

use vstd::prelude::*;

use crate::encoder::{word_bit, word_byte, word_hex_chars};
use crate::error::CanNotBeAchievedReason;
use crate::expr::{Expr, Primary};
use crate::field_map::{is_collision, merge_one, slot_of, with_slot, FieldMap, Slot};
use crate::instrument::{owner_of, FieldId, Instrument};
use crate::rules::{
    binary_writes, compile_result, compile_state, condition_select, minus_swaps, pair_is,
    pair_writes, term_writes,
};
use crate::token::{Condition, Identifier, Operator};

verus! {

/// The reserved bit positions 10, 11 and 20 of the control word are zero,
/// whatever the field map holds.
pub proof fn lemma_reserved_bits_zero(m: FieldMap)
    ensures
        word_bit(m, 10) == 0,
        word_bit(m, 11) == 0,
        word_bit(m, 20) == 0,
{
}

/// A field no rule has driven contributes only zero bits: every position of
/// an unset field reads as zero.
pub proof fn lemma_unset_field_bits_zero(m: FieldMap, f: FieldId, i: int)
    requires
        slot_of(m, f) == Slot::Unset,
        owner_of(i) == Option::Some(f),
    ensures
        word_bit(m, i) == 0,
{
}

/// Compilation is deterministic: the compiled state, and with it every byte
/// and every character of the rendered control word, is a function of the
/// expression tree alone. Compiling the same tree twice therefore yields
/// byte-identical output.
pub proof fn lemma_compile_deterministic(e1: Expr, e2: Expr)
    requires
        e1 == e2,
    ensures
        compile_state(e1) == compile_state(e2),
        compile_result(e1) == compile_result(e2),
        forall|i: int| word_byte(compile_state(e1).0, i) == word_byte(compile_state(e2).0, i),
        word_hex_chars(compile_state(e1).0) == word_hex_chars(compile_state(e2).0),
{
}

/// Reading `AR` as a unary source always fails with `UnreadableOperand`.
pub proof fn lemma_ar_source_unreadable(e: Expr)
    requires
        ({
            &&& e.assignment matches Option::Some(a)
            &&& a.term.left == Primary::Identifier(Identifier::AR)
            &&& a.term.right is None
        }),
    ensures
        compile_result(e) == Err::<(), CanNotBeAchievedReason>(
            CanNotBeAchievedReason::UnreadableOperand,
        ),
{
}

/// `AR` in a binary term fails with `UnreadableOperand`, unless the pair is
/// rejected earlier: `AR` paired with itself is `IdenticalOperands`, and
/// `AR` paired with `PC` is the unsupported `PC`-in-binary form.
pub proof fn lemma_ar_binary_unreadable(e: Expr)
    requires
        ({
            &&& e.assignment matches Option::Some(a)
            &&& a.term.left matches Primary::Identifier(l)
            &&& a.term.right matches Option::Some((op, Primary::Identifier(r)))
            &&& l == Identifier::AR || r == Identifier::AR
            &&& l != r
            &&& l != Identifier::PC
            &&& r != Identifier::PC
        }),
    ensures
        compile_result(e) == Err::<(), CanNotBeAchievedReason>(
            CanNotBeAchievedReason::UnreadableOperand,
        ),
{
}

/// Writing `SR` as the destination of a term that itself compiles always
/// fails with `UnwritableOperand`.
pub proof fn lemma_sr_dest_unwritable(e: Expr)
    requires
        ({
            &&& e.assignment matches Option::Some(a)
            &&& a.identifier == Identifier::SR
            &&& term_writes(a.term).1 is Ok
        }),
    ensures
        compile_result(e) == Err::<(), CanNotBeAchievedReason>(
            CanNotBeAchievedReason::UnwritableOperand,
        ),
{
}

/// `MEM` and `DR` combined in a binary term, in either order, always fail
/// with `IllegalOperandCombination`.
pub proof fn lemma_mem_dr_illegal(e: Expr)
    requires
        ({
            &&& e.assignment matches Option::Some(a)
            &&& a.term.left matches Primary::Identifier(l)
            &&& a.term.right matches Option::Some((op, Primary::Identifier(r)))
            &&& pair_is(l, r, Identifier::MEM, Identifier::DR)
        }),
    ensures
        compile_result(e) == Err::<(), CanNotBeAchievedReason>(
            CanNotBeAchievedReason::IllegalOperandCombination,
        ),
{
}

/// Any identifier paired with itself in a binary term always fails with
/// `IdenticalOperands`.
pub proof fn lemma_identical_operands(e: Expr)
    requires
        ({
            &&& e.assignment matches Option::Some(a)
            &&& a.term.left matches Primary::Identifier(l)
            &&& a.term.right matches Option::Some((op, Primary::Identifier(r)))
            &&& l == r
        }),
    ensures
        compile_result(e) == Err::<(), CanNotBeAchievedReason>(
            CanNotBeAchievedReason::IdenticalOperands,
        ),
{
}

/// Subtraction normalisation: for distinct identifier operands, `-` selects
/// "S minus R" (value 1) with the operands swapped exactly when the written
/// pair is `(Q, SR)` or `(DR, SR)` or the right operand is `MEM`; otherwise
/// it selects "R minus S" (value 2) on the pair as written.
pub proof fn lemma_subtraction_normalisation(l: Identifier, r: Identifier)
    requires
        l != r,
    ensures
        minus_swaps(l, r) <==> ((l == Identifier::Q && r == Identifier::SR) || (l == Identifier::DR
            && r == Identifier::SR) || r == Identifier::MEM),
        ({
            let w = binary_writes(
                Primary::Identifier(l),
                Operator::Minus,
                Primary::Identifier(r),
            ).0;
            &&& w[0] == (
                Instrument::MI53(
                    if minus_swaps(l, r) {
                        1u8
                    } else {
                        2u8
                    },
                ),
                false,
            )
            &&& w.drop_first() == if minus_swaps(l, r) {
                pair_writes(r, l).0
            } else {
                pair_writes(l, r).0
            }
        }),
{
    let w = binary_writes(Primary::Identifier(l), Operator::Minus, Primary::Identifier(r)).0;
    let sel = Instrument::MI53(
        if minus_swaps(l, r) {
            1u8
        } else {
            2u8
        },
    );
    let pw = if minus_swaps(l, r) {
        pair_writes(r, l).0
    } else {
        pair_writes(l, r).0
    };
    assert(w =~= seq![(sel, false)] + pw);
    assert(w.drop_first() =~= pw);
}

/// Addition always selects "R plus S" (value 0) on the pair as written.
pub proof fn lemma_addition_function(l: Identifier, r: Identifier)
    requires
        l != r,
    ensures
        ({
            let w = binary_writes(Primary::Identifier(l), Operator::Add, Primary::Identifier(r)).0;
            &&& w[0] == (Instrument::MI53(0u8), false)
            &&& w.drop_first() == pair_writes(l, r).0
        }),
{
    let w = binary_writes(Primary::Identifier(l), Operator::Add, Primary::Identifier(r)).0;
    assert(w =~= seq![(Instrument::MI53(0u8), false)] + pair_writes(l, r).0);
    assert(w.drop_first() =~= pair_writes(l, r).0);
}

/// The three transition rules of a field slot: an unset or default slot
/// takes any write, with the caller's overridability; a locked slot never
/// changes, and a locked write of a different value — and only that — is a
/// collision.
pub proof fn lemma_merge_policy(m: FieldMap, ins: Instrument, overridable: bool)
    ensures
        !(slot_of(m, ins.id_spec()) is Locked) ==> merge_one(m, ins, overridable) == with_slot(
            m,
            ins.id_spec(),
            if overridable {
                Slot::Default(ins)
            } else {
                Slot::Locked(ins)
            },
        ),
        slot_of(m, ins.id_spec()) is Locked ==> merge_one(m, ins, overridable) == m,
        is_collision(m, ins) <==> (slot_of(m, ins.id_spec()) matches Slot::Locked(existing)
            && existing != ins),
{
}

/// The condition table rows the hardware documentation fixes literally.
pub proof fn lemma_condition_table()
    ensures
        condition_select(Condition::Zero) == (0u8, 0u8),
        condition_select(Condition::NotC) == (2u8, 1u8),
        condition_select(Condition::IR108) == (7u8, 0u8),
{
}

} // verus!
