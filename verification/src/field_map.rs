//! The field map that a compilation accumulates its field values in: one
//! slot per field identity, each a small state machine. A slot is `Unset`
//! until something writes it; a compiler-seeded default is `Default` and may
//! be overwritten by anything; once a concrete rule writes a field the slot
//! is `Locked` and a later different value is rejected as a collision (the
//! existing value is kept).

use vstd::prelude::*;

use crate::instrument::{FieldId, Instrument};

verus! {

/// The state of one field slot.
#[derive(Debug, Clone, Copy, PartialEq, Eq, Structural)]
pub enum Slot {
    /// No rule has driven this field.
    Unset,
    /// An overridable default drives this field.
    Default(Instrument),
    /// A concrete rule drives this field; later different writes collide.
    Locked(Instrument),
}

/// The field map: one slot per field identity. Keeping a slot per identity
/// makes "at most one entry per field" hold by construction.
#[derive(Debug, Clone, Copy, PartialEq, Eq, Structural)]
pub struct FieldMap {
    pub next: Slot,
    pub ci: Slot,
    pub scc: Slot,
    pub sc: Slot,
    pub sst: Slot,
    pub mio: Slot,
    pub mi86: Slot,
    pub req: Slot,
    pub mi53: Slot,
    pub we: Slot,
    pub mi20: Slot,
    pub a: Slot,
    pub b: Slot,
    pub sci: Slot,
    pub ssh: Slot,
    pub sa: Slot,
    pub dc1: Slot,
    pub sb: Slot,
    pub dc2: Slot,
}

/// The slot of field `f` in map `m`.
pub open spec fn slot_of(m: FieldMap, f: FieldId) -> Slot {
    match f {
        FieldId::Next => m.next,
        FieldId::Ci => m.ci,
        FieldId::Scc => m.scc,
        FieldId::Sc => m.sc,
        FieldId::Sst => m.sst,
        FieldId::Mio => m.mio,
        FieldId::Mi86 => m.mi86,
        FieldId::Req => m.req,
        FieldId::Mi53 => m.mi53,
        FieldId::We => m.we,
        FieldId::Mi20 => m.mi20,
        FieldId::A => m.a,
        FieldId::B => m.b,
        FieldId::SCi => m.sci,
        FieldId::Ssh => m.ssh,
        FieldId::Sa => m.sa,
        FieldId::Dc1 => m.dc1,
        FieldId::Sb => m.sb,
        FieldId::Dc2 => m.dc2,
    }
}

/// Map `m` with the slot of field `f` replaced by `s`.
pub open spec fn with_slot(m: FieldMap, f: FieldId, s: Slot) -> FieldMap {
    match f {
        FieldId::Next => FieldMap { next: s, ..m },
        FieldId::Ci => FieldMap { ci: s, ..m },
        FieldId::Scc => FieldMap { scc: s, ..m },
        FieldId::Sc => FieldMap { sc: s, ..m },
        FieldId::Sst => FieldMap { sst: s, ..m },
        FieldId::Mio => FieldMap { mio: s, ..m },
        FieldId::Mi86 => FieldMap { mi86: s, ..m },
        FieldId::Req => FieldMap { req: s, ..m },
        FieldId::Mi53 => FieldMap { mi53: s, ..m },
        FieldId::We => FieldMap { we: s, ..m },
        FieldId::Mi20 => FieldMap { mi20: s, ..m },
        FieldId::A => FieldMap { a: s, ..m },
        FieldId::B => FieldMap { b: s, ..m },
        FieldId::SCi => FieldMap { sci: s, ..m },
        FieldId::Ssh => FieldMap { ssh: s, ..m },
        FieldId::Sa => FieldMap { sa: s, ..m },
        FieldId::Dc1 => FieldMap { dc1: s, ..m },
        FieldId::Sb => FieldMap { sb: s, ..m },
        FieldId::Dc2 => FieldMap { dc2: s, ..m },
    }
}

/// The merge policy, one write: an `Unset` or `Default` slot takes the new
/// value with the caller's overridability; a `Locked` slot keeps what it has.
pub open spec fn merge_one(m: FieldMap, ins: Instrument, overridable: bool) -> FieldMap {
    let f = ins.id_spec();
    match slot_of(m, f) {
        Slot::Locked(_) => m,
        _ => with_slot(m, f, if overridable { Slot::Default(ins) } else { Slot::Locked(ins) }),
    }
}

/// Whether writing `ins` collides: the slot is locked to a different value.
/// A collision is non-fatal; the write is dropped and reported.
pub open spec fn is_collision(m: FieldMap, ins: Instrument) -> bool {
    match slot_of(m, ins.id_spec()) {
        Slot::Locked(existing) => existing != ins,
        _ => false,
    }
}

/// A compilation state: the field map plus the rejected (collided) writes,
/// in the order they were attempted.
pub type MapState = (FieldMap, Seq<Instrument>);

/// Applies a sequence of writes, each an instrument with its overridability,
/// to a compilation state.
pub open spec fn apply_writes(st: MapState, writes: Seq<(Instrument, bool)>) -> MapState
    decreases writes.len(),
{
    if writes.len() == 0 {
        st
    } else {
        let (ins, ovr) = writes[0];
        let st1 = (
            merge_one(st.0, ins, ovr),
            if is_collision(st.0, ins) {
                st.1.push(ins)
            } else {
                st.1
            },
        );
        apply_writes(st1, writes.drop_first())
    }
}

/// A sequence of writes applies in stages: a concatenation applies as the
/// first part, then the second.
pub proof fn lemma_apply_writes_concat(st: MapState, a: Seq<(Instrument, bool)>, b: Seq<(Instrument, bool)>)
    ensures
        apply_writes(st, a + b) == apply_writes(apply_writes(st, a), b),
    decreases a.len(),
{
    if a.len() == 0 {
        assert(a + b =~= b);
    } else {
        let (ins, ovr) = a[0];
        let st1 = (
            merge_one(st.0, ins, ovr),
            if is_collision(st.0, ins) {
                st.1.push(ins)
            } else {
                st.1
            },
        );
        assert((a + b).drop_first() =~= a.drop_first() + b);
        lemma_apply_writes_concat(st1, a.drop_first(), b);
    }
}

/// A singleton write sequence is one merge.
pub proof fn lemma_apply_writes_one(st: MapState, ins: Instrument, ovr: bool)
    ensures
        apply_writes(st, seq![(ins, ovr)]).0 == merge_one(st.0, ins, ovr),
        apply_writes(st, seq![(ins, ovr)]).1 == if is_collision(st.0, ins) {
            st.1.push(ins)
        } else {
            st.1
        },
{
    let s = seq![(ins, ovr)];
    let st1 = (
        merge_one(st.0, ins, ovr),
        if is_collision(st.0, ins) {
            st.1.push(ins)
        } else {
            st.1
        },
    );
    assert(s.drop_first() =~= Seq::<(Instrument, bool)>::empty());
    assert(apply_writes(st1, s.drop_first()) == st1);
    assert(apply_writes(st, s) == apply_writes(st1, s.drop_first()));
}

/// The field value a slot holds, if any.
pub open spec fn slot_items(s: Slot) -> Seq<Instrument> {
    match s {
        Slot::Unset => seq![],
        Slot::Default(i) => seq![i],
        Slot::Locked(i) => seq![i],
    }
}

/// The field values a map holds, in field-table order.
pub open spec fn present_instruments(m: FieldMap) -> Seq<Instrument> {
    slot_items(m.next) + slot_items(m.ci) + slot_items(m.scc) + slot_items(m.sc) + slot_items(
        m.sst,
    ) + slot_items(m.mio) + slot_items(m.mi86) + slot_items(m.req) + slot_items(m.mi53)
        + slot_items(m.we) + slot_items(m.mi20) + slot_items(m.a) + slot_items(m.b) + slot_items(
        m.sci,
    ) + slot_items(m.ssh) + slot_items(m.sa) + slot_items(m.dc1) + slot_items(m.sb) + slot_items(
        m.dc2,
    )
}

/// Appends the field value a slot holds, if any.
fn push_slot(v: &mut Vec<Instrument>, s: Slot)
    ensures
        final(v)@ == old(v)@ + slot_items(s),
{
    match s {
        Slot::Unset => {
            assert(v@ =~= old(v)@ + slot_items(s));
        },
        Slot::Default(i) => {
            v.push(i);
            assert(v@ =~= old(v)@ + slot_items(s));
        },
        Slot::Locked(i) => {
            v.push(i);
            assert(v@ =~= old(v)@ + slot_items(s));
        },
    }
}

impl FieldMap {
    /// The field values this map holds, in field-table order.
    pub fn values(&self) -> (v: Vec<Instrument>)
        ensures
            v@ == present_instruments(*self),
    {
        let mut v: Vec<Instrument> = Vec::new();
        push_slot(&mut v, self.next);
        push_slot(&mut v, self.ci);
        push_slot(&mut v, self.scc);
        push_slot(&mut v, self.sc);
        push_slot(&mut v, self.sst);
        push_slot(&mut v, self.mio);
        push_slot(&mut v, self.mi86);
        push_slot(&mut v, self.req);
        push_slot(&mut v, self.mi53);
        push_slot(&mut v, self.we);
        push_slot(&mut v, self.mi20);
        push_slot(&mut v, self.a);
        push_slot(&mut v, self.b);
        push_slot(&mut v, self.sci);
        push_slot(&mut v, self.ssh);
        push_slot(&mut v, self.sa);
        push_slot(&mut v, self.dc1);
        push_slot(&mut v, self.sb);
        push_slot(&mut v, self.dc2);
        assert(v@ =~= present_instruments(*self));
        v
    }

    /// The empty map: every slot unset.
    pub open spec fn empty_spec() -> FieldMap {
        FieldMap {
            next: Slot::Unset,
            ci: Slot::Unset,
            scc: Slot::Unset,
            sc: Slot::Unset,
            sst: Slot::Unset,
            mio: Slot::Unset,
            mi86: Slot::Unset,
            req: Slot::Unset,
            mi53: Slot::Unset,
            we: Slot::Unset,
            mi20: Slot::Unset,
            a: Slot::Unset,
            b: Slot::Unset,
            sci: Slot::Unset,
            ssh: Slot::Unset,
            sa: Slot::Unset,
            dc1: Slot::Unset,
            sb: Slot::Unset,
            dc2: Slot::Unset,
        }
    }

    /// Creates the empty map.
    pub fn empty() -> (m: FieldMap)
        ensures
            m == FieldMap::empty_spec(),
    {
        FieldMap {
            next: Slot::Unset,
            ci: Slot::Unset,
            scc: Slot::Unset,
            sc: Slot::Unset,
            sst: Slot::Unset,
            mio: Slot::Unset,
            mi86: Slot::Unset,
            req: Slot::Unset,
            mi53: Slot::Unset,
            we: Slot::Unset,
            mi20: Slot::Unset,
            a: Slot::Unset,
            b: Slot::Unset,
            sci: Slot::Unset,
            ssh: Slot::Unset,
            sa: Slot::Unset,
            dc1: Slot::Unset,
            sb: Slot::Unset,
            dc2: Slot::Unset,
        }
    }

    /// Reads the slot of field `f`.
    pub fn get_slot(&self, f: FieldId) -> (s: Slot)
        ensures
            s == slot_of(*self, f),
    {
        match f {
            FieldId::Next => self.next,
            FieldId::Ci => self.ci,
            FieldId::Scc => self.scc,
            FieldId::Sc => self.sc,
            FieldId::Sst => self.sst,
            FieldId::Mio => self.mio,
            FieldId::Mi86 => self.mi86,
            FieldId::Req => self.req,
            FieldId::Mi53 => self.mi53,
            FieldId::We => self.we,
            FieldId::Mi20 => self.mi20,
            FieldId::A => self.a,
            FieldId::B => self.b,
            FieldId::SCi => self.sci,
            FieldId::Ssh => self.ssh,
            FieldId::Sa => self.sa,
            FieldId::Dc1 => self.dc1,
            FieldId::Sb => self.sb,
            FieldId::Dc2 => self.dc2,
        }
    }

    /// Replaces the slot of field `f`.
    fn set_slot(&mut self, f: FieldId, s: Slot)
        ensures
            *final(self) == with_slot(*old(self), f, s),
    {
        match f {
            FieldId::Next => self.next = s,
            FieldId::Ci => self.ci = s,
            FieldId::Scc => self.scc = s,
            FieldId::Sc => self.sc = s,
            FieldId::Sst => self.sst = s,
            FieldId::Mio => self.mio = s,
            FieldId::Mi86 => self.mi86 = s,
            FieldId::Req => self.req = s,
            FieldId::Mi53 => self.mi53 = s,
            FieldId::We => self.we = s,
            FieldId::Mi20 => self.mi20 = s,
            FieldId::A => self.a = s,
            FieldId::B => self.b = s,
            FieldId::SCi => self.sci = s,
            FieldId::Ssh => self.ssh = s,
            FieldId::Sa => self.sa = s,
            FieldId::Dc1 => self.dc1 = s,
            FieldId::Sb => self.sb = s,
            FieldId::Dc2 => self.dc2 = s,
        }
    }

    /// Applies one write under the merge policy; reports whether it collided
    /// (the slot was locked to a different value, which is kept).
    pub fn push_value(&mut self, ins: Instrument, overridable: bool) -> (collided: bool)
        ensures
            *final(self) == merge_one(*old(self), ins, overridable),
            collided == is_collision(*old(self), ins),
    {
        let f = ins.id();
        match self.get_slot(f) {
            Slot::Locked(existing) => existing != ins,
            _ => {
                let s = if overridable {
                    Slot::Default(ins)
                } else {
                    Slot::Locked(ins)
                };
                self.set_slot(f, s);
                false
            },
        }
    }
}

} // verus!
