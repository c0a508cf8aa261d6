//! Signal producers: the domain value types (instruction classes, ALU
//! function selects, memory-cycle kinds, port selectors, ...) that the rule
//! tables speak in. Each producer expands, through [`ToInstrument`], into the
//! field values it drives; composite producers (a memory cycle, a port
//! sourced from a register) drive several fields at once.

use vstd::prelude::*;

use crate::instrument::Instrument;

verus! {

/// Expansion of a domain value into the field values it drives.
pub trait ToInstrument {
    /// The field values this producer drives, in the order they are applied.
    spec fn instrument_spec(&self) -> Seq<Instrument>;

    /// Produces the field values this producer drives.
    fn to_instrument(&self) -> (r: Vec<Instrument>)
        ensures
            r@ == self.instrument_spec(),
    ;
}

impl ToInstrument for Instrument {
    open spec fn instrument_spec(&self) -> Seq<Instrument> {
        seq![*self]
    }

    fn to_instrument(&self) -> (r: Vec<Instrument>) {
        let mut r: Vec<Instrument> = Vec::new();
        r.push(*self);
        assert(r@ =~= self.instrument_spec());
        r
    }
}

/// Instruction class.
#[derive(Debug, Clone, Copy, PartialEq, Eq, Structural)]
pub enum Ci {
    /// Initialisation.
    INIT,
    /// Conditional branch.
    IF,
    /// Sequential execution.
    SEQ,
}

impl ToInstrument for Ci {
    open spec fn instrument_spec(&self) -> Seq<Instrument> {
        match self {
            Ci::INIT => seq![Instrument::CI(0)],
            Ci::IF => seq![Instrument::CI(3)],
            Ci::SEQ => seq![Instrument::CI(14)],
        }
    }

    fn to_instrument(&self) -> (r: Vec<Instrument>) {
        let mut r: Vec<Instrument> = Vec::new();
        match self {
            Ci::INIT => r.push(Instrument::CI(0)),
            Ci::IF => r.push(Instrument::CI(3)),
            Ci::SEQ => r.push(Instrument::CI(14)),
        }
        assert(r@ =~= self.instrument_spec());
        r
    }
}

/// First destination-decoder select.
#[derive(Debug, Clone, Copy, PartialEq, Eq, Structural)]
pub enum DC1 {
    /// No destination.
    NONE,
    /// ALU result driven onto the address bus.
    FromALU,
}

impl ToInstrument for DC1 {
    open spec fn instrument_spec(&self) -> Seq<Instrument> {
        match self {
            DC1::NONE => seq![Instrument::DC1(0)],
            DC1::FromALU => seq![Instrument::DC1(1)],
        }
    }

    fn to_instrument(&self) -> (r: Vec<Instrument>) {
        let mut r: Vec<Instrument> = Vec::new();
        match self {
            DC1::NONE => r.push(Instrument::DC1(0)),
            DC1::FromALU => r.push(Instrument::DC1(1)),
        }
        assert(r@ =~= self.instrument_spec());
        r
    }
}

/// Second destination-decoder select.
#[derive(Debug, Clone, Copy, PartialEq, Eq, Structural)]
pub enum DC2 {
    /// No destination.
    NONE,
    /// Instruction register.
    IR,
    /// Address register.
    AR,
}

impl ToInstrument for DC2 {
    open spec fn instrument_spec(&self) -> Seq<Instrument> {
        match self {
            DC2::NONE => seq![Instrument::DC2(0)],
            DC2::IR => seq![Instrument::DC2(1)],
            DC2::AR => seq![Instrument::DC2(2)],
        }
    }

    fn to_instrument(&self) -> (r: Vec<Instrument>) {
        let mut r: Vec<Instrument> = Vec::new();
        match self {
            DC2::NONE => r.push(Instrument::DC2(0)),
            DC2::IR => r.push(Instrument::DC2(1)),
            DC2::AR => r.push(Instrument::DC2(2)),
        }
        assert(r@ =~= self.instrument_spec());
        r
    }
}

/// Second-stage ALU function: register select and Y-output select.
#[derive(Debug, Clone, Copy, PartialEq, Eq, Structural)]
pub enum Mi86 {
    /// F to Q, Y outputs F.
    FQF,
    /// No write-back, Y outputs F.
    NONE,
    /// F to B, Y outputs A.
    FBA,
    /// F to B, Y outputs F.
    FBF,
    /// F/2 to B and Q/2 to Q, Y outputs F.
    F2BQ2QF,
    /// F/2 to B, Y outputs F.
    F2BF,
    /// 2F to B and 2Q to Q, Y outputs F.
    _2FB2QQF,
    /// 2F to B, Y outputs F.
    _2FB,
}

impl ToInstrument for Mi86 {
    open spec fn instrument_spec(&self) -> Seq<Instrument> {
        match self {
            Mi86::FQF => seq![Instrument::MI86(0)],
            Mi86::NONE => seq![Instrument::MI86(1)],
            Mi86::FBA => seq![Instrument::MI86(2)],
            Mi86::FBF => seq![Instrument::MI86(3)],
            Mi86::F2BQ2QF => seq![Instrument::MI86(4)],
            Mi86::F2BF => seq![Instrument::MI86(5)],
            Mi86::_2FB2QQF => seq![Instrument::MI86(6)],
            Mi86::_2FB => seq![Instrument::MI86(7)],
        }
    }

    fn to_instrument(&self) -> (r: Vec<Instrument>) {
        let mut r: Vec<Instrument> = Vec::new();
        match self {
            Mi86::FQF => r.push(Instrument::MI86(0)),
            Mi86::NONE => r.push(Instrument::MI86(1)),
            Mi86::FBA => r.push(Instrument::MI86(2)),
            Mi86::FBF => r.push(Instrument::MI86(3)),
            Mi86::F2BQ2QF => r.push(Instrument::MI86(4)),
            Mi86::F2BF => r.push(Instrument::MI86(5)),
            Mi86::_2FB2QQF => r.push(Instrument::MI86(6)),
            Mi86::_2FB => r.push(Instrument::MI86(7)),
        }
        assert(r@ =~= self.instrument_spec());
        r
    }
}

/// First-stage ALU function select.
#[derive(Debug, Clone, Copy, PartialEq, Eq, Structural)]
pub enum Mi53 {
    /// R plus S.
    RAddS,
    /// S minus R.
    SSubR,
    /// R minus S.
    RSubS,
}

impl ToInstrument for Mi53 {
    open spec fn instrument_spec(&self) -> Seq<Instrument> {
        match self {
            Mi53::RAddS => seq![Instrument::MI53(0)],
            Mi53::SSubR => seq![Instrument::MI53(1)],
            Mi53::RSubS => seq![Instrument::MI53(2)],
        }
    }

    fn to_instrument(&self) -> (r: Vec<Instrument>) {
        let mut r: Vec<Instrument> = Vec::new();
        match self {
            Mi53::RAddS => r.push(Instrument::MI53(0)),
            Mi53::SSubR => r.push(Instrument::MI53(1)),
            Mi53::RSubS => r.push(Instrument::MI53(2)),
        }
        assert(r@ =~= self.instrument_spec());
        r
    }
}

/// ALU operand-source select; `D` is the memory operand.
#[derive(Debug, Clone, Copy, PartialEq, Eq, Structural)]
pub enum Mi20 {
    /// Ports A and Q.
    AQ,
    /// Ports A and B.
    AB,
    /// Zero and Q.
    _0Q,
    /// Zero and B.
    _0B,
    /// Zero and A.
    _0A,
    /// Memory operand and A.
    DA,
    /// Memory operand and Q.
    DQ,
    /// Memory operand and zero.
    D0,
}

impl ToInstrument for Mi20 {
    open spec fn instrument_spec(&self) -> Seq<Instrument> {
        match self {
            Mi20::AQ => seq![Instrument::MI20(0)],
            Mi20::AB => seq![Instrument::MI20(1)],
            Mi20::_0Q => seq![Instrument::MI20(2)],
            Mi20::_0B => seq![Instrument::MI20(3)],
            Mi20::_0A => seq![Instrument::MI20(4)],
            Mi20::DA => seq![Instrument::MI20(5)],
            Mi20::DQ => seq![Instrument::MI20(6)],
            Mi20::D0 => seq![Instrument::MI20(7)],
        }
    }

    fn to_instrument(&self) -> (r: Vec<Instrument>) {
        let mut r: Vec<Instrument> = Vec::new();
        match self {
            Mi20::AQ => r.push(Instrument::MI20(0)),
            Mi20::AB => r.push(Instrument::MI20(1)),
            Mi20::_0Q => r.push(Instrument::MI20(2)),
            Mi20::_0B => r.push(Instrument::MI20(3)),
            Mi20::_0A => r.push(Instrument::MI20(4)),
            Mi20::DA => r.push(Instrument::MI20(5)),
            Mi20::DQ => r.push(Instrument::MI20(6)),
            Mi20::D0 => r.push(Instrument::MI20(7)),
        }
        assert(r@ =~= self.instrument_spec());
        r
    }
}

/// Status-store control.
#[derive(Debug, Clone, Copy, PartialEq, Eq, Structural)]
pub enum SST {
    /// Keep the four status flags unchanged.
    Keep,
    /// Capture the ALU flag outputs.
    ALU,
    /// Restore the saved status flags.
    Recover,
    /// Force C to 0, keep the rest.
    SetC0,
    /// Force C to 1, keep the rest.
    SetC1,
    /// Shift C right, keep the rest.
    Right,
    /// Shift C left, keep the rest.
    Left,
    /// Joint right shift through C, keep the rest.
    UnionRight,
}

impl ToInstrument for SST {
    open spec fn instrument_spec(&self) -> Seq<Instrument> {
        match self {
            SST::Keep => seq![Instrument::SST(0)],
            SST::ALU => seq![Instrument::SST(1)],
            SST::Recover => seq![Instrument::SST(2)],
            SST::SetC0 => seq![Instrument::SST(3)],
            SST::SetC1 => seq![Instrument::SST(4)],
            SST::Right => seq![Instrument::SST(5)],
            SST::Left => seq![Instrument::SST(6)],
            SST::UnionRight => seq![Instrument::SST(7)],
        }
    }

    fn to_instrument(&self) -> (r: Vec<Instrument>) {
        let mut r: Vec<Instrument> = Vec::new();
        match self {
            SST::Keep => r.push(Instrument::SST(0)),
            SST::ALU => r.push(Instrument::SST(1)),
            SST::Recover => r.push(Instrument::SST(2)),
            SST::SetC0 => r.push(Instrument::SST(3)),
            SST::SetC1 => r.push(Instrument::SST(4)),
            SST::Right => r.push(Instrument::SST(5)),
            SST::Left => r.push(Instrument::SST(6)),
            SST::UnionRight => r.push(Instrument::SST(7)),
        }
        assert(r@ =~= self.instrument_spec());
        r
    }
}

/// Shift control.
#[derive(Debug, Clone, Copy, PartialEq, Eq, Structural)]
pub enum SCi {
    /// No pulse.
    NONE,
    /// Program-counter step pulse.
    PCStep,
}

impl ToInstrument for SCi {
    open spec fn instrument_spec(&self) -> Seq<Instrument> {
        match self {
            SCi::NONE => seq![Instrument::SCi(0)],
            SCi::PCStep => seq![Instrument::SCi(1)],
        }
    }

    fn to_instrument(&self) -> (r: Vec<Instrument>) {
        let mut r: Vec<Instrument> = Vec::new();
        match self {
            SCi::NONE => r.push(Instrument::SCi(0)),
            SCi::PCStep => r.push(Instrument::SCi(1)),
        }
        assert(r@ =~= self.instrument_spec());
        r
    }
}

/// The memory-cycle MIO bit on its own.
#[derive(Debug, Clone, Copy, PartialEq, Eq, Structural)]
pub enum MIO {
    Zero,
    One,
}

impl ToInstrument for MIO {
    open spec fn instrument_spec(&self) -> Seq<Instrument> {
        match self {
            MIO::Zero => seq![Instrument::MIO(0)],
            MIO::One => seq![Instrument::MIO(1)],
        }
    }

    fn to_instrument(&self) -> (r: Vec<Instrument>) {
        let mut r: Vec<Instrument> = Vec::new();
        match self {
            MIO::Zero => r.push(Instrument::MIO(0)),
            MIO::One => r.push(Instrument::MIO(1)),
        }
        assert(r@ =~= self.instrument_spec());
        r
    }
}

/// The memory-cycle REQ bit on its own.
#[derive(Debug, Clone, Copy, PartialEq, Eq, Structural)]
pub enum REQ {
    Zero,
    One,
}

impl ToInstrument for REQ {
    open spec fn instrument_spec(&self) -> Seq<Instrument> {
        match self {
            REQ::Zero => seq![Instrument::REQ(0)],
            REQ::One => seq![Instrument::REQ(1)],
        }
    }

    fn to_instrument(&self) -> (r: Vec<Instrument>) {
        let mut r: Vec<Instrument> = Vec::new();
        match self {
            REQ::Zero => r.push(Instrument::REQ(0)),
            REQ::One => r.push(Instrument::REQ(1)),
        }
        assert(r@ =~= self.instrument_spec());
        r
    }
}

/// The memory-cycle WE bit on its own.
#[derive(Debug, Clone, Copy, PartialEq, Eq, Structural)]
pub enum WE {
    Zero,
    One,
}

impl ToInstrument for WE {
    open spec fn instrument_spec(&self) -> Seq<Instrument> {
        match self {
            WE::Zero => seq![Instrument::WE(0)],
            WE::One => seq![Instrument::WE(1)],
        }
    }

    fn to_instrument(&self) -> (r: Vec<Instrument>) {
        let mut r: Vec<Instrument> = Vec::new();
        match self {
            WE::Zero => r.push(Instrument::WE(0)),
            WE::One => r.push(Instrument::WE(1)),
        }
        assert(r@ =~= self.instrument_spec());
        r
    }
}

/// A memory-cycle kind; it drives the MIO, REQ and WE bits together, with
/// the literal truth table of the bus protocol.
#[derive(Debug, Clone, Copy, PartialEq, Eq, Structural)]
pub enum MEM {
    /// Memory write: (0, 0, 0).
    MemWrite,
    /// Memory read: (0, 0, 1).
    MemRead,
    /// I/O read: (0, 1, 0).
    IoRead,
    /// I/O write: (0, 1, 1).
    IoWrite,
    /// No cycle: (1, 0, 0).
    NONE,
    /// Load cycle: (1, 1, 0).
    LOAD,
}

impl ToInstrument for MEM {
    open spec fn instrument_spec(&self) -> Seq<Instrument> {
        match self {
            MEM::MemWrite => seq![Instrument::MIO(0), Instrument::REQ(0), Instrument::WE(0)],
            MEM::MemRead => seq![Instrument::MIO(0), Instrument::REQ(0), Instrument::WE(1)],
            MEM::IoRead => seq![Instrument::MIO(0), Instrument::REQ(1), Instrument::WE(0)],
            MEM::IoWrite => seq![Instrument::MIO(0), Instrument::REQ(1), Instrument::WE(1)],
            MEM::NONE => seq![Instrument::MIO(1), Instrument::REQ(0), Instrument::WE(0)],
            MEM::LOAD => seq![Instrument::MIO(1), Instrument::REQ(1), Instrument::WE(0)],
        }
    }

    fn to_instrument(&self) -> (r: Vec<Instrument>) {
        let (mio, req, we): (u8, u8, u8) = match self {
            MEM::MemWrite => (0, 0, 0),
            MEM::MemRead => (0, 0, 1),
            MEM::IoRead => (0, 1, 0),
            MEM::IoWrite => (0, 1, 1),
            MEM::NONE => (1, 0, 0),
            MEM::LOAD => (1, 1, 0),
        };
        let mut r: Vec<Instrument> = Vec::new();
        r.push(Instrument::MIO(mio));
        r.push(Instrument::REQ(req));
        r.push(Instrument::WE(we));
        assert(r@ =~= self.instrument_spec());
        r
    }
}

/// Source of the ALU A-port: a register index or the S-latch. A register
/// sets the A-port index and clears the A-port latch-source flag; the
/// S-latch only sets the flag and leaves the index untouched.
#[derive(Debug, Clone, Copy, PartialEq, Eq, Structural)]
pub enum A {
    /// A-port read from the register file at this index.
    FromSA(u8),
    /// A-port read from the S-latch.
    SR,
}

impl ToInstrument for A {
    open spec fn instrument_spec(&self) -> Seq<Instrument> {
        match self {
            A::FromSA(val) => seq![Instrument::A(*val), Instrument::SA(0)],
            A::SR => seq![Instrument::SA(1)],
        }
    }

    fn to_instrument(&self) -> (r: Vec<Instrument>) {
        let mut r: Vec<Instrument> = Vec::new();
        match self {
            A::FromSA(val) => {
                r.push(Instrument::A(*val));
                r.push(Instrument::SA(0));
            },
            A::SR => r.push(Instrument::SA(1)),
        }
        assert(r@ =~= self.instrument_spec());
        r
    }
}

/// Source of the ALU B-port: a register index or the D-latch, symmetric to
/// [`A`].
#[derive(Debug, Clone, Copy, PartialEq, Eq, Structural)]
pub enum B {
    /// B-port read from the register file at this index.
    FromSB(u8),
    /// B-port read from the D-latch.
    DR,
}

impl ToInstrument for B {
    open spec fn instrument_spec(&self) -> Seq<Instrument> {
        match self {
            B::FromSB(val) => seq![Instrument::B(*val), Instrument::SB(0)],
            B::DR => seq![Instrument::SB(1)],
        }
    }

    fn to_instrument(&self) -> (r: Vec<Instrument>) {
        let mut r: Vec<Instrument> = Vec::new();
        match self {
            B::FromSB(val) => {
                r.push(Instrument::B(*val));
                r.push(Instrument::SB(0));
            },
            B::DR => r.push(Instrument::SB(1)),
        }
        assert(r@ =~= self.instrument_spec());
        r
    }
}

} // verus!
