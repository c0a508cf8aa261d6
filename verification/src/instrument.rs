//! The field table of the 56-bit control word: the nineteen field
//! identities, each with its fixed bit offset and width, and the field value
//! model (`Instrument`), a field identity together with its integer payload.
//! Payloads are packed MSB-first into the field's declared width by the
//! encoder; bit positions 10, 11 and 20 belong to no field and always read
//! as zero.

use vstd::prelude::*;

verus! {

/// The identity of one named bit-field of the control word.
#[derive(Debug, Clone, Copy, PartialEq, Eq, Structural)]
pub enum FieldId {
    /// Next-address pattern (offset 0, width 10).
    Next,
    /// Instruction class (offset 12, width 4).
    Ci,
    /// Condition-select high bits (offset 16, width 3).
    Scc,
    /// Condition-select low bit (offset 19, width 1).
    Sc,
    /// Status-store control (offset 21, width 3).
    Sst,
    /// Memory-cycle MIO bit (offset 24, width 1).
    Mio,
    /// First-stage ALU function select (offset 25, width 3).
    Mi86,
    /// Memory-cycle REQ bit (offset 28, width 1).
    Req,
    /// ALU function select (offset 29, width 3).
    Mi53,
    /// Memory-cycle WE bit (offset 32, width 1).
    We,
    /// ALU operand-source select (offset 33, width 3).
    Mi20,
    /// A-port register index (offset 36, width 4).
    A,
    /// B-port register index (offset 40, width 4).
    B,
    /// Shift control (offset 44, width 2).
    SCi,
    /// Shift-source select (offset 46, width 2).
    Ssh,
    /// A-port latch-source flag (offset 48, width 1).
    Sa,
    /// First destination-decoder select (offset 49, width 3).
    Dc1,
    /// B-port latch-source flag (offset 52, width 1).
    Sb,
    /// Second destination-decoder select (offset 53, width 3).
    Dc2,
}

/// The bit offset of a field inside the 56-bit control word.
pub open spec fn field_offset(f: FieldId) -> int {
    match f {
        FieldId::Next => 0,
        FieldId::Ci => 12,
        FieldId::Scc => 16,
        FieldId::Sc => 19,
        FieldId::Sst => 21,
        FieldId::Mio => 24,
        FieldId::Mi86 => 25,
        FieldId::Req => 28,
        FieldId::Mi53 => 29,
        FieldId::We => 32,
        FieldId::Mi20 => 33,
        FieldId::A => 36,
        FieldId::B => 40,
        FieldId::SCi => 44,
        FieldId::Ssh => 46,
        FieldId::Sa => 48,
        FieldId::Dc1 => 49,
        FieldId::Sb => 52,
        FieldId::Dc2 => 53,
    }
}

/// The bit width of a field.
pub open spec fn field_width(f: FieldId) -> int {
    match f {
        FieldId::Next => 10,
        FieldId::Ci => 4,
        FieldId::Scc => 3,
        FieldId::Sc => 1,
        FieldId::Sst => 3,
        FieldId::Mio => 1,
        FieldId::Mi86 => 3,
        FieldId::Req => 1,
        FieldId::Mi53 => 3,
        FieldId::We => 1,
        FieldId::Mi20 => 3,
        FieldId::A => 4,
        FieldId::B => 4,
        FieldId::SCi => 2,
        FieldId::Ssh => 2,
        FieldId::Sa => 1,
        FieldId::Dc1 => 3,
        FieldId::Sb => 1,
        FieldId::Dc2 => 3,
    }
}

/// The field, if any, that bit position `i` of the control word belongs to.
/// Positions 10, 11 and 20 are reserved gaps and belong to none.
pub open spec fn owner_of(i: int) -> Option<FieldId> {
    if 0 <= i < 10 {
        Option::Some(FieldId::Next)
    } else if 12 <= i < 16 {
        Option::Some(FieldId::Ci)
    } else if 16 <= i < 19 {
        Option::Some(FieldId::Scc)
    } else if 19 <= i < 20 {
        Option::Some(FieldId::Sc)
    } else if 21 <= i < 24 {
        Option::Some(FieldId::Sst)
    } else if 24 <= i < 25 {
        Option::Some(FieldId::Mio)
    } else if 25 <= i < 28 {
        Option::Some(FieldId::Mi86)
    } else if 28 <= i < 29 {
        Option::Some(FieldId::Req)
    } else if 29 <= i < 32 {
        Option::Some(FieldId::Mi53)
    } else if 32 <= i < 33 {
        Option::Some(FieldId::We)
    } else if 33 <= i < 36 {
        Option::Some(FieldId::Mi20)
    } else if 36 <= i < 40 {
        Option::Some(FieldId::A)
    } else if 40 <= i < 44 {
        Option::Some(FieldId::B)
    } else if 44 <= i < 46 {
        Option::Some(FieldId::SCi)
    } else if 46 <= i < 48 {
        Option::Some(FieldId::Ssh)
    } else if 48 <= i < 49 {
        Option::Some(FieldId::Sa)
    } else if 49 <= i < 52 {
        Option::Some(FieldId::Dc1)
    } else if 52 <= i < 53 {
        Option::Some(FieldId::Sb)
    } else if 53 <= i < 56 {
        Option::Some(FieldId::Dc2)
    } else {
        Option::None
    }
}

/// A field value: one field identity together with its integer payload. The
/// encoder packs the payload's low `field_width` bits MSB-first into the
/// field's bit range.
#[derive(Debug, Clone, Copy, PartialEq, Eq, Structural)]
pub enum Instrument {
    /// Next-address pattern.
    NEXT(u16),
    /// Instruction class.
    CI(u8),
    /// Condition-select high bits.
    SCC(u8),
    /// Condition-select low bit.
    SC(u8),
    /// Status-store control.
    SST(u8),
    /// Memory-cycle MIO bit.
    MIO(u8),
    /// First-stage ALU function select.
    MI86(u8),
    /// Memory-cycle REQ bit.
    REQ(u8),
    /// ALU function select.
    MI53(u8),
    /// Memory-cycle WE bit.
    WE(u8),
    /// ALU operand-source select.
    MI20(u8),
    /// A-port register index.
    A(u8),
    /// B-port register index.
    B(u8),
    /// Shift control.
    SCi(u8),
    /// Shift-source select.
    SSH(u8),
    /// A-port latch-source flag.
    SA(u8),
    /// First destination-decoder select.
    DC1(u8),
    /// B-port latch-source flag.
    SB(u8),
    /// Second destination-decoder select.
    DC2(u8),
}

impl Instrument {
    /// The field identity this value belongs to.
    pub open spec fn id_spec(self) -> FieldId {
        match self {
            Instrument::NEXT(_) => FieldId::Next,
            Instrument::CI(_) => FieldId::Ci,
            Instrument::SCC(_) => FieldId::Scc,
            Instrument::SC(_) => FieldId::Sc,
            Instrument::SST(_) => FieldId::Sst,
            Instrument::MIO(_) => FieldId::Mio,
            Instrument::MI86(_) => FieldId::Mi86,
            Instrument::REQ(_) => FieldId::Req,
            Instrument::MI53(_) => FieldId::Mi53,
            Instrument::WE(_) => FieldId::We,
            Instrument::MI20(_) => FieldId::Mi20,
            Instrument::A(_) => FieldId::A,
            Instrument::B(_) => FieldId::B,
            Instrument::SCi(_) => FieldId::SCi,
            Instrument::SSH(_) => FieldId::Ssh,
            Instrument::SA(_) => FieldId::Sa,
            Instrument::DC1(_) => FieldId::Dc1,
            Instrument::SB(_) => FieldId::Sb,
            Instrument::DC2(_) => FieldId::Dc2,
        }
    }

    /// The integer payload.
    pub open spec fn val_spec(self) -> u16 {
        match self {
            Instrument::NEXT(v) => v,
            Instrument::CI(v) => v as u16,
            Instrument::SCC(v) => v as u16,
            Instrument::SC(v) => v as u16,
            Instrument::SST(v) => v as u16,
            Instrument::MIO(v) => v as u16,
            Instrument::MI86(v) => v as u16,
            Instrument::REQ(v) => v as u16,
            Instrument::MI53(v) => v as u16,
            Instrument::WE(v) => v as u16,
            Instrument::MI20(v) => v as u16,
            Instrument::A(v) => v as u16,
            Instrument::B(v) => v as u16,
            Instrument::SCi(v) => v as u16,
            Instrument::SSH(v) => v as u16,
            Instrument::SA(v) => v as u16,
            Instrument::DC1(v) => v as u16,
            Instrument::SB(v) => v as u16,
            Instrument::DC2(v) => v as u16,
        }
    }

    /// The field identity this value belongs to.
    pub fn id(&self) -> (f: FieldId)
        ensures
            f == self.id_spec(),
    {
        match self {
            Instrument::NEXT(_) => FieldId::Next,
            Instrument::CI(_) => FieldId::Ci,
            Instrument::SCC(_) => FieldId::Scc,
            Instrument::SC(_) => FieldId::Sc,
            Instrument::SST(_) => FieldId::Sst,
            Instrument::MIO(_) => FieldId::Mio,
            Instrument::MI86(_) => FieldId::Mi86,
            Instrument::REQ(_) => FieldId::Req,
            Instrument::MI53(_) => FieldId::Mi53,
            Instrument::WE(_) => FieldId::We,
            Instrument::MI20(_) => FieldId::Mi20,
            Instrument::A(_) => FieldId::A,
            Instrument::B(_) => FieldId::B,
            Instrument::SCi(_) => FieldId::SCi,
            Instrument::SSH(_) => FieldId::Ssh,
            Instrument::SA(_) => FieldId::Sa,
            Instrument::DC1(_) => FieldId::Dc1,
            Instrument::SB(_) => FieldId::Sb,
            Instrument::DC2(_) => FieldId::Dc2,
        }
    }

    /// The integer payload.
    pub fn val(&self) -> (v: u16)
        ensures
            v == self.val_spec(),
    {
        match self {
            Instrument::NEXT(v) => *v,
            Instrument::CI(v) => *v as u16,
            Instrument::SCC(v) => *v as u16,
            Instrument::SC(v) => *v as u16,
            Instrument::SST(v) => *v as u16,
            Instrument::MIO(v) => *v as u16,
            Instrument::MI86(v) => *v as u16,
            Instrument::REQ(v) => *v as u16,
            Instrument::MI53(v) => *v as u16,
            Instrument::WE(v) => *v as u16,
            Instrument::MI20(v) => *v as u16,
            Instrument::A(v) => *v as u16,
            Instrument::B(v) => *v as u16,
            Instrument::SCi(v) => *v as u16,
            Instrument::SSH(v) => *v as u16,
            Instrument::SA(v) => *v as u16,
            Instrument::DC1(v) => *v as u16,
            Instrument::SB(v) => *v as u16,
            Instrument::DC2(v) => *v as u16,
        }
    }

    /// The width in bits of this value's field.
    pub fn length(&self) -> (w: usize)
        ensures
            w as int == field_width(self.id_spec()),
    {
        field_width_of(self.id())
    }

    /// The first bit position of this value's field.
    pub fn begin(&self) -> (o: u8)
        ensures
            o as int == field_offset(self.id_spec()),
    {
        field_offset_of(self.id())
    }

    /// One past the last bit position of this value's field.
    pub fn end(&self) -> (e: u8)
        ensures
            e as int == field_offset(self.id_spec()) + field_width(self.id_spec()),
    {
        self.begin() + (self.length() as u8)
    }
}

/// The bit offset of a field.
pub fn field_offset_of(f: FieldId) -> (o: u8)
    ensures
        o as int == field_offset(f),
{
    match f {
        FieldId::Next => 0,
        FieldId::Ci => 12,
        FieldId::Scc => 16,
        FieldId::Sc => 19,
        FieldId::Sst => 21,
        FieldId::Mio => 24,
        FieldId::Mi86 => 25,
        FieldId::Req => 28,
        FieldId::Mi53 => 29,
        FieldId::We => 32,
        FieldId::Mi20 => 33,
        FieldId::A => 36,
        FieldId::B => 40,
        FieldId::SCi => 44,
        FieldId::Ssh => 46,
        FieldId::Sa => 48,
        FieldId::Dc1 => 49,
        FieldId::Sb => 52,
        FieldId::Dc2 => 53,
    }
}

/// The bit width of a field.
pub fn field_width_of(f: FieldId) -> (w: usize)
    ensures
        w as int == field_width(f),
{
    match f {
        FieldId::Next => 10,
        FieldId::Ci => 4,
        FieldId::Scc => 3,
        FieldId::Sc => 1,
        FieldId::Sst => 3,
        FieldId::Mio => 1,
        FieldId::Mi86 => 3,
        FieldId::Req => 1,
        FieldId::Mi53 => 3,
        FieldId::We => 1,
        FieldId::Mi20 => 3,
        FieldId::A => 4,
        FieldId::B => 4,
        FieldId::SCi => 2,
        FieldId::Ssh => 2,
        FieldId::Sa => 1,
        FieldId::Dc1 => 3,
        FieldId::Sb => 1,
        FieldId::Dc2 => 3,
    }
}

/// The field, if any, that bit position `i` belongs to.
pub fn owner_lookup(i: usize) -> (r: Option<FieldId>)
    requires
        i < 56,
    ensures
        r == owner_of(i as int),
{
    if i < 10 {
        Option::Some(FieldId::Next)
    } else if i < 12 {
        Option::None
    } else if i < 16 {
        Option::Some(FieldId::Ci)
    } else if i < 19 {
        Option::Some(FieldId::Scc)
    } else if i < 20 {
        Option::Some(FieldId::Sc)
    } else if i < 21 {
        Option::None
    } else if i < 24 {
        Option::Some(FieldId::Sst)
    } else if i < 25 {
        Option::Some(FieldId::Mio)
    } else if i < 28 {
        Option::Some(FieldId::Mi86)
    } else if i < 29 {
        Option::Some(FieldId::Req)
    } else if i < 32 {
        Option::Some(FieldId::Mi53)
    } else if i < 33 {
        Option::Some(FieldId::We)
    } else if i < 36 {
        Option::Some(FieldId::Mi20)
    } else if i < 40 {
        Option::Some(FieldId::A)
    } else if i < 44 {
        Option::Some(FieldId::B)
    } else if i < 46 {
        Option::Some(FieldId::SCi)
    } else if i < 48 {
        Option::Some(FieldId::Ssh)
    } else if i < 49 {
        Option::Some(FieldId::Sa)
    } else if i < 52 {
        Option::Some(FieldId::Dc1)
    } else if i < 53 {
        Option::Some(FieldId::Sb)
    } else {
        Option::Some(FieldId::Dc2)
    }
}

/// Bit `j` (0-indexed, most significant first) of the low `width` bits of
/// `val`.
pub open spec fn bit_of(val: u16, width: int, j: int) -> u8
    recommends
        0 <= j < width <= 16,
{
    ((val >> ((width - 1 - j) as u16)) & 1) as u8
}

/// Extracts bit `j` (most significant first) of the low `width` bits of
/// `val`.
pub fn bit_lookup(val: u16, width: usize, j: usize) -> (b: u8)
    requires
        j < width,
        width <= 16,
    ensures
        b == bit_of(val, width as int, j as int),
        b <= 1,
{
    let sh: u16 = (width - 1 - j) as u16;
    assert((val >> sh) & 1 <= 1) by (bit_vector);
    ((val >> sh) & 1) as u8
}

} // verus!
