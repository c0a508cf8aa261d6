//! The word encoder: a pure function of the final field map. Every field
//! value contributes its payload bits, MSB-first, at its field's offset;
//! every position no field drives (including the reserved gaps at 10, 11 and
//! 20) reads as zero. The 56 bits are then grouped MSB-first into seven
//! bytes, and the bytes rendered as upper-case hexadecimal.

use vstd::prelude::*;

use crate::field_map::{slot_of, FieldMap, Slot};
use crate::instrument::{
    bit_lookup, bit_of, field_offset, field_offset_of, field_width, field_width_of, owner_lookup,
    owner_of, FieldId, Instrument,
};

verus! {

/// Bit `i` of the control word encoding map `m`: the matching payload bit of
/// the field owning position `i`, or zero where no field owns it or its slot
/// is unset.
pub open spec fn word_bit(m: FieldMap, i: int) -> u8 {
    match owner_of(i) {
        Option::None => 0,
        Option::Some(f) => match slot_of(m, f) {
            Slot::Unset => 0,
            Slot::Default(ins) => bit_of(ins.val_spec(), field_width(f), i - field_offset(f)),
            Slot::Locked(ins) => bit_of(ins.val_spec(), field_width(f), i - field_offset(f)),
        },
    }
}

/// Every control-word bit is 0 or 1.
pub proof fn lemma_word_bit_le_one(m: FieldMap, i: int)
    ensures
        word_bit(m, i) <= 1,
{
    assert forall|v: u16, sh: u16| ((v >> sh) & 1) <= 1 by {
        assert(forall|v: u16, sh: u16| ((v >> sh) & 1) <= 1) by (bit_vector);
    }
}

/// Byte `i` of the encoded word: bits `8*i .. 8*i+8`, MSB first.
pub open spec fn word_byte(m: FieldMap, i: int) -> u8 {
    (word_bit(m, 8 * i) * 128 + word_bit(m, 8 * i + 1) * 64 + word_bit(m, 8 * i + 2) * 32
        + word_bit(m, 8 * i + 3) * 16 + word_bit(m, 8 * i + 4) * 8 + word_bit(m, 8 * i + 5) * 4
        + word_bit(m, 8 * i + 6) * 2 + word_bit(m, 8 * i + 7)) as u8
}

/// Computes bit `i` of the control word.
fn word_bit_lookup(m: &FieldMap, i: usize) -> (b: u8)
    requires
        i < 56,
    ensures
        b == word_bit(*m, i as int),
        b <= 1,
{
    match owner_lookup(i) {
        Option::None => 0,
        Option::Some(f) => {
            let slot = m.get_slot(f);
            match slot {
                Slot::Unset => 0,
                Slot::Default(ins) => field_bit_lookup(ins, f, i),
                Slot::Locked(ins) => field_bit_lookup(ins, f, i),
            }
        },
    }
}

/// Extracts the payload bit of `ins` for word position `i`, owned by field
/// `f`.
fn field_bit_lookup(ins: Instrument, f: FieldId, i: usize) -> (b: u8)
    requires
        i < 56,
        owner_of(i as int) == Option::Some(f),
    ensures
        b == bit_of(ins.val_spec(), field_width(f), i - field_offset(f)),
        b <= 1,
{
    let off = field_offset_of(f);
    let w = field_width_of(f);
    assert(field_offset(f) <= i as int && (i as int) < field_offset(f) + field_width(f));
    bit_lookup(ins.val(), w, i - (off as usize))
}

/// Packs the field map into the 56-bit control word, one 0/1 value per bit
/// position.
pub fn encode_bits(m: &FieldMap) -> (out: Vec<u8>)
    ensures
        out@.len() == 56,
        forall|i: int| 0 <= i < 56 ==> out@[i] == word_bit(*m, i),
        forall|i: int| 0 <= i < 56 ==> out@[i] <= 1,
{
    let mut out: Vec<u8> = Vec::new();
    let mut i: usize = 0;
    while i < 56
        invariant
            i <= 56,
            out@.len() == i,
            forall|j: int| 0 <= j < i ==> out@[j] == word_bit(*m, j),
            forall|j: int| 0 <= j < i ==> out@[j] <= 1,
        decreases 56 - i,
    {
        let b = word_bit_lookup(m, i);
        out.push(b);
        i += 1;
    }
    out
}

/// Packs the field map into the seven bytes of the control word, MSB-first
/// within each byte.
pub fn encode_bytes(m: &FieldMap) -> (out: Vec<u8>)
    ensures
        out@.len() == 7,
        forall|i: int| 0 <= i < 7 ==> out@[i] == word_byte(*m, i),
{
    let bits = encode_bits(m);
    let mut out: Vec<u8> = Vec::new();
    let mut i: usize = 0;
    while i < 7
        invariant
            i <= 7,
            out@.len() == i,
            bits@.len() == 56,
            forall|j: int| 0 <= j < 56 ==> bits@[j] == word_bit(*m, j),
            forall|j: int| 0 <= j < 56 ==> bits@[j] <= 1,
            forall|j: int| 0 <= j < i ==> out@[j] == word_byte(*m, j),
        decreases 7 - i,
    {
        let base = 8 * i;
        let b: u8 = bits[base] * 128 + bits[base + 1] * 64 + bits[base + 2] * 32 + bits[base + 3]
            * 16 + bits[base + 4] * 8 + bits[base + 5] * 4 + bits[base + 6] * 2 + bits[base + 7];
        out.push(b);
        i += 1;
    }
    out
}

/// The upper-case hexadecimal digit of a nibble value.
pub open spec fn hex_digit(d: u8) -> char {
    if d == 0 {
        '0'
    } else if d == 1 {
        '1'
    } else if d == 2 {
        '2'
    } else if d == 3 {
        '3'
    } else if d == 4 {
        '4'
    } else if d == 5 {
        '5'
    } else if d == 6 {
        '6'
    } else if d == 7 {
        '7'
    } else if d == 8 {
        '8'
    } else if d == 9 {
        '9'
    } else if d == 10 {
        'A'
    } else if d == 11 {
        'B'
    } else if d == 12 {
        'C'
    } else if d == 13 {
        'D'
    } else if d == 14 {
        'E'
    } else {
        'F'
    }
}

/// The two upper-case hexadecimal digits of a byte.
pub open spec fn byte_chars(b: u8) -> Seq<char> {
    seq![hex_digit(b / 16), hex_digit(b % 16)]
}

/// The hexadecimal rendering of the first `n` bytes of the encoded word.
pub open spec fn word_hex_chars_upto(m: FieldMap, n: int) -> Seq<char>
    decreases n,
{
    if n <= 0 {
        seq![]
    } else {
        word_hex_chars_upto(m, n - 1) + byte_chars(word_byte(m, n - 1))
    }
}

/// The 14-character upper-case hexadecimal rendering of the encoded word.
pub open spec fn word_hex_chars(m: FieldMap) -> Seq<char> {
    word_hex_chars_upto(m, 7)
}

/// One upper-case hexadecimal digit.
fn hex_digit_lookup(d: u8) -> (s: &'static str)
    requires
        d < 16,
    ensures
        s@.len() == 1,
        s@[0] == hex_digit(d),
{
    proof {
        reveal_strlit("0");
        reveal_strlit("1");
        reveal_strlit("2");
        reveal_strlit("3");
        reveal_strlit("4");
        reveal_strlit("5");
        reveal_strlit("6");
        reveal_strlit("7");
        reveal_strlit("8");
        reveal_strlit("9");
        reveal_strlit("A");
        reveal_strlit("B");
        reveal_strlit("C");
        reveal_strlit("D");
        reveal_strlit("E");
        reveal_strlit("F");
    }
    if d == 0 {
        "0"
    } else if d == 1 {
        "1"
    } else if d == 2 {
        "2"
    } else if d == 3 {
        "3"
    } else if d == 4 {
        "4"
    } else if d == 5 {
        "5"
    } else if d == 6 {
        "6"
    } else if d == 7 {
        "7"
    } else if d == 8 {
        "8"
    } else if d == 9 {
        "9"
    } else if d == 10 {
        "A"
    } else if d == 11 {
        "B"
    } else if d == 12 {
        "C"
    } else if d == 13 {
        "D"
    } else if d == 14 {
        "E"
    } else {
        "F"
    }
}

/// Renders the encoded word as 14 upper-case hexadecimal characters, no
/// separators.
pub fn encode_hex_upper(m: &FieldMap) -> (s: String)
    ensures
        s@ == word_hex_chars(*m),
{
    let bytes = encode_bytes(m);
    let mut s = String::new();
    let mut i: usize = 0;
    while i < 7
        invariant
            i <= 7,
            bytes@.len() == 7,
            forall|j: int| 0 <= j < 7 ==> bytes@[j] == word_byte(*m, j),
            s@ == word_hex_chars_upto(*m, i as int),
        decreases 7 - i,
    {
        let b = bytes[i];
        let hi = hex_digit_lookup(b / 16);
        s.append(hi);
        let lo = hex_digit_lookup(b % 16);
        s.append(lo);
        proof {
            assert(s@ =~= word_hex_chars_upto(*m, i as int + 1));
        }
        i += 1;
    }
    s
}

} // verus!
