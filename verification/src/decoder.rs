//! Decoding of one 16-bit instruction word.
//!
//! The word is partitioned into six fixed bit fields (operation class,
//! direction flag, width flag, addressing mode, two register selectors).
//! Only the register-to-register `MOV` class is interpreted: its word is
//! rendered as the assembly line `mov <dest>,<src>`, and any other
//! operation class or addressing mode is reported as an explicit
//! unsupported condition rather than decoded on a guess.

use vstd::prelude::*;

use crate::registers::Width;
use crate::registers::lookup;
use crate::registers::reg_name;
use vstd::string::StringExecFns;

verus! {

/// Operation-class value of register-to-register `MOV` (the top six bits
/// of its instruction word).
pub const MOV_REG_OPERATION: u16 = 0b100010;

/// Addressing-mode value of the register-to-register mode.
pub const REGISTER_MODE: u16 = 0b11;

/// Operation class: the top six bits of the word.
pub open spec fn operation_field(w: u16) -> u16 {
    w >> 10
}

/// Direction flag: bit six of the word, counting from the most significant
/// bit. Set when the first register selector names the destination.
pub open spec fn direction_field(w: u16) -> u16 {
    (w >> 9) & 1
}

/// Width flag: bit seven of the word. Set for the word-width register set,
/// clear for the byte-width set.
pub open spec fn width_field(w: u16) -> u16 {
    (w >> 8) & 1
}

/// Addressing mode: bits eight and nine of the word.
pub open spec fn mode_field(w: u16) -> u16 {
    (w >> 6) & 3
}

/// First register selector: bits ten through twelve of the word.
pub open spec fn reg_a_field(w: u16) -> u16 {
    (w >> 3) & 7
}

/// Second register selector: the low three bits of the word.
pub open spec fn reg_b_field(w: u16) -> u16 {
    w & 7
}

/// The six fields of one instruction word, each already shifted down to a
/// narrow unsigned value.
#[derive(Clone, Copy, Debug, PartialEq, Eq, Structural)]
pub struct Fields {
    pub operation: u8,
    pub direction: u8,
    pub width: u8,
    pub mode: u8,
    pub reg_a: u8,
    pub reg_b: u8,
}

/// The six fields of a word, as one value: extraction is deterministic
/// and total because the fields are this function of the word and nothing
/// else.
pub open spec fn spec_fields(w: u16) -> Fields {
    Fields {
        operation: operation_field(w) as u8,
        direction: direction_field(w) as u8,
        width: width_field(w) as u8,
        mode: mode_field(w) as u8,
        reg_a: reg_a_field(w) as u8,
        reg_b: reg_b_field(w) as u8,
    }
}

/// Splits an instruction word into its six bit fields. Pure bit
/// arithmetic, total over every 16-bit value: each field is a function of
/// the word alone, so extraction is deterministic.
pub fn extract_fields(w: u16) -> (f: Fields)
    ensures
        f == spec_fields(w),
        f.operation == operation_field(w),
        f.direction == direction_field(w),
        f.width == width_field(w),
        f.mode == mode_field(w),
        f.reg_a == reg_a_field(w),
        f.reg_b == reg_b_field(w),
        f.operation < 64,
        f.direction < 2,
        f.width < 2,
        f.mode < 4,
        f.reg_a < 8,
        f.reg_b < 8,
{
    proof {
        assert(w >> 10 < 64 && (w >> 9) & 1 < 2 && (w >> 8) & 1 < 2 && (w >> 6) & 3 < 4 && (w
            >> 3) & 7 < 8 && w & 7 < 8) by (bit_vector);
    }
    Fields {
        operation: (w >> 10) as u8,
        direction: ((w >> 9) & 1) as u8,
        width: ((w >> 8) & 1) as u8,
        mode: ((w >> 6) & 3) as u8,
        reg_a: ((w >> 3) & 7) as u8,
        reg_b: (w & 7) as u8,
    }
}

/// Why a word was not decoded.
#[derive(Clone, Copy, Debug, PartialEq, Eq, Structural)]
pub enum DecodeError {
    /// The operation field is not the register-to-register `MOV` class.
    UnsupportedOperation,
    /// The addressing-mode field is not the register-to-register mode.
    UnsupportedMode,
}

/// The register set that the word's width flag selects.
pub open spec fn spec_width(w: u16) -> Width {
    if width_field(w) == 1 {
        Width::Word
    } else {
        Width::Byte
    }
}

/// The selector of the destination operand: the first register field when
/// the direction flag is set, the second otherwise.
pub open spec fn dest_sel(w: u16) -> u16 {
    if direction_field(w) == 1 {
        reg_a_field(w)
    } else {
        reg_b_field(w)
    }
}

/// The selector of the source operand: the counterpart of `dest_sel`.
pub open spec fn src_sel(w: u16) -> u16 {
    if direction_field(w) == 1 {
        reg_b_field(w)
    } else {
        reg_a_field(w)
    }
}

/// Mnemonic of the destination operand.
pub open spec fn dest_name(w: u16) -> Seq<char> {
    reg_name(spec_width(w), dest_sel(w) as int)
}

/// Mnemonic of the source operand.
pub open spec fn src_name(w: u16) -> Seq<char> {
    reg_name(spec_width(w), src_sel(w) as int)
}

/// The assembly line that a register-to-register `MOV` word renders to.
pub open spec fn spec_line(w: u16) -> Seq<char> {
    "mov "@ + dest_name(w) + ","@ + src_name(w)
}

/// What decoding one word yields: the assembly line exactly when the word
/// is a register-to-register `MOV`, and otherwise which of the two
/// unsupported conditions holds, the operation class being checked first.
pub open spec fn spec_decode(w: u16) -> Result<Seq<char>, DecodeError> {
    if operation_field(w) != MOV_REG_OPERATION {
        Err(DecodeError::UnsupportedOperation)
    } else if mode_field(w) != REGISTER_MODE {
        Err(DecodeError::UnsupportedMode)
    } else {
        Ok(spec_line(w))
    }
}

/// Decodes one instruction word into its assembly line.
pub fn decode(w: u16) -> (r: Result<String, DecodeError>)
    ensures
        r is Ok <==> operation_field(w) == MOV_REG_OPERATION && mode_field(w) == REGISTER_MODE,
        r matches Ok(line) ==> line@ == spec_line(w),
        r matches Err(e) ==> Err::<Seq<char>, DecodeError>(e) == spec_decode(w),
{
    let f = extract_fields(w);
    if f.operation != MOV_REG_OPERATION as u8 {
        return Err(DecodeError::UnsupportedOperation);
    }
    if f.mode != REGISTER_MODE as u8 {
        return Err(DecodeError::UnsupportedMode);
    }
    let width = if f.width == 1 {
        Width::Word
    } else {
        Width::Byte
    };
    let (dst, src) = if f.direction == 1 {
        (f.reg_a, f.reg_b)
    } else {
        (f.reg_b, f.reg_a)
    };
    let mut line = String::new();
    line.append("mov ");
    line.append(lookup(dst, width));
    line.append(",");
    line.append(lookup(src, width));
    proof {
        assert(line@ =~= spec_line(w));
    }
    Ok(line)
}

/// The word with only its direction bit flipped.
pub open spec fn flip_direction(w: u16) -> u16 {
    w ^ 0x0200
}

/// The word with only its width bit flipped.
pub open spec fn flip_width(w: u16) -> u16 {
    w ^ 0x0100
}

/// The register set that `width` does not name.
pub open spec fn other_width(width: Width) -> Width {
    match width {
        Width::Byte => Width::Word,
        Width::Word => Width::Byte,
    }
}

/// Direction invariance: flipping only the direction bit of a word leaves
/// every other field as it was and swaps the two operands, so the decoded
/// line is the same line with source and destination exchanged, and the
/// word decodes successfully exactly when the original does.
pub proof fn lemma_direction_flip(w: u16)
    ensures
        operation_field(flip_direction(w)) == operation_field(w),
        width_field(flip_direction(w)) == width_field(w),
        mode_field(flip_direction(w)) == mode_field(w),
        reg_a_field(flip_direction(w)) == reg_a_field(w),
        reg_b_field(flip_direction(w)) == reg_b_field(w),
        direction_field(flip_direction(w)) != direction_field(w),
        dest_name(flip_direction(w)) == src_name(w),
        src_name(flip_direction(w)) == dest_name(w),
        spec_decode(flip_direction(w)) is Ok <==> spec_decode(w) is Ok,
        spec_decode(w) is Ok ==> spec_decode(flip_direction(w)) == Ok::<
            Seq<char>,
            DecodeError,
        >("mov "@ + src_name(w) + ","@ + dest_name(w)),
{
    assert(operation_field(w ^ 0x0200) == operation_field(w)) by (bit_vector);
    assert(width_field(w ^ 0x0200) == width_field(w)) by (bit_vector);
    assert(mode_field(w ^ 0x0200) == mode_field(w)) by (bit_vector);
    assert(reg_a_field(w ^ 0x0200) == reg_a_field(w)) by (bit_vector);
    assert(reg_b_field(w ^ 0x0200) == reg_b_field(w)) by (bit_vector);
    assert(direction_field(w ^ 0x0200) == (if direction_field(w) == 1 {
        0u16
    } else {
        1u16
    })) by (bit_vector);
}

/// Width invariance: flipping only the width bit of a word leaves the
/// operation, the direction, the mode and both register selectors as they
/// were and selects the other register table, so each operand keeps its
/// position and takes its name from the other width's table, and the word
/// decodes successfully exactly when the original does.
pub proof fn lemma_width_flip(w: u16)
    ensures
        operation_field(flip_width(w)) == operation_field(w),
        direction_field(flip_width(w)) == direction_field(w),
        mode_field(flip_width(w)) == mode_field(w),
        reg_a_field(flip_width(w)) == reg_a_field(w),
        reg_b_field(flip_width(w)) == reg_b_field(w),
        spec_width(flip_width(w)) == other_width(spec_width(w)),
        dest_sel(flip_width(w)) == dest_sel(w),
        src_sel(flip_width(w)) == src_sel(w),
        dest_name(flip_width(w)) == reg_name(other_width(spec_width(w)), dest_sel(w) as int),
        src_name(flip_width(w)) == reg_name(other_width(spec_width(w)), src_sel(w) as int),
        spec_decode(flip_width(w)) is Ok <==> spec_decode(w) is Ok,
{
    assert(operation_field(w ^ 0x0100) == operation_field(w)) by (bit_vector);
    assert(direction_field(w ^ 0x0100) == direction_field(w)) by (bit_vector);
    assert(mode_field(w ^ 0x0100) == mode_field(w)) by (bit_vector);
    assert(reg_a_field(w ^ 0x0100) == reg_a_field(w)) by (bit_vector);
    assert(reg_b_field(w ^ 0x0100) == reg_b_field(w)) by (bit_vector);
    assert(width_field(w ^ 0x0100) == (if width_field(w) == 1 {
        0u16
    } else {
        1u16
    })) by (bit_vector);
}

/// Shape of every decoded line: nine characters that begin with `mov `,
/// hold the two-character destination name, a comma, then the
/// two-character source name, and contain no newline. No decoded line is
/// blank, and joining lines with newlines keeps them apart.
pub proof fn lemma_line_shape(w: u16)
    ensures
        spec_line(w).len() == 9,
        spec_line(w).subrange(0, 4) == "mov "@,
        spec_line(w).subrange(4, 6) == dest_name(w),
        spec_line(w)[6] == ',',
        spec_line(w).subrange(7, 9) == src_name(w),
        forall|i: int| 0 <= i < spec_line(w).len() ==> spec_line(w)[i] != '\n',
{
    reveal_strlit("mov ");
    reveal_strlit(",");
    assert(reg_a_field(w) < 8 && reg_b_field(w) < 8) by (bit_vector);
    crate::registers::lemma_tables_wellformed();
    let line = spec_line(w);
    assert(dest_name(w).len() == 2 && src_name(w).len() == 2);
    assert(line[4] == dest_name(w)[0] && line[5] == dest_name(w)[1]);
    assert(line[7] == src_name(w)[0] && line[8] == src_name(w)[1]);
    assert(line.subrange(0, 4) =~= "mov "@);
    assert(line.subrange(4, 6) =~= dest_name(w));
    assert(line.subrange(7, 9) =~= src_name(w));
}

} // verus!
