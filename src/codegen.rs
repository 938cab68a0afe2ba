//! Opcode generation and binary image assembly.

use vstd::prelude::*;

mod binary;
pub use binary::{lemma_instructions_image, padded, word_bytes, Binary, CAPACITY};
mod instruction;
pub use instruction::Instruction;

verus! {

/// Packs four nibbles into a 16-bit word, the first one most significant.
pub open spec fn nibbles(a: nat, b: nat, c: nat, d: nat) -> u16 {
    (a * 0x1000 + b * 0x100 + c * 0x10 + d) as u16
}

/// Packs a high nibble, a register nibble and a byte into a 16-bit word.
pub open spec fn nibble_and_byte(a: nat, x: nat, nn: nat) -> u16 {
    (a * 0x1000 + x * 0x100 + nn) as u16
}

/// Packs a high nibble and a 12-bit address into a 16-bit word.
pub open spec fn nibble_and_addr(a: nat, addr: nat) -> u16 {
    (a * 0x1000 + addr) as u16
}

/// Places register IDs `x` and `y` in the second and third nibbles of
/// `template`, whose nibbles there are zero.
pub(crate) fn place_xy(template: u16, x: u8, y: u8) -> (r: u16)
    requires
        (template / 0x10) % 0x100 == 0,
        x < 0x10,
        y < 0x10,
    ensures
        r == template + x * 0x100 + y * 0x10,
{
    let xx = x as u16;
    let yy = y as u16;
    assert(template | (xx << 8u16) | (yy << 4u16) == template + xx * 0x100 + yy * 0x10)
        by (bit_vector)
        requires
            (template / 0x10) % 0x100 == 0,
            xx < 0x10,
            yy < 0x10,
    ;
    template | (xx << 8) | (yy << 4)
}

/// Places the register ID `x` in the second nibble of `template`, and the
/// byte `low` in its two lowest nibbles, all of which are zero.
pub(crate) fn place_x_low(template: u16, x: u8, low: u16) -> (r: u16)
    requires
        template % 0x1000 == 0,
        x < 0x10,
        low < 0x100,
    ensures
        r == template + x * 0x100 + low,
{
    let xx = x as u16;
    assert(template | (xx << 8u16) | low == template + xx * 0x100 + low) by (bit_vector)
        requires
            template % 0x1000 == 0,
            xx < 0x10,
            low < 0x100,
    ;
    template | (xx << 8) | low
}

/// Places the 12-bit value `low` in the three lowest nibbles of `template`,
/// which are zero.
pub(crate) fn place_low12(template: u16, low: u16) -> (r: u16)
    requires
        template % 0x1000 == 0,
        low < 0x1000,
    ensures
        r == template + low,
{
    assert(template | low == template + low) by (bit_vector)
        requires
            template % 0x1000 == 0,
            low < 0x1000,
    ;
    template | low
}

/// The capability of producing the opcode of an instruction value.
pub trait CodeGen {
    /// The opcode that this value encodes to.
    spec fn opcode(&self) -> u16;

    /// Generates the opcode of this value.
    fn gen_opcode(&self) -> (r: u16)
        ensures
            r == self.opcode(),
    ;
}

} // verus!
