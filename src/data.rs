//! Registers and the operand containers of each instruction family.
//!
//! Every container checks its operands when it is constructed: a register
//! that the family cannot name is refused by the constructor's precondition,
//! and constants are cut to the width of their field.

use vstd::prelude::*;

mod register;
pub use register::Register;

mod skiptype;
pub use skiptype::SKIPType;
pub use skiptype::SkipType;

mod add_data;
pub use add_data::AddData;
mod and_data;
pub use and_data::AndData;
mod bcd_data;
pub use bcd_data::BcdData;
mod call_data;
pub use call_data::CallData;
mod cls_data;
pub use cls_data::ClsData;
mod draw_data;
pub use draw_data::DrawData;
mod gdl_data;
pub use gdl_data::GdlData;
mod jmp_data;
pub use jmp_data::JmpData;
mod jpc_data;
pub use jpc_data::JpcData;
mod key_data;
pub use key_data::KeyData;
mod mov_data;
pub use mov_data::MovData;
mod or_data;
pub use or_data::OrData;
mod rand_data;
pub use rand_data::RandData;
mod rdp_data;
pub use rdp_data::RdpData;
mod ret_data;
pub use ret_data::RetData;
mod rld_data;
pub use rld_data::RldData;
mod sch_data;
pub use sch_data::SchData;
mod sdl_data;
pub use sdl_data::SdlData;
mod shl_data;
pub use shl_data::ShlData;
mod shr_data;
pub use shr_data::ShrData;
mod skip_data;
pub use skip_data::SkipData;
mod snd_data;
pub use snd_data::SndData;
mod sub_data;
pub use sub_data::SubData;
mod subn_data;
pub use subn_data::SubnData;
mod xor_data;
pub use xor_data::XorData;

verus! {

/// A constant cut to the eight bits of an immediate operand.
pub open spec fn mask_byte(c: u16) -> u16 {
    c & 0x00FF
}

/// A constant cut to the twelve bits of an address.
pub open spec fn mask_addr(c: u16) -> u16 {
    c & 0x0FFF
}

/// A constant cut to the four bits of a sprite height.
pub open spec fn mask_nibble(c: u8) -> u8 {
    c & 0x0F
}

/// Masking keeps exactly the low bits of the field's width: the result is the
/// constant modulo the field's range, so it fits the field, leaves a constant
/// that already fits unchanged, and masking again changes nothing.
pub proof fn lemma_masks(c: u16, h: u8)
    ensures
        mask_byte(c) == c % 0x100,
        mask_addr(c) == c % 0x1000,
        mask_nibble(h) == h % 0x10,
        mask_byte(c) < 0x100,
        mask_addr(c) < 0x1000,
        mask_nibble(h) < 0x10,
        mask_byte(mask_byte(c)) == mask_byte(c),
        mask_addr(mask_addr(c)) == mask_addr(c),
        mask_nibble(mask_nibble(h)) == mask_nibble(h),
{
    assert(c & 0x00FF == c % 0x100 && c & 0x0FFF == c % 0x1000) by (bit_vector);
    assert((c & 0x00FF) & 0x00FF == c & 0x00FF && (c & 0x0FFF) & 0x0FFF == c & 0x0FFF)
        by (bit_vector);
    assert(h & 0x0F == h % 0x10 && (h & 0x0F) & 0x0F == h & 0x0F) by (bit_vector);
}

} // verus!
