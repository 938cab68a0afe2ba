use vstd::prelude::*;

use super::{lemma_masks, mask_nibble, Register};
use crate::codegen::{nibbles, place_xy, CodeGen};

verus! {

/// Operands of the `DRAW` instruction, which draws an 8-pixel-wide sprite
/// read from `I` at the coordinates held in two registers.
pub struct DrawData {
    /// The register that holds the x-coordinate of the sprite
    vx: Register,
    /// The register that holds the y-coordinate of the sprite
    vy: Register,
    /// The height of the sprite
    h: u8,
}

impl DrawData {
    #[verifier::type_invariant]
    spec fn inv(self) -> bool {
        self.vx.is_general() && self.vy.is_general() && self.h < 0x10
    }

    /// The register that holds the x-coordinate.
    pub closed spec fn vx(self) -> Register {
        self.vx
    }

    /// The register that holds the y-coordinate.
    pub closed spec fn vy(self) -> Register {
        self.vy
    }

    /// The height of the sprite.
    pub closed spec fn h(self) -> u8 {
        self.h
    }

    /// Constructs the operands of a `DRAW`, keeping the low four bits of the
    /// height; neither coordinate may be held in the index register.
    pub fn new(new_vx: Register, new_vy: Register, new_h: u8) -> (r: DrawData)
        requires
            new_vx.is_general(),
            new_vy.is_general(),
        ensures
            r.vx() == new_vx,
            r.vy() == new_vy,
            r.h() == mask_nibble(new_h),
    {
        proof {
            lemma_masks(0, new_h);
        }
        DrawData { vx: new_vx, vy: new_vy, h: new_h & 0x0F }
    }

    /// Gets the height of the sprite.
    pub fn get_height(&self) -> (r: u8)
        ensures
            r == self.h(),
    {
        self.h
    }
}

impl CodeGen for DrawData {
    /// `DXYN`
    open spec fn opcode(&self) -> u16 {
        nibbles(0xD, self.vx().id(), self.vy().id(), self.h() as nat)
    }

    fn gen_opcode(&self) -> (r: u16) {
        proof {
            use_type_invariant(self);
        }
        place_xy(0xD000 + self.h as u16, self.vx.to_id(), self.vy.to_id())
    }
}

} // verus!
