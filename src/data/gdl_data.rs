use vstd::prelude::*;

use super::Register;
use crate::codegen::{nibble_and_byte, place_x_low, CodeGen};

verus! {

/// Operand of the `GDL` instruction, which reads the delay timer into the register.
pub struct GdlData {
    /// The register that receives the delay timer
    vx: Register,
}

impl GdlData {
    #[verifier::type_invariant]
    spec fn inv(self) -> bool {
        self.vx.is_general()
    }

    /// The register that receives the delay timer.
    pub closed spec fn vx(self) -> Register {
        self.vx
    }

    /// Constructs the operand of a `GDL`; it may not be the index register.
    pub fn new(new_vx: Register) -> (r: GdlData)
        requires
            new_vx.is_general(),
        ensures
            r.vx() == new_vx,
    {
        GdlData { vx: new_vx }
    }
}

impl CodeGen for GdlData {
    /// `FX07`
    open spec fn opcode(&self) -> u16 {
        nibble_and_byte(0xF, self.vx().id(), 0x07)
    }

    fn gen_opcode(&self) -> (r: u16) {
        proof {
            use_type_invariant(self);
        }
        place_x_low(0xF000, self.vx.to_id(), 0x07)
    }
}

} // verus!
