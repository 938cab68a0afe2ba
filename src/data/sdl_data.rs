use vstd::prelude::*;

use super::Register;
use crate::codegen::{nibble_and_byte, place_x_low, CodeGen};

verus! {

/// Operand of the `SDL` instruction, which sets the delay timer from the register.
pub struct SdlData {
    /// The register that holds the new delay timer value
    vx: Register,
}

impl SdlData {
    #[verifier::type_invariant]
    spec fn inv(self) -> bool {
        self.vx.is_general()
    }

    /// The register that holds the new delay timer value.
    pub closed spec fn vx(self) -> Register {
        self.vx
    }

    /// Constructs the operand of a `SDL`; it may not be the index register.
    pub fn new(new_vx: Register) -> (r: SdlData)
        requires
            new_vx.is_general(),
        ensures
            r.vx() == new_vx,
    {
        SdlData { vx: new_vx }
    }
}

impl CodeGen for SdlData {
    /// `FX15`
    open spec fn opcode(&self) -> u16 {
        nibble_and_byte(0xF, self.vx().id(), 0x15)
    }

    fn gen_opcode(&self) -> (r: u16) {
        proof {
            use_type_invariant(self);
        }
        place_x_low(0xF000, self.vx.to_id(), 0x15)
    }
}

} // verus!
