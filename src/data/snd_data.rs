use vstd::prelude::*;

use super::Register;
use crate::codegen::{nibble_and_byte, place_x_low, CodeGen};

verus! {

/// Operand of the `SND` instruction, which sets the sound timer from the register.
pub struct SndData {
    /// The register that holds the new sound timer value
    vx: Register,
}

impl SndData {
    #[verifier::type_invariant]
    spec fn inv(self) -> bool {
        self.vx.is_general()
    }

    /// The register that holds the new sound timer value.
    pub closed spec fn vx(self) -> Register {
        self.vx
    }

    /// Constructs the operand of a `SND`; it may not be the index register.
    pub fn new(new_vx: Register) -> (r: SndData)
        requires
            new_vx.is_general(),
        ensures
            r.vx() == new_vx,
    {
        SndData { vx: new_vx }
    }
}

impl CodeGen for SndData {
    /// `FX18`
    open spec fn opcode(&self) -> u16 {
        nibble_and_byte(0xF, self.vx().id(), 0x18)
    }

    fn gen_opcode(&self) -> (r: u16) {
        proof {
            use_type_invariant(self);
        }
        place_x_low(0xF000, self.vx.to_id(), 0x18)
    }
}

} // verus!
