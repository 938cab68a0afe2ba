use vstd::prelude::*;

use super::Register;
use crate::codegen::{nibble_and_byte, place_x_low, CodeGen};

verus! {

/// Operand of the `BCD` instruction, which stores the decimal digits of the register at `I`, hundreds first.
pub struct BcdData {
    /// The register to convert to decimal digits
    vx: Register,
}

impl BcdData {
    #[verifier::type_invariant]
    spec fn inv(self) -> bool {
        self.vx.is_general()
    }

    /// The register to convert to decimal digits.
    pub closed spec fn vx(self) -> Register {
        self.vx
    }

    /// Constructs the operand of a `BCD`; it may not be the index register.
    pub fn new(new_vx: Register) -> (r: BcdData)
        requires
            new_vx.is_general(),
        ensures
            r.vx() == new_vx,
    {
        BcdData { vx: new_vx }
    }
}

impl CodeGen for BcdData {
    /// `FX33`
    open spec fn opcode(&self) -> u16 {
        nibble_and_byte(0xF, self.vx().id(), 0x33)
    }

    fn gen_opcode(&self) -> (r: u16) {
        proof {
            use_type_invariant(self);
        }
        place_x_low(0xF000, self.vx.to_id(), 0x33)
    }
}

} // verus!
