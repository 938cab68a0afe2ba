use vstd::prelude::*;

use super::Register;
use crate::codegen::{nibble_and_byte, place_x_low, CodeGen};

verus! {

/// Operand of the `SCH` instruction, which points `I` at the font sprite of the hex digit in the register.
pub struct SchData {
    /// The register that holds the hex digit
    vx: Register,
}

impl SchData {
    #[verifier::type_invariant]
    spec fn inv(self) -> bool {
        self.vx.is_general()
    }

    /// The register that holds the hex digit.
    pub closed spec fn vx(self) -> Register {
        self.vx
    }

    /// Constructs the operand of a `SCH`; it may not be the index register.
    pub fn new(new_vx: Register) -> (r: SchData)
        requires
            new_vx.is_general(),
        ensures
            r.vx() == new_vx,
    {
        SchData { vx: new_vx }
    }
}

impl CodeGen for SchData {
    /// `FX29`
    open spec fn opcode(&self) -> u16 {
        nibble_and_byte(0xF, self.vx().id(), 0x29)
    }

    fn gen_opcode(&self) -> (r: u16) {
        proof {
            use_type_invariant(self);
        }
        place_x_low(0xF000, self.vx.to_id(), 0x29)
    }
}

} // verus!
