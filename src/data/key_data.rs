use vstd::prelude::*;

use super::Register;
use crate::codegen::{nibble_and_byte, place_x_low, CodeGen};

verus! {

/// Operand of the `KEY` instruction, which waits for a key press and stores the key in the register.
pub struct KeyData {
    /// The register that receives the key
    vx: Register,
}

impl KeyData {
    #[verifier::type_invariant]
    spec fn inv(self) -> bool {
        self.vx.is_general()
    }

    /// The register that receives the key.
    pub closed spec fn vx(self) -> Register {
        self.vx
    }

    /// Constructs the operand of a `KEY`; it may not be the index register.
    pub fn new(new_vx: Register) -> (r: KeyData)
        requires
            new_vx.is_general(),
        ensures
            r.vx() == new_vx,
    {
        KeyData { vx: new_vx }
    }
}

impl CodeGen for KeyData {
    /// `FX0A`
    open spec fn opcode(&self) -> u16 {
        nibble_and_byte(0xF, self.vx().id(), 0x0A)
    }

    fn gen_opcode(&self) -> (r: u16) {
        proof {
            use_type_invariant(self);
        }
        place_x_low(0xF000, self.vx.to_id(), 0x0A)
    }
}

} // verus!
