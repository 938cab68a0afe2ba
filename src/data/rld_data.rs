use vstd::prelude::*;

use super::Register;
use crate::codegen::{nibble_and_byte, place_x_low, CodeGen};

verus! {

/// Operand of the `RLD` instruction, which loads `V0` up to the register from memory at `I`.
pub struct RldData {
    /// The last register to load
    vx: Register,
}

impl RldData {
    #[verifier::type_invariant]
    spec fn inv(self) -> bool {
        self.vx.is_general()
    }

    /// The last register to load.
    pub closed spec fn vx(self) -> Register {
        self.vx
    }

    /// Constructs the operand of a `RLD`; it may not be the index register.
    pub fn new(new_vx: Register) -> (r: RldData)
        requires
            new_vx.is_general(),
        ensures
            r.vx() == new_vx,
    {
        RldData { vx: new_vx }
    }
}

impl CodeGen for RldData {
    /// `FX65`
    open spec fn opcode(&self) -> u16 {
        nibble_and_byte(0xF, self.vx().id(), 0x65)
    }

    fn gen_opcode(&self) -> (r: u16) {
        proof {
            use_type_invariant(self);
        }
        place_x_low(0xF000, self.vx.to_id(), 0x65)
    }
}

} // verus!
