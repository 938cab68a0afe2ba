use vstd::prelude::*;

use super::Register;
use crate::codegen::{nibble_and_byte, place_x_low, CodeGen};

verus! {

/// Operand of the `RDP` instruction, which stores `V0` up to the register into memory from `I`.
pub struct RdpData {
    /// The last register to store
    vx: Register,
}

impl RdpData {
    #[verifier::type_invariant]
    spec fn inv(self) -> bool {
        self.vx.is_general()
    }

    /// The last register to store.
    pub closed spec fn vx(self) -> Register {
        self.vx
    }

    /// Constructs the operand of a `RDP`; it may not be the index register.
    pub fn new(new_vx: Register) -> (r: RdpData)
        requires
            new_vx.is_general(),
        ensures
            r.vx() == new_vx,
    {
        RdpData { vx: new_vx }
    }
}

impl CodeGen for RdpData {
    /// `FX55`
    open spec fn opcode(&self) -> u16 {
        nibble_and_byte(0xF, self.vx().id(), 0x55)
    }

    fn gen_opcode(&self) -> (r: u16) {
        proof {
            use_type_invariant(self);
        }
        place_x_low(0xF000, self.vx.to_id(), 0x55)
    }
}

} // verus!
