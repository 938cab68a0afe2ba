use vstd::prelude::*;

use super::Register;
use crate::codegen::{nibbles, place_xy, CodeGen};

verus! {

/// Operand of the `SHL` instruction, which shifts the register left by one bit, its highest bit going to `VF`.
pub struct ShlData {
    /// The register to shift
    vx: Register,
}

impl ShlData {
    #[verifier::type_invariant]
    spec fn inv(self) -> bool {
        self.vx.is_general()
    }

    /// The register to shift.
    pub closed spec fn vx(self) -> Register {
        self.vx
    }

    /// Constructs the operand of a `SHL`; it may not be the index register.
    pub fn new(new_vx: Register) -> (r: ShlData)
        requires
            new_vx.is_general(),
        ensures
            r.vx() == new_vx,
    {
        ShlData { vx: new_vx }
    }
}

impl CodeGen for ShlData {
    /// `8XXE`: the register stands in both operand nibbles.
    open spec fn opcode(&self) -> u16 {
        nibbles(0x8, self.vx().id(), self.vx().id(), 0xE)
    }

    fn gen_opcode(&self) -> (r: u16) {
        proof {
            use_type_invariant(self);
        }
        let id = self.vx.to_id();
        place_xy(0x800E, id, id)
    }
}

} // verus!
