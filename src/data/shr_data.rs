use vstd::prelude::*;

use super::Register;
use crate::codegen::{nibbles, place_xy, CodeGen};

verus! {

/// Operand of the `SHR` instruction, which shifts the register right by one bit, its lowest bit going to `VF`.
pub struct ShrData {
    /// The register to shift
    vx: Register,
}

impl ShrData {
    #[verifier::type_invariant]
    spec fn inv(self) -> bool {
        self.vx.is_general()
    }

    /// The register to shift.
    pub closed spec fn vx(self) -> Register {
        self.vx
    }

    /// Constructs the operand of a `SHR`; it may not be the index register.
    pub fn new(new_vx: Register) -> (r: ShrData)
        requires
            new_vx.is_general(),
        ensures
            r.vx() == new_vx,
    {
        ShrData { vx: new_vx }
    }
}

impl CodeGen for ShrData {
    /// `8XX6`: the register stands in both operand nibbles.
    open spec fn opcode(&self) -> u16 {
        nibbles(0x8, self.vx().id(), self.vx().id(), 0x6)
    }

    fn gen_opcode(&self) -> (r: u16) {
        proof {
            use_type_invariant(self);
        }
        let id = self.vx.to_id();
        place_xy(0x8006, id, id)
    }
}

} // verus!
