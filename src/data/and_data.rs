use vstd::prelude::*;

use super::Register;
use crate::codegen::{nibbles, place_xy, CodeGen};

verus! {

/// Operands of the `AND` instruction: vx &= vy.
pub struct AndData {
    /// The first (destination) operand
    vx: Register,
    /// The second operand
    vy: Register,
}

impl AndData {
    #[verifier::type_invariant]
    spec fn inv(self) -> bool {
        self.vx.is_general() && self.vy.is_general()
    }

    /// The first (destination) operand.
    pub closed spec fn vx(self) -> Register {
        self.vx
    }

    /// The second operand.
    pub closed spec fn vy(self) -> Register {
        self.vy
    }

    /// Constructs the operands of an `AND`; neither may be the index register.
    pub fn new(new_vx: Register, new_vy: Register) -> (r: AndData)
        requires
            new_vx.is_general(),
            new_vy.is_general(),
        ensures
            r.vx() == new_vx,
            r.vy() == new_vy,
    {
        AndData { vx: new_vx, vy: new_vy }
    }
}

impl CodeGen for AndData {
    /// `8XY2`
    open spec fn opcode(&self) -> u16 {
        nibbles(0x8, self.vx().id(), self.vy().id(), 0x2)
    }

    fn gen_opcode(&self) -> (r: u16) {
        proof {
            use_type_invariant(self);
        }
        place_xy(0x8002, self.vx.to_id(), self.vy.to_id())
    }
}

} // verus!
