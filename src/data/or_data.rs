use vstd::prelude::*;

use super::Register;
use crate::codegen::{nibbles, place_xy, CodeGen};

verus! {

/// Operands of the `OR` instruction: vx |= vy.
pub struct OrData {
    /// The first (destination) operand
    vx: Register,
    /// The second operand
    vy: Register,
}

impl OrData {
    #[verifier::type_invariant]
    spec fn inv(self) -> bool {
        self.vx.is_general() && self.vy.is_general()
    }

    /// The first (destination) operand.
    pub closed spec fn vx(self) -> Register {
        self.vx
    }

    /// The second operand.
    pub closed spec fn vy(self) -> Register {
        self.vy
    }

    /// Constructs the operands of an `OR`; neither may be the index register.
    pub fn new(new_vx: Register, new_vy: Register) -> (r: OrData)
        requires
            new_vx.is_general(),
            new_vy.is_general(),
        ensures
            r.vx() == new_vx,
            r.vy() == new_vy,
    {
        OrData { vx: new_vx, vy: new_vy }
    }
}

impl CodeGen for OrData {
    /// `8XY1`
    open spec fn opcode(&self) -> u16 {
        nibbles(0x8, self.vx().id(), self.vy().id(), 0x1)
    }

    fn gen_opcode(&self) -> (r: u16) {
        proof {
            use_type_invariant(self);
        }
        place_xy(0x8001, self.vx.to_id(), self.vy.to_id())
    }
}

} // verus!
