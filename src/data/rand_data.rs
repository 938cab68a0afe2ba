use vstd::prelude::*;

use super::Register;
use crate::codegen::{nibble_and_byte, place_x_low, CodeGen};

verus! {

/// Operands of the `RAND` instruction, which stores a random byte ANDed with
/// a constant in a register.
pub struct RandData {
    /// The register that receives the random value
    vx: Register,
    /// The mask applied to the random byte
    nn: u8,
}

impl RandData {
    #[verifier::type_invariant]
    spec fn inv(self) -> bool {
        self.vx.is_general()
    }

    /// The register that receives the random value.
    pub closed spec fn vx(self) -> Register {
        self.vx
    }

    /// The mask applied to the random byte.
    pub closed spec fn nn(self) -> u8 {
        self.nn
    }

    /// Constructs the operands of a `RAND`; the register may not be the index
    /// register.
    pub fn new(new_vx: Register, new_nn: u8) -> (r: RandData)
        requires
            new_vx.is_general(),
        ensures
            r.vx() == new_vx,
            r.nn() == new_nn,
    {
        RandData { vx: new_vx, nn: new_nn }
    }
}

impl CodeGen for RandData {
    /// `CXNN`
    open spec fn opcode(&self) -> u16 {
        nibble_and_byte(0xC, self.vx().id(), self.nn() as nat)
    }

    fn gen_opcode(&self) -> (r: u16) {
        proof {
            use_type_invariant(self);
        }
        place_x_low(0xC000, self.vx.to_id(), self.nn as u16)
    }
}

} // verus!
