use vstd::prelude::*;

use super::{lemma_masks, mask_addr};
use crate::codegen::{nibble_and_addr, place_low12, CodeGen};

verus! {

/// Operand of the `JPC` instruction, which jumps to an address plus `V0`.
pub struct JpcData {
    /// The address to jump to after adding `V0`
    addr: u16,
}

impl JpcData {
    #[verifier::type_invariant]
    spec fn inv(self) -> bool {
        self.addr < 0x1000
    }

    /// The address to jump to after adding `V0`.
    pub closed spec fn addr(self) -> u16 {
        self.addr
    }

    /// Constructs the operand of a `JPC`, keeping the low twelve bits of the
    /// address.
    pub fn new(new_addr: u16) -> (r: JpcData)
        ensures
            r.addr() == mask_addr(new_addr),
    {
        proof {
            lemma_masks(new_addr, 0);
        }
        JpcData { addr: new_addr & 0x0FFF }
    }

    /// Gets the base address of the jump.
    pub fn get_addr(&self) -> (r: u16)
        ensures
            r == self.addr(),
    {
        self.addr
    }
}

impl CodeGen for JpcData {
    /// `BNNN`
    open spec fn opcode(&self) -> u16 {
        nibble_and_addr(0xB, self.addr() as nat)
    }

    fn gen_opcode(&self) -> (r: u16) {
        proof {
            use_type_invariant(self);
        }
        place_low12(0xB000, self.addr)
    }
}

} // verus!
