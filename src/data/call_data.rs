use vstd::prelude::*;

use super::{lemma_masks, mask_addr};
use crate::codegen::{nibble_and_addr, place_low12, CodeGen};

verus! {

/// Operand of the `CALL` instruction: the address of a subroutine.
pub struct CallData {
    /// The address of the subroutine to call
    addr: u16,
}

impl CallData {
    #[verifier::type_invariant]
    spec fn inv(self) -> bool {
        self.addr < 0x1000
    }

    /// The address of the subroutine to call.
    pub closed spec fn addr(self) -> u16 {
        self.addr
    }

    /// Constructs the operand of a `CALL`, keeping the low twelve bits of
    /// the address.
    pub fn new(new_addr: u16) -> (r: CallData)
        ensures
            r.addr() == mask_addr(new_addr),
    {
        proof {
            lemma_masks(new_addr, 0);
        }
        CallData { addr: new_addr & 0x0FFF }
    }

    /// Gets the address of the subroutine.
    pub fn get_addr(&self) -> (r: u16)
        ensures
            r == self.addr(),
    {
        self.addr
    }
}

impl CodeGen for CallData {
    /// `2NNN`
    open spec fn opcode(&self) -> u16 {
        nibble_and_addr(0x2, self.addr() as nat)
    }

    fn gen_opcode(&self) -> (r: u16) {
        proof {
            use_type_invariant(self);
        }
        place_low12(0x2000, self.addr)
    }
}

} // verus!
