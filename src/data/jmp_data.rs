use vstd::prelude::*;

use super::{lemma_masks, mask_addr};
use crate::codegen::{nibble_and_addr, place_low12, CodeGen};

verus! {

/// Operands of the `JMP` instruction: an address, and whether `V0` is added
/// to it.
pub struct JmpData {
    /// The address to jump to
    addr: u16,
    /// Whether the jump is offset by `V0`
    is_offset: bool,
}

impl JmpData {
    #[verifier::type_invariant]
    spec fn inv(self) -> bool {
        self.addr < 0x1000
    }

    /// The address to jump to.
    pub closed spec fn addr(self) -> u16 {
        self.addr
    }

    /// Whether the jump is offset by `V0`.
    pub closed spec fn is_offset(self) -> bool {
        self.is_offset
    }

    /// Constructs the operands of a `JMP`, keeping the low twelve bits of the
    /// address.
    pub fn new(new_addr: u16, new_is_offset: bool) -> (r: JmpData)
        ensures
            r.addr() == mask_addr(new_addr),
            r.is_offset() == new_is_offset,
    {
        proof {
            lemma_masks(new_addr, 0);
        }
        JmpData { addr: new_addr & 0x0FFF, is_offset: new_is_offset }
    }

    /// Gets the address to jump to.
    pub fn get_addr(&self) -> (r: u16)
        ensures
            r == self.addr(),
    {
        self.addr
    }
}

impl CodeGen for JmpData {
    /// `BNNN` for an offset jump, `1NNN` otherwise
    open spec fn opcode(&self) -> u16 {
        if self.is_offset() {
            nibble_and_addr(0xB, self.addr() as nat)
        } else {
            nibble_and_addr(0x1, self.addr() as nat)
        }
    }

    fn gen_opcode(&self) -> (r: u16) {
        proof {
            use_type_invariant(self);
        }
        if self.is_offset {
            place_low12(0xB000, self.addr)
        } else {
            place_low12(0x1000, self.addr)
        }
    }
}

} // verus!
