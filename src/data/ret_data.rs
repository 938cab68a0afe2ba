use vstd::prelude::*;

use crate::codegen::CodeGen;

verus! {

/// The `RET` instruction, which returns from a subroutine, takes no operands.
pub struct RetData {}

impl RetData {
    /// Constructs the (empty) operands of a `RET`.
    pub fn new() -> (r: RetData) {
        RetData {  }
    }
}

impl CodeGen for RetData {
    /// `00EE`
    open spec fn opcode(&self) -> u16 {
        0x00EE
    }

    fn gen_opcode(&self) -> (r: u16) {
        0x00EE
    }
}

} // verus!
