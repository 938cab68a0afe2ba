use vstd::prelude::*;

use crate::codegen::CodeGen;

verus! {

/// The `CLS` instruction, which clears the screen, takes no operands.
pub struct ClsData {}

impl ClsData {
    /// Constructs the (empty) operands of a `CLS`.
    pub fn new() -> (r: ClsData) {
        ClsData {  }
    }
}

impl CodeGen for ClsData {
    /// `00E0`
    open spec fn opcode(&self) -> u16 {
        0x00E0
    }

    fn gen_opcode(&self) -> (r: u16) {
        0x00E0
    }
}

} // verus!
