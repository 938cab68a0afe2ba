use vstd::prelude::*;

verus! {

/// A CHIP-8 register: one of the sixteen general-purpose registers, or the
/// index register `I`.
#[derive(Clone, Copy, Debug, PartialEq, Eq, Structural)]
pub enum Register {
    V0,
    V1,
    V2,
    V3,
    V4,
    V5,
    V6,
    V7,
    V8,
    V9,
    VA,
    VB,
    VC,
    VD,
    VE,
    VF,
    /// The index register
    I,
}

impl Register {
    /// The numeric ID of the register: its nibble for `V0` to `VF`, and
    /// `0x10` for the index register.
    pub open spec fn id(self) -> nat {
        match self {
            Register::V0 => 0x0,
            Register::V1 => 0x1,
            Register::V2 => 0x2,
            Register::V3 => 0x3,
            Register::V4 => 0x4,
            Register::V5 => 0x5,
            Register::V6 => 0x6,
            Register::V7 => 0x7,
            Register::V8 => 0x8,
            Register::V9 => 0x9,
            Register::VA => 0xA,
            Register::VB => 0xB,
            Register::VC => 0xC,
            Register::VD => 0xD,
            Register::VE => 0xE,
            Register::VF => 0xF,
            Register::I => 0x10,
        }
    }

    /// Whether this is one of the sixteen general-purpose registers.
    pub open spec fn is_general(self) -> bool {
        !(self is I)
    }

    /// Converts the register to its numeric ID.
    pub fn to_id(&self) -> (r: u8)
        ensures
            r as nat == self.id(),
    {
        match *self {
            Register::I => 0x10,
            Register::V0 => 0x0,
            Register::V1 => 0x1,
            Register::V2 => 0x2,
            Register::V3 => 0x3,
            Register::V4 => 0x4,
            Register::V5 => 0x5,
            Register::V6 => 0x6,
            Register::V7 => 0x7,
            Register::V8 => 0x8,
            Register::V9 => 0x9,
            Register::VA => 0xA,
            Register::VB => 0xB,
            Register::VC => 0xC,
            Register::VD => 0xD,
            Register::VE => 0xE,
            Register::VF => 0xF,
        }
    }
}

} // verus!
