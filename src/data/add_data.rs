use vstd::prelude::*;

use super::{lemma_masks, mask_byte, Register};
use crate::codegen::{nibble_and_byte, nibbles, place_x_low, place_xy, CodeGen};

verus! {

/// Operands of the `ADD` instruction: a register receives its sum with
/// another register or a constant, or the index register receives its sum
/// with a register.
pub struct AddData {
    /// The first addend (also the destination register)
    first: Register,
    /// The second addend, if it is a register
    second_reg: Option<Register>,
    /// The second addend, if it is a constant
    second_cst: Option<u16>,
}

impl AddData {
    /// The operand shapes of an addition: the index register takes a
    /// general-purpose register; a general-purpose register takes either a
    /// general-purpose register or an 8-bit constant.
    pub open spec fn valid(first: Register, second_reg: Option<Register>, second_cst: Option<u16>) -> bool {
        match second_reg {
            Some(s) => s.is_general() && second_cst is None,
            None => first.is_general() && second_cst is Some && second_cst.unwrap() < 0x100,
        }
    }

    #[verifier::type_invariant]
    spec fn inv(self) -> bool {
        Self::valid(self.first, self.second_reg, self.second_cst)
    }

    /// The first addend, which receives the sum.
    pub closed spec fn first(self) -> Register {
        self.first
    }

    /// The second addend, if it is a register.
    pub closed spec fn second_reg(self) -> Option<Register> {
        self.second_reg
    }

    /// The second addend, if it is a constant.
    pub closed spec fn second_cst(self) -> Option<u16> {
        self.second_cst
    }

    /// Constructs the addition of a register to a register, which may be the
    /// index register; the register added may not be.
    pub fn with_register(new_first: Register, new_second: Register) -> (r: AddData)
        requires
            new_second.is_general(),
        ensures
            r.first() == new_first,
            r.second_reg() == Some(new_second),
            r.second_cst() == None::<u16>,
    {
        AddData::new(new_first, Some(new_second), None)
    }

    /// Constructs the addition of a constant to a register, keeping the low
    /// eight bits of the constant; the register may not be the index
    /// register.
    pub fn with_constant(new_first: Register, new_second: u16) -> (r: AddData)
        requires
            new_first.is_general(),
        ensures
            r.first() == new_first,
            r.second_reg() == None::<Register>,
            r.second_cst() == Some(mask_byte(new_second)),
    {
        proof {
            lemma_masks(new_second, 0);
        }
        let new_second = new_second & 0x00FF;
        AddData::new(new_first, None, Some(new_second))
    }

    fn new(new_first: Register, new_second_reg: Option<Register>, new_second_cst: Option<u16>) -> (r: AddData)
        requires
            Self::valid(new_first, new_second_reg, new_second_cst),
        ensures
            r.first() == new_first,
            r.second_reg() == new_second_reg,
            r.second_cst() == new_second_cst,
    {
        AddData { first: new_first, second_reg: new_second_reg, second_cst: new_second_cst }
    }

    /// Gets the second addend, if it is a constant.
    pub fn get_second_cst(&self) -> (r: Option<u16>)
        ensures
            r == self.second_cst(),
    {
        self.second_cst
    }
}

impl CodeGen for AddData {
    /// `FX1E` into the index register, `8XY4` from a register, `7XNN` from a
    /// constant
    open spec fn opcode(&self) -> u16 {
        match self.second_reg() {
            Some(s) => if self.first() is I {
                nibble_and_byte(0xF, s.id(), 0x1E)
            } else {
                nibbles(0x8, self.first().id(), s.id(), 0x4)
            },
            None => nibble_and_byte(0x7, self.first().id(), self.second_cst().unwrap() as nat),
        }
    }

    fn gen_opcode(&self) -> (r: u16) {
        proof {
            use_type_invariant(self);
        }
        match self.first {
            Register::I => match self.second_reg {
                Some(reg) => place_x_low(0xF000, reg.to_id(), 0x1E),
                None => unreached(),
            },
            _ => match self.second_reg {
                Some(reg) => place_xy(0x8004, self.first.to_id(), reg.to_id()),
                None => match self.second_cst {
                    Some(cst) => place_x_low(0x7000, self.first.to_id(), cst),
                    None => unreached(),
                },
            },
        }
    }
}

} // verus!
