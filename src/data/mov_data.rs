use vstd::prelude::*;

use super::{lemma_masks, mask_addr, mask_byte, Register};
use crate::codegen::{nibble_and_addr, nibble_and_byte, nibbles, place_low12, place_x_low, place_xy, CodeGen};

verus! {

/// Operands of the `MOV` instruction: a register receives another register
/// or a constant, or the index register receives an address.
pub struct MovData {
    /// The destination register
    dest: Register,
    /// The source register
    src_reg: Option<Register>,
    /// The source constant
    src_cst: Option<u16>,
}

impl MovData {
    /// The operand shapes of a move: the index register receives a 12-bit
    /// constant; a general-purpose register receives either a general-purpose
    /// register or an 8-bit constant.
    pub open spec fn valid(dest: Register, src_reg: Option<Register>, src_cst: Option<u16>) -> bool {
        if dest is I {
            src_reg is None && src_cst is Some && src_cst.unwrap() < 0x1000
        } else {
            match src_reg {
                Some(s) => s.is_general() && src_cst is None,
                None => src_cst is Some && src_cst.unwrap() < 0x100,
            }
        }
    }

    #[verifier::type_invariant]
    spec fn inv(self) -> bool {
        Self::valid(self.dest, self.src_reg, self.src_cst)
    }

    /// The destination register.
    pub closed spec fn dest(self) -> Register {
        self.dest
    }

    /// The source register, if any.
    pub closed spec fn src_reg(self) -> Option<Register> {
        self.src_reg
    }

    /// The source constant, if any.
    pub closed spec fn src_cst(self) -> Option<u16> {
        self.src_cst
    }

    /// Constructs a register-to-register move; neither register may be the
    /// index register.
    pub fn with_register(new_dest: Register, new_src: Register) -> (r: MovData)
        requires
            new_dest.is_general(),
            new_src.is_general(),
        ensures
            r.dest() == new_dest,
            r.src_reg() == Some(new_src),
            r.src_cst() == None::<u16>,
    {
        MovData::new(new_dest, Some(new_src), None)
    }

    /// Constructs a move of a constant, keeping its low twelve bits when the
    /// destination is the index register and its low eight bits otherwise.
    pub fn with_constant(new_dest: Register, new_src: u16) -> (r: MovData)
        ensures
            r.dest() == new_dest,
            r.src_reg() == None::<Register>,
            r.src_cst() == Some(
                if new_dest is I {
                    mask_addr(new_src)
                } else {
                    mask_byte(new_src)
                },
            ),
    {
        proof {
            lemma_masks(new_src, 0);
        }
        let new_src = match new_dest {
            Register::I => new_src & 0x0FFF,
            _ => new_src & 0x00FF,
        };
        MovData::new(new_dest, None, Some(new_src))
    }

    fn new(new_dest: Register, new_src_reg: Option<Register>, new_src_cst: Option<u16>) -> (r: MovData)
        requires
            Self::valid(new_dest, new_src_reg, new_src_cst),
        ensures
            r.dest() == new_dest,
            r.src_reg() == new_src_reg,
            r.src_cst() == new_src_cst,
    {
        MovData { dest: new_dest, src_reg: new_src_reg, src_cst: new_src_cst }
    }

    /// Gets the source constant, if the source is one.
    pub fn get_src_cst(&self) -> (r: Option<u16>)
        ensures
            r == self.src_cst(),
    {
        self.src_cst
    }
}

impl CodeGen for MovData {
    /// `ANNN` into the index register, `8XY0` from a register, `6XNN` from a
    /// constant
    open spec fn opcode(&self) -> u16 {
        if self.dest() is I {
            nibble_and_addr(0xA, self.src_cst().unwrap() as nat)
        } else {
            match self.src_reg() {
                Some(s) => nibbles(0x8, self.dest().id(), s.id(), 0x0),
                None => nibble_and_byte(0x6, self.dest().id(), self.src_cst().unwrap() as nat),
            }
        }
    }

    fn gen_opcode(&self) -> (r: u16) {
        proof {
            use_type_invariant(self);
        }
        match self.dest {
            Register::I => match self.src_cst {
                Some(cst) => place_low12(0xA000, cst),
                None => unreached(),
            },
            _ => match self.src_reg {
                Some(reg) => place_xy(0x8000, self.dest.to_id(), reg.to_id()),
                None => match self.src_cst {
                    Some(cst) => place_x_low(0x6000, self.dest.to_id(), cst),
                    None => unreached(),
                },
            },
        }
    }
}

} // verus!
