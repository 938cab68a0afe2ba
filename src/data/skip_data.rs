use vstd::prelude::*;

use super::{Register, SKIPType};
use crate::codegen::{nibble_and_byte, nibbles, place_x_low, place_xy, CodeGen};

verus! {

/// Operands of the `SKIP` instruction, which skips the next instruction when
/// its condition holds.
pub struct SkipData {
    /// The left-hand side of the comparison, or the register naming the key
    vx: Register,
    /// The right-hand side of the comparison, if it is a register
    vy: Option<Register>,
    /// The right-hand side of the comparison, if it is a constant
    nn: Option<u8>,
    /// The condition
    skip_type: SKIPType,
}

impl SkipData {
    /// The operand shapes that a condition admits: a comparison has exactly
    /// one right-hand side, a register or a constant; a key test has none.
    /// No operand is the index register.
    pub open spec fn valid(vx: Register, vy: Option<Register>, nn: Option<u8>, skip_type: SKIPType) -> bool {
        &&& vx.is_general()
        &&& if skip_type.is_key() {
            vy is None && nn is None
        } else {
            match vy {
                Some(y) => y.is_general() && nn is None,
                None => nn is Some,
            }
        }
    }

    #[verifier::type_invariant]
    spec fn inv(self) -> bool {
        Self::valid(self.vx, self.vy, self.nn, self.skip_type)
    }

    /// The left-hand side, or the register naming the key.
    pub closed spec fn vx(self) -> Register {
        self.vx
    }

    /// The right-hand register, if any.
    pub closed spec fn vy(self) -> Option<Register> {
        self.vy
    }

    /// The right-hand constant, if any.
    pub closed spec fn nn(self) -> Option<u8> {
        self.nn
    }

    /// The condition.
    pub closed spec fn skip_type(self) -> SKIPType {
        self.skip_type
    }

    /// Constructs a comparison of two registers; the condition must be
    /// `Equals` or `NotEquals`, and neither register the index register.
    pub fn with_register(new_vx: Register, new_vy: Register, new_type: SKIPType) -> (r: SkipData)
        requires
            !new_type.is_key(),
            new_vx.is_general(),
            new_vy.is_general(),
        ensures
            r.vx() == new_vx,
            r.vy() == Some(new_vy),
            r.nn() == None::<u8>,
            r.skip_type() == new_type,
    {
        SkipData::new(new_vx, Some(new_vy), None, new_type)
    }

    /// Constructs a comparison of a register with a constant; the condition
    /// must be `Equals` or `NotEquals`, and the register not the index
    /// register.
    pub fn with_constant(new_vx: Register, new_nn: u8, new_type: SKIPType) -> (r: SkipData)
        requires
            !new_type.is_key(),
            new_vx.is_general(),
        ensures
            r.vx() == new_vx,
            r.vy() == None::<Register>,
            r.nn() == Some(new_nn),
            r.skip_type() == new_type,
    {
        SkipData::new(new_vx, None, Some(new_nn), new_type)
    }

    /// Constructs a key test on the key named by a register; the condition
    /// must be `KeyDown` or `KeyUp`, and the register not the index register.
    pub fn with_key(new_vx: Register, new_type: SKIPType) -> (r: SkipData)
        requires
            new_type.is_key(),
            new_vx.is_general(),
        ensures
            r.vx() == new_vx,
            r.vy() == None::<Register>,
            r.nn() == None::<u8>,
            r.skip_type() == new_type,
    {
        SkipData::new(new_vx, None, None, new_type)
    }

    fn new(new_vx: Register, new_vy: Option<Register>, new_nn: Option<u8>, new_type: SKIPType) -> (r: SkipData)
        requires
            Self::valid(new_vx, new_vy, new_nn, new_type),
        ensures
            r.vx() == new_vx,
            r.vy() == new_vy,
            r.nn() == new_nn,
            r.skip_type() == new_type,
    {
        SkipData { vx: new_vx, vy: new_vy, nn: new_nn, skip_type: new_type }
    }
}

impl CodeGen for SkipData {
    /// `5XY0` / `3XNN` for equality, `9XY0` / `4XNN` for inequality, `EX9E`
    /// for a pressed key and `EXA1` for a released one
    open spec fn opcode(&self) -> u16 {
        let x = self.vx().id();
        match self.skip_type() {
            SKIPType::Equals => match self.vy() {
                Some(y) => nibbles(0x5, x, y.id(), 0x0),
                None => nibble_and_byte(0x3, x, self.nn().unwrap() as nat),
            },
            SKIPType::NotEquals => match self.vy() {
                Some(y) => nibbles(0x9, x, y.id(), 0x0),
                None => nibble_and_byte(0x4, x, self.nn().unwrap() as nat),
            },
            SKIPType::KeyDown => nibble_and_byte(0xE, x, 0x9E),
            SKIPType::KeyUp => nibble_and_byte(0xE, x, 0xA1),
        }
    }

    fn gen_opcode(&self) -> (r: u16) {
        proof {
            use_type_invariant(self);
        }
        let x = self.vx.to_id();
        match self.skip_type {
            SKIPType::Equals => match self.vy {
                Some(y) => place_xy(0x5000, x, y.to_id()),
                None => match self.nn {
                    Some(n) => place_x_low(0x3000, x, n as u16),
                    None => unreached(),
                },
            },
            SKIPType::NotEquals => match self.vy {
                Some(y) => place_xy(0x9000, x, y.to_id()),
                None => match self.nn {
                    Some(n) => place_x_low(0x4000, x, n as u16),
                    None => unreached(),
                },
            },
            SKIPType::KeyDown => place_x_low(0xE000, x, 0x9E),
            SKIPType::KeyUp => place_x_low(0xE000, x, 0xA1),
        }
    }
}

} // verus!
