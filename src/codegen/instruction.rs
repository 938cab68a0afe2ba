use vstd::prelude::*;

use super::CodeGen;
use crate::data;

verus! {

/// A CHIP-8 instruction. An instruction that computes a value stores it in
/// its first operand.
pub enum Instruction {
    /// Clears the screen
    CLS,
    /// Returns from a subroutine
    RET,
    /// Jumps to an address, offset by `V0` or not
    JMP(data::JmpData),
    /// Calls a subroutine
    CALL(data::CallData),
    /// Skips the next instruction when a condition holds
    SKIP(data::SkipData),
    /// Assigns a register or a constant to a register, or an address to `I`
    MOV(data::MovData),
    /// Adds a register or a constant to a register, or a register to `I`;
    /// between two registers `VF` receives the carry
    ADD(data::AddData),
    /// Bitwise ORs two registers
    OR(data::OrData),
    /// Bitwise ANDs two registers
    AND(data::AndData),
    /// Bitwise XORs two registers
    XOR(data::XorData),
    /// Subtracts the second register from the first; `VF` is cleared on a
    /// borrow and set otherwise
    SUB(data::SubData),
    /// Shifts a register right by one bit, its lowest bit going to `VF`
    SHR(data::ShrData),
    /// Subtracts the first register from the second into the first; `VF`
    /// is cleared on a borrow and set otherwise
    SUBN(data::SubnData),
    /// Shifts a register left by one bit, its highest bit going to `VF`
    SHL(data::ShlData),
    /// Jumps to an address plus `V0`
    JPC(data::JpcData),
    /// Stores a random byte ANDed with a constant in a register
    RAND(data::RandData),
    /// Draws a sprite read from `I` at the coordinates held in two registers;
    /// `VF` is set when a pixel is switched off
    DRAW(data::DrawData),
    /// Reads the delay timer into a register
    GDL(data::GdlData),
    /// Waits for a key press and stores the key in a register
    KEY(data::KeyData),
    /// Sets the delay timer from a register
    SDL(data::SdlData),
    /// Sets the sound timer from a register
    SND(data::SndData),
    /// Points `I` at the font sprite of the hex digit in a register
    SCH(data::SchData),
    /// Stores the decimal digits of a register at `I`, hundreds first
    BCD(data::BcdData),
    /// Stores the registers from `V0` up to a given one into memory from `I`
    RDP(data::RdpData),
    /// Loads the registers from `V0` up to a given one from memory at `I`
    RLD(data::RldData),
}

impl CodeGen for Instruction {
    /// The opcode of the wrapped operands; `00E0` for `CLS` and `00EE` for
    /// `RET`
    open spec fn opcode(&self) -> u16 {
        match self {
            Instruction::CLS => 0x00E0,
            Instruction::RET => 0x00EE,
            Instruction::JMP(d) => d.opcode(),
            Instruction::CALL(d) => d.opcode(),
            Instruction::SKIP(d) => d.opcode(),
            Instruction::MOV(d) => d.opcode(),
            Instruction::ADD(d) => d.opcode(),
            Instruction::OR(d) => d.opcode(),
            Instruction::AND(d) => d.opcode(),
            Instruction::XOR(d) => d.opcode(),
            Instruction::SUB(d) => d.opcode(),
            Instruction::SHR(d) => d.opcode(),
            Instruction::SUBN(d) => d.opcode(),
            Instruction::SHL(d) => d.opcode(),
            Instruction::JPC(d) => d.opcode(),
            Instruction::RAND(d) => d.opcode(),
            Instruction::DRAW(d) => d.opcode(),
            Instruction::GDL(d) => d.opcode(),
            Instruction::KEY(d) => d.opcode(),
            Instruction::SDL(d) => d.opcode(),
            Instruction::SND(d) => d.opcode(),
            Instruction::SCH(d) => d.opcode(),
            Instruction::BCD(d) => d.opcode(),
            Instruction::RDP(d) => d.opcode(),
            Instruction::RLD(d) => d.opcode(),
        }
    }

    fn gen_opcode(&self) -> (r: u16) {
        match self {
            Instruction::CLS => 0x00E0,
            Instruction::RET => 0x00EE,
            Instruction::JMP(d) => d.gen_opcode(),
            Instruction::CALL(d) => d.gen_opcode(),
            Instruction::SKIP(d) => d.gen_opcode(),
            Instruction::MOV(d) => d.gen_opcode(),
            Instruction::ADD(d) => d.gen_opcode(),
            Instruction::OR(d) => d.gen_opcode(),
            Instruction::AND(d) => d.gen_opcode(),
            Instruction::XOR(d) => d.gen_opcode(),
            Instruction::SUB(d) => d.gen_opcode(),
            Instruction::SHR(d) => d.gen_opcode(),
            Instruction::SUBN(d) => d.gen_opcode(),
            Instruction::SHL(d) => d.gen_opcode(),
            Instruction::JPC(d) => d.gen_opcode(),
            Instruction::RAND(d) => d.gen_opcode(),
            Instruction::DRAW(d) => d.gen_opcode(),
            Instruction::GDL(d) => d.gen_opcode(),
            Instruction::KEY(d) => d.gen_opcode(),
            Instruction::SDL(d) => d.gen_opcode(),
            Instruction::SND(d) => d.gen_opcode(),
            Instruction::SCH(d) => d.gen_opcode(),
            Instruction::BCD(d) => d.gen_opcode(),
            Instruction::RDP(d) => d.gen_opcode(),
            Instruction::RLD(d) => d.gen_opcode(),
        }
    }
}

} // verus!
