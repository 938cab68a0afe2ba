//! Instruction encoding and binary image assembly for the CHIP-8 instruction set.
//!
//! Operand containers in [`data`] validate their operands at construction,
//! [`codegen::CodeGen`] turns each of them into its 16-bit opcode, and
//! [`codegen::Binary`] collects opcodes and raw bytes into a big-endian image.

pub mod codegen;
pub mod data;
pub mod error;
