//! An emulator core for the Triangle Abstract Machine (TAM): the instruction
//! word codec, the memory and register model, the instruction executor with
//! its primitive routines, and the label resolver of the assembler.

pub mod errors;
pub mod instruction;
pub mod state;
pub mod machine;
pub mod bytecode;
pub mod codegen;
pub mod laws;
