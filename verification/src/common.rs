//! What assembler and processor share.

pub mod bytes;
pub mod hex;
pub mod instruction;
pub mod text;
