//! A C code generation library: builders for types, statement blocks,
//! functions and whole compilation units, and their serialization to C
//! source text, with the exact text of every result specified and proved.
pub mod basic;
pub mod block;
pub mod ctype;
pub mod laws;
pub mod layout;
pub mod text;
pub mod unit;

pub use crate::block::Block;
pub use crate::ctype::CType;
pub use crate::unit::{CEnum, CFunction, CMacro, CModule, CStruct};
