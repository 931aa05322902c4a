//! Front end of an assembler for a small vector-register machine: a lexer
//! that turns source text into a stream of classified, length-tagged spans,
//! and an instruction representation that models every opcode together with
//! its bit-packed operand encodings.

pub mod instruction;
pub mod reader;
pub mod span;
