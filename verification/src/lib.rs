//! A two-pass assembler for the 8051 (MCS-51) instruction set.
//!
//! Source text is tokenized into [`line::Line`]s, parsed into
//! [`instruction::Instruction`]s, grouped into [`section::Section`]s at each
//! origin directive, label references are resolved against a symbol table,
//! and each instruction is encoded into its machine-code byte sequence.
//! The per-section byte images can then be serialized as a flat binary,
//! as Intel-HEX text, or in a simple object/module format.

pub mod errors;
pub mod instruction;
pub mod line;
pub mod section;
pub mod hex_table;
pub mod omf;
pub mod labels;
pub mod output;
pub mod text;
