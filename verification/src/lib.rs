//! The core of a Motorola 6809 assembler: a tokenizer for assembly source
//! lines, a recogniser that turns a line of tokens into an instruction or a
//! directive and records the labels that lines define, and a code generator
//! that turns instructions into machine-code bytes.
//!
//! `representation` holds the data model: instructions, operands and
//! directives, built so that an operand can only take the forms that its
//! instruction allows. `parser` splits a line into tokens, `recogniser`
//! recognises a line of tokens, `namelist` maps labels to addresses, and
//! `generation` encodes instructions. `text` holds the string helpers that
//! these share.
pub mod generation;
pub mod namelist;
pub mod parser;
pub mod recogniser;
pub mod representation;
pub mod text;
