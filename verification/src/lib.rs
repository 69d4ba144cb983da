//! A line-oriented postfix calculator.
//!
//! Each input line is split on whitespace into tokens, each token is parsed
//! into an opcode or silently dropped, and the opcodes of the line are then
//! applied in order to a single numeric stack that persists across lines.
//! Stack values are IEEE 754 binary64 numbers, carried throughout as their
//! 64-bit patterns; the arithmetic itself is done by a software
//! implementation of IEEE 754 behind a small trusted layer.

pub mod driver;
pub mod laws;
pub mod machine;
pub mod numeric;
pub mod opcode;
pub mod parse;
