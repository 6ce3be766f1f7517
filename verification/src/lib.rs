//! Decoder for 8086 register-to-register `MOV` instructions.
//!
//! A 16-bit instruction word is split into fixed bit fields (operation,
//! direction, width, addressing mode and two register selectors), the
//! selectors are resolved through the canonical 8086 register tables, and
//! the instruction is rendered as one line of assembly text.

pub mod decoder;
pub mod registers;
pub mod stream;
