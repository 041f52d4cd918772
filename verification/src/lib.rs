//! A CHIP-8 disassembler: decodes 16-bit opcodes into typed instructions and
//! renders them as a mnemonic listing, one line per two-byte word.

pub mod instr;
pub mod listing;
pub mod text;
