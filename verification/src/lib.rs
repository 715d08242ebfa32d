//! The Brillig intermediate representation: its register and address model,
//! its instruction set, and the disassembler that renders instruction streams
//! as human-readable text.

pub mod debug_show;
pub mod lemmas;
pub mod opcodes;
pub mod registers;
pub mod test_report;
pub mod text;
pub mod trace;
