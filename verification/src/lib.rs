//! A small register-machine toolchain: a closed instruction set, a binary
//! object format with a bijective codec, a two-pass assembler, and a virtual
//! machine that interprets decoded instruction lists.
pub mod isa;
pub mod codec;
pub mod words;
pub mod utf8;
pub mod vm;
pub mod program;
pub mod assembler;
