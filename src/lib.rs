//! A RISC-V (RV64IM) emulator core: sparse paged memory with an optional
//! nested page-table translator, the instruction semantics shared by the
//! interpreter and the block compiler, and the text templates that lower
//! guest code into host script.

pub mod mem;
pub mod decode;
pub mod cpu;
pub mod hint;
pub mod jit;
pub mod reactor;
pub mod text;
pub mod flate;
pub mod template;
pub mod riscv;
pub mod loader;
