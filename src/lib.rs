//! A 32-bit register machine: its instruction set, an encoder from instructions to their
//! canonical bytes, a decoder back, and an execution engine that runs the bytes one
//! fetch-decode-execute step at a time.
use vstd::prelude::*;

pub mod assembler;
pub mod bytes;
pub mod decode;
pub mod emulator;
pub mod encode;
pub mod isa;
pub mod types;

verus! {

} // verus!
