use vstd::prelude::*;

pub mod cpu;
pub mod decoding;
pub mod error;
pub mod memory;
pub mod ppu;
pub mod semantics;
pub mod gameboy;
pub mod input;
pub mod debugger;
pub mod text;
pub mod command;
pub mod emulator;
pub mod instructions;

verus! {

} // verus!
