//! A CHIP-8 processor: the machine state, the fetch-decode-execute cycle and
//! the instruction table, each instruction with its exact effect on the
//! machine.
//!
//! [`processor::Processor`] is the machine; its view is a
//! [`state::MachineState`], a value made of sequences, and every contract is
//! stated over that value. [`opcodes`] holds one type for each instruction,
//! [`processor::executes`] the table that selects among them, and [`laws`]
//! what follows from the table for every machine.

pub mod laws;
pub mod memory;
pub mod opcodes;
pub mod processor;
pub mod screen;
pub mod state;
mod trusted;
