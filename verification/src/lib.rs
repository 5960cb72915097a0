//! A CHIP-8 style virtual machine core: byte-addressable memory, sixteen
//! general-purpose registers, an address register, a call stack, two
//! countdown timers and a program counter, driven by a fetch-decode-execute
//! cycle whose per-opcode state transitions are fully specified and verified.
//!
//! Opcode decoding (turning two raw bytes into an [`Opcode`]) is an external
//! collaborator: the core consumes already-decoded instruction values and
//! exposes the decode-failure path ([`System::skip_data`]) separately.

pub mod laws;
pub mod opcodes;
pub mod state;
pub mod system;

pub use opcodes::Opcode;
pub use system::System;
