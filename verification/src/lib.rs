//! An emulator for a minimal 8-bit processor: a file of eight byte registers,
//! two independent 64KB byte stores (program and data), four condition flags,
//! and a fetch-decode-execute core driving a small custom instruction set.
//!
//! The machine state is modelled mathematically (`ipc::MachineState`), one
//! execution step is a total spec function over that model (`ipc::step`), and
//! the executable core is proved to follow it exactly.

pub mod components;
pub mod ipc;
