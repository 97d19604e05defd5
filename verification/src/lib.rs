//! Register-protocol core of a driver for Realtek fast/gigabit Ethernet
//! transceivers.
//!
//! The chips expose a small, page-switched register file. Everything the
//! driver decides lives here as pure state machines: a machine says which
//! register transaction it wants next, the caller performs it on the
//! management bus and hands the reply back. The crate itself never touches
//! a bus, so every decision is stated and proved for every reply a bus can
//! give, faults included.

pub mod eee;
pub mod machine;
pub mod matcher;
pub mod paged;
pub mod port;
pub mod probe;
pub mod regs;
pub mod speed;
