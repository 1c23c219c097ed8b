//! A CHIP-8 virtual machine core: an instruction decoder, an execution
//! engine that applies one decoded instruction to a machine state, and a
//! display compositor that XOR-blits sprites onto a wrapping 64x32 screen.
//!
//! The crate holds no I/O: a driver owns the program bytes, feeds the
//! engine one step at a time, and presents the framebuffer as it sees fit.

pub mod display;
pub mod engine;
pub mod laws;
pub mod machine;
pub mod opcode;
