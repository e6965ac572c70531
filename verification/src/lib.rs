//! Register access for an emulated CPU.
//!
//! Two capabilities sit on top of any engine that reads and writes its
//! registers by index: [`registers::Registers`], for every register and for
//! the program counter, and [`registers::StackRegister`], for the stack
//! pointer and its overflow-checked adjustment. A
//! [`registers::RegisterInfo`] tells them which indices the program counter
//! and the stack pointer have on the architecture at hand.
//!
//! Every contract is stated over [`registers::RegisterFile`], the
//! mathematical picture of an engine's registers. [`engine::Engine`] is what
//! an engine has to offer, [`bank::RegisterBank`] is an engine kept in
//! memory, and [`laws`] holds what follows for sequences of calls.

pub mod bank;
pub mod engine;
pub mod error;
pub mod laws;
pub mod registers;
