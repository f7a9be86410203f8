//! A cycle-faithful emulator core for the 6502-family CPU of the NES,
//! together with the memory bus that routes every CPU access to the
//! correct backing device (cartridge mapper or internal work RAM).
//!
//! Every bus access an instruction performs — including the "dummy" reads
//! real hardware issues — is recorded in an observable trace, and each
//! instruction's exact micro-sequence of accesses, register mutations and
//! flag updates is specified by a spec-level interpreter (`cpu::step_spec`)
//! that the executable code is proved to implement.

pub mod flags;
pub mod bus;
pub mod cpu;
pub mod mapper;
pub mod rom;
