//! An Intel-8080-class CPU emulator core: memory and register model,
//! instruction decoder, instruction executors with exact flag semantics,
//! the fetch-decode-execute step, and the real-time interrupt scheduler
//! logic, all carrying machine-checked contracts.
//!
//! Wall-clock pacing, ROM file loading and pixel rendering are left to the
//! host program; the core works on plain byte values handed in by it.

pub mod cpu;
pub mod diag;
pub mod disassembler;
pub mod emulate;
pub mod instructions;
pub mod machine;
pub mod memory;
pub mod ops;
pub mod space_invaders;
