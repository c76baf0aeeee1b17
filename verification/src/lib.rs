//! A Game Boy (DMG) core: the memory bus, the Sharp LR35902 processor with its
//! timer and interrupt logic, and the scanline state machine of the picture
//! unit. Every function carries a contract over a mathematical model of the
//! machine state.
pub mod alu;
pub mod bits;
pub mod cpu;
pub mod gpu;
pub mod mmu;
pub mod op_codes;
