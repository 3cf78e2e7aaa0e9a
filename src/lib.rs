//! An interpreter for a 6502-family processor and the address space it
//! drives in a home console: 2KB of RAM, the picture unit's registers and
//! cartridge program memory. Every instruction, official or undocumented,
//! is proved to follow a one-step model of the machine (`CpuView::step`).

pub mod bus;
pub mod cartridge;
pub mod cpu;
pub mod lemmas;
pub mod log;
pub mod opcodes;
pub mod ppu;
