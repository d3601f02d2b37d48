//! Emulation core for the Sharp SM83 processor of an 8-bit handheld console:
//! an instruction decoder, a flag-accurate execution engine, a memory bus that
//! multiplexes a 64 KiB address space across cartridge, video RAM, I/O
//! registers and general RAM, a bank-switched cartridge mapper, and the
//! bookkeeping surface of the video controller.

pub mod cartridge;
pub mod cpu;
pub mod gpu;
pub mod instruction;
pub mod mapper;
pub mod memory_bus;
pub mod registers;
