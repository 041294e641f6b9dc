// Emulator core for the original 8-bit handheld: SM83 CPU, memory bus,
// PPU, timer and MBC1 cartridge, each with its state as plain values.
pub mod catridge;
pub mod cpu;
pub mod mmu;
pub mod ppu;
pub mod timer;
