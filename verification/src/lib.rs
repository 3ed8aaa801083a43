//! Core of a handheld-console emulator built around an LR35902 processor:
//! a register file, a memory bus with a boot-ROM overlay, a CPU interpreter,
//! and a scanline-based picture-processing unit.

pub mod cpu;
pub mod mem;
pub mod ppu;
pub mod registers;

pub use ppu::init_ppu;
pub use ppu::init_tile;
pub use ppu::Tile;
pub use ppu::PPU;

pub use cpu::init_cpu;
pub use cpu::ExecError;
pub use cpu::CPU;

pub use mem::init_mem;
pub use mem::Mem;
pub use mem::MemSnap;

pub use registers::init_16bit_register;
pub use registers::init_register;
pub use registers::Register;
pub use registers::Registers;
