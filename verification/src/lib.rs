pub mod apu;
pub mod bits;
pub mod cartridge;
pub mod cpu;
pub mod dump;
pub mod jimbot;
pub mod mmu;
pub mod ppu;
pub mod saver;
pub mod screen;
pub mod storage;
pub mod text;
pub mod timer;
pub mod wram;
