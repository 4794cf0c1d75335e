//! A verified core for an 8-bit home-console emulator: a MOS 6502 CPU
//! interpreter, a scanline-driven picture processing unit, an audio frame
//! sequencer, and the memory-mapped bus that ties them to a cartridge image.
//!
//! The host layer (window, keyboard, frame pacing) lives outside this crate;
//! everything here is plain computation on bytes and is verified.

pub mod apu;
pub mod cassette;
pub mod cpu;
pub mod interrupts;
pub mod nes;
pub mod optable;
pub mod ppu;
pub mod ram;
pub mod render;

pub use ram::Ram;
