//! Core of a cycle-accurate emulator for an 8-bit handheld console built
//! around a Sharp LR35902-class CPU: instruction interpreter, memory bus with
//! cartridge banking, pixel processing unit, audio unit, timer and joypad.
//!
//! The machine state is an owned aggregate; every step function takes it
//! explicitly. Host concerns (window, audio device, files) live outside this
//! crate: it consumes cartridge bytes and key events, and produces framebuffer
//! pixels and audio samples as plain values.

pub mod apu;
pub mod config;
pub mod cpu;
pub mod decoder;
pub mod framebuffer;
pub mod gameboy;
pub mod instruction;
pub mod joypad;
pub mod mmu;
pub mod noise_channel;
pub mod ppu;
pub mod registers;
pub mod square_channel_1;
pub mod square_channel_2;
pub mod timer;
pub mod wave_channel;
