//! A CHIP-8 virtual machine: memory, register file, framebuffer, keypad and the
//! fetch-decode-execute engine, with the behaviour of every instruction stated over a
//! mathematical model of the machine and proved.

pub mod cpu;
pub mod display;
pub mod error;
pub mod font;
pub mod instruction;
pub mod keypad;
pub mod machine;
pub mod memory;
pub mod mnemonic;
pub mod snapshot;
