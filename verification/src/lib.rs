//! An emulator of the 8-bit handheld console known as DMG: its CPU, its
//! memory bus, its timer, its pixel processing unit and its interrupt
//! controller, driven instruction by instruction on a shared clock of
//! m-cycles.
//!
//! Each device has a model of its state (`PpuModel`, `BusModel`, `Machine`)
//! and of its steps as functions from state to state. The executable code is
//! proved to do what the models say, and the laws of the machine are proved
//! of the models: see `laws`, `frame`, `picture`, `dma`,
//! `serial` and `sprites`.

pub mod alu;
pub mod clock;
pub mod cpu;
pub mod dma;
pub mod emulator;
pub mod execute;
pub mod frame;
pub mod interrupts;
pub mod isa;
pub mod laws;
pub mod memory;
pub mod picture;
pub mod ppu;
pub mod ppu_model;
pub mod render;
pub mod serial;
pub mod sprites;
pub mod timer;
