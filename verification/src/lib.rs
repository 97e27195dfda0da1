//! A CHIP-8 virtual machine whose instruction semantics, state store,
//! framebuffer and timers are specified and proved with Verus.

pub mod clock;
pub mod display;
pub mod emulator;
pub mod error;
pub mod gpu;
pub mod instruction;
pub mod io;
pub mod laws;
pub mod machine;
pub mod memory;
pub mod platform;
pub mod sprite;

pub use crate::error::EmulatorError;
pub use crate::platform::Platform;
