//! Register-level model and pin drivers for the two GPIO banks of a
//! CH58x-class microcontroller.
//!
//! The crate has three layers. [`registers`] is an image of the register
//! file with the behaviour of the hardware and a journal of every write.
//! [`sequences`] holds the fixed sequences of single-bit writes that configure
//! a pin or its interrupt, and [`view`] says what the registers mean pin by
//! pin. On top of these stand the handles: [`flex::Flex`], which can change
//! mode, and [`input::Input`] and [`output::Output`], which cannot.
//!
//! Every operation of a handle is given the register image to work on.
//! Firmware refreshes the image from the device, runs the operation and
//! replays the journal on the device. The sequences that read a register and
//! write it back run inside a critical section, and the journal shows where
//! each one began and ended.

pub mod bits;
pub mod flex;
pub mod identity;
pub mod input;
pub mod laws;
pub mod level;
pub mod mode;
pub mod output;
pub mod peripherals;
pub mod pin;
pub mod registers;
pub mod sealed;
pub mod sequences;
pub mod trigger;
pub mod view;

pub use crate::flex::Flex;
pub use crate::input::Input;
pub use crate::level::Level;
pub use crate::mode::{Mode, OutputDrive, Pull};
pub use crate::output::Output;
pub use crate::peripherals::Peripherals;
pub use crate::pin::{AnyPin, Pin};
pub use crate::registers::{Access, Gpio, InterruptController, Register, RegisterBlock};
pub use crate::trigger::InterruptTrigger;
