//! Low-level command encoder for the ST7735 display controller.
//!
//! The controller sits behind a serial bus with one extra control line, `DCX`,
//! which tells it whether the byte on the bus is a command or a parameter.
//! A hardware integrator implements the capability traits of [`spi`]; wrapping
//! the transport in [`Commands`] then gives the controller's commands with
//! typed parameters.
//!
//! Every transport carries a mathematical model of its bus, [`spi::Bus`], and
//! every function here states what it does to that model: which bytes reach
//! the wire, in which order, framed as command or data.
//!
//! [`Commands`] sends a command and returns when it is out. For callers that
//! bring their own driver, [`command_writing`] has the same commands as
//! operations that are advanced by polling and never wait.

pub mod adapters;
pub mod command_structs;
pub mod command_writing;
pub mod commands;
pub mod driver;
pub mod spi;
pub mod testing_device;

pub use adapters::{AdapterU8, AdapterU8s};
pub use command_structs::{
    Colmod, ColorComponentOrder, ColumnOrder, Madctl, RowColumnSwap, RowOrder,
};
pub use commands::{Commands, RamWriter};
