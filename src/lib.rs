//! Core of a CAN(-FD) bus monitor: frame model, text rendering of frames,
//! the console's line editor and command interpreter, the bounded queues
//! between the console and the bus, and the bus side's decisions.
pub mod frame;
pub mod format;
pub mod queue;
pub mod line;
pub mod command;
pub mod console;
pub mod bus;
