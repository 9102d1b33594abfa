//! The decision logic of a terminal Modbus client: its tab and popup state
//! machine, the text fields of its popups, the request log, the cell tables
//! and the queue of pending writes, the arithmetic that turns table positions
//! into Modbus requests, and what the link does with the device's answers. Everything that touches the terminal, the network, the serial
//! port or the clock is left to the program that drives this library.

pub mod enums;
pub mod input;
pub mod event;
pub mod queue;
pub mod clock;
pub mod app;
pub mod layout;
pub mod laws;
pub mod table;
pub mod link;
pub mod logtext;
