//! Driver logic for the SSD1322 OLED display controller: the configuration commands that bring
//! the chip into a given state, their encoding into command and data bytes, and the interfaces
//! over which those bytes are sent.

pub mod command;
pub mod config;
pub mod interface;
pub mod testing;
