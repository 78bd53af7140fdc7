//! Driver logic for the MCP23S17, a 16-bit SPI I/O expander.
//!
//! The chip is operated in `IOCON.BANK=0` mode, where the registers of port A
//! and port B are interleaved at consecutive addresses. The library decides
//! which register accesses an operation needs, what bytes go on the SPI bus
//! for each access, and what the operation answers; the bus itself is driven
//! by the caller, one [`session::Action`] at a time.
pub mod bits;
pub mod laws;
pub mod modes;
pub mod registers;
pub mod session;

pub use bits::{bit_for_pin, read_bit, write_bit};
pub use modes::{Error, InterruptMode, PinMode, Polarity, Port};
pub use registers::{register_for_pin, Register};
pub use session::{Action, Outcome, Reply, Request, Session};
