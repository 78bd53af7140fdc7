//! The chip's register map and the SPI frames that read and write it.
use vstd::prelude::*;
use crate::modes::Port;

verus! {

/// Opcode of a register read (device address bits A2..A0 all set).
pub const SPI_READ: u8 = 0b01001111;

/// Opcode of a register write (device address bits A2..A0 all set).
pub const SPI_WRITE: u8 = 0b01001110;

/// The registers of the chip, in `IOCON.BANK=0` layout.
#[derive(Debug, Copy, Clone, PartialEq, Eq, Structural)]
pub enum Register {
    IODIRA,
    IPOLA,
    GPINTENA,
    DEFVALA,
    INTCONA,
    IOCONA,
    GPPUA,
    INTFA,
    INTCAPA,
    GPIOA,
    OLATA,
    IODIRB,
    IPOLB,
    GPINTENB,
    DEFVALB,
    INTCONB,
    IOCONB,
    GPPUB,
    INTFB,
    INTCAPB,
    GPIOB,
    OLATB,
}

impl Register {
    /// The register's address: the port A register of a pair sits at an even
    /// address and its port B twin right after it.
    pub open spec fn spec_address(self) -> u8 {
        match self {
            Register::IODIRA => 0x00,
            Register::IPOLA => 0x02,
            Register::GPINTENA => 0x04,
            Register::DEFVALA => 0x06,
            Register::INTCONA => 0x08,
            Register::IOCONA => 0x0A,
            Register::GPPUA => 0x0C,
            Register::INTFA => 0x0E,
            Register::INTCAPA => 0x10,
            Register::GPIOA => 0x12,
            Register::OLATA => 0x14,
            Register::IODIRB => 0x01,
            Register::IPOLB => 0x03,
            Register::GPINTENB => 0x05,
            Register::DEFVALB => 0x07,
            Register::INTCONB => 0x09,
            Register::IOCONB => 0x0B,
            Register::GPPUB => 0x0D,
            Register::INTFB => 0x0F,
            Register::INTCAPB => 0x11,
            Register::GPIOB => 0x13,
            Register::OLATB => 0x15,
        }
    }

    /// Returns the register's address on the chip.
    pub fn address(&self) -> (addr: u8)
        ensures
            addr == self.spec_address(),
    {
        match *self {
            Register::IODIRA => 0x00,
            Register::IPOLA => 0x02,
            Register::GPINTENA => 0x04,
            Register::DEFVALA => 0x06,
            Register::INTCONA => 0x08,
            Register::IOCONA => 0x0A,
            Register::GPPUA => 0x0C,
            Register::INTFA => 0x0E,
            Register::INTCAPA => 0x10,
            Register::GPIOA => 0x12,
            Register::OLATA => 0x14,
            Register::IODIRB => 0x01,
            Register::IPOLB => 0x03,
            Register::GPINTENB => 0x05,
            Register::DEFVALB => 0x07,
            Register::INTCONB => 0x09,
            Register::IOCONB => 0x0B,
            Register::GPPUB => 0x0D,
            Register::INTFB => 0x0F,
            Register::INTCAPB => 0x11,
            Register::GPIOB => 0x13,
            Register::OLATB => 0x15,
        }
    }
}

/// The register of the pair (`port_a_addr`, `port_b_addr`) that holds `pin`:
/// port A for pins 0-7, port B for the others.
pub open spec fn spec_register_for_pin(pin: u8, port_a_addr: Register, port_b_addr: Register) -> Register {
    if pin < 8 {
        port_a_addr
    } else {
        port_b_addr
    }
}

/// Returns the register address, port dependent, for a given pin.
pub fn register_for_pin(pin: u8, port_a_addr: Register, port_b_addr: Register) -> (reg: Register)
    ensures
        reg == spec_register_for_pin(pin, port_a_addr, port_b_addr),
{
    if pin < 8 {
        port_a_addr
    } else {
        port_b_addr
    }
}

/// The GPIO register of a port.
pub open spec fn spec_gpio_register(port: Port) -> Register {
    match port {
        Port::GPIOA => Register::GPIOA,
        Port::GPIOB => Register::GPIOB,
    }
}

/// Returns the GPIO register of a port.
pub fn gpio_register(port: Port) -> (reg: Register)
    ensures
        reg == spec_gpio_register(port),
{
    match port {
        Port::GPIOA => Register::GPIOA,
        Port::GPIOB => Register::GPIOB,
    }
}

/// The frame to exchange on the bus to read one register: opcode, address,
/// and a filler byte during which the chip shifts the register out.
pub fn read_frame(reg: Register) -> (frame: [u8; 3])
    ensures
        frame@ == seq![SPI_READ, reg.spec_address(), 0u8],
{
    let frame: [u8; 3] = [SPI_READ, reg.address(), 0];
    assert(frame@ =~= seq![SPI_READ, reg.spec_address(), 0u8]);
    frame
}

/// The frame to exchange on the bus to read a register and the one after it.
pub fn read_pair_frame(reg: Register) -> (frame: [u8; 4])
    ensures
        frame@ == seq![SPI_READ, reg.spec_address(), 0u8, 0u8],
{
    let frame: [u8; 4] = [SPI_READ, reg.address(), 0, 0];
    assert(frame@ =~= seq![SPI_READ, reg.spec_address(), 0u8, 0u8]);
    frame
}

/// The frame to send on the bus to write `byte` into one register.
pub fn write_frame(reg: Register, byte: u8) -> (frame: [u8; 3])
    ensures
        frame@ == seq![SPI_WRITE, reg.spec_address(), byte],
{
    let frame: [u8; 3] = [SPI_WRITE, reg.address(), byte];
    assert(frame@ =~= seq![SPI_WRITE, reg.spec_address(), byte]);
    frame
}

/// The frame to send on the bus to write `word` into a register and the one
/// after it, least significant byte first.
pub fn write_pair_frame(reg: Register, word: u16) -> (frame: [u8; 4])
    ensures
        frame@ == seq![SPI_WRITE, reg.spec_address(), (word % 256) as u8, (word / 256) as u8],
{
    let lo = word as u8;
    let hi = (word >> 8) as u8;
    assert(lo == word % 256 && hi == word / 256) by (bit_vector)
        requires
            lo == word as u8,
            hi == (word >> 8) as u8,
    ;
    let frame: [u8; 4] = [SPI_WRITE, reg.address(), lo, hi];
    assert(frame@ =~= seq![SPI_WRITE, reg.spec_address(), (word % 256) as u8, (word / 256) as u8]);
    frame
}

/// The value of a single register read, taken from the bytes the bus gave back
/// for a read frame: the chip shifts the register out after the opcode and
/// the address, so it is the third byte.
pub fn received_byte(received: &[u8]) -> (byte: u8)
    requires
        received@.len() >= 3,
    ensures
        byte == received@[2],
{
    received[2]
}

/// The two values of a register-pair read, taken from the bytes the bus gave
/// back for a pair read frame: the register and the one after it, shifted out
/// after the opcode and the address, are the third and fourth bytes.
pub fn received_pair(received: &[u8]) -> (pair: (u8, u8))
    requires
        received@.len() >= 4,
    ensures
        pair == (received@[2], received@[3]),
{
    (received[2], received[3])
}

} // verus!
