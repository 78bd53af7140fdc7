//! The configuration values a user hands the driver, and its error type.
use vstd::prelude::*;

verus! {

/// Errors of the operations that can fail for a reason other than the bus.
#[derive(Debug, Copy, Clone)]
pub enum Error<E> {
    /// Underlying bus error
    BusError(E),
    /// Interrupt pin not found
    InterruptPinError,
}

impl<E> From<E> for Error<E> {
    fn from(error: E) -> (res: Self)
        ensures
            res == Error::BusError(error),
    {
        Error::BusError(error)
    }
}

impl<E> vstd::std_specs::convert::FromSpecImpl<E> for Error<E> {
    open spec fn obeys_from_spec() -> bool {
        true
    }

    open spec fn from_spec(v: E) -> Self {
        Error::BusError(v)
    }
}

/// Pin modes.
#[allow(non_camel_case_types)]
#[derive(Debug, Copy, Clone, PartialEq, Eq, Structural)]
pub enum PinMode {
    /// Represents output mode.
    OUTPUT,
    /// Represents input mode.
    INPUT,
}

impl PinMode {
    /// The bit that stands for this mode in an IODIR register.
    pub open spec fn spec_bit(self) -> bool {
        self == PinMode::INPUT
    }

    /// The byte that sets all eight pins of a port to this mode.
    pub open spec fn spec_register(self) -> u8 {
        if self == PinMode::INPUT {
            0xffu8
        } else {
            0x00u8
        }
    }

    /// Returns the binary value of the `PinMode`, as used in IODIR.
    pub fn bit_value(&self) -> (bit: bool)
        ensures
            bit == self.spec_bit(),
    {
        match *self {
            PinMode::INPUT => true,
            PinMode::OUTPUT => false,
        }
    }

    /// Returns a whole register full of the binary value of the `PinMode`.
    pub fn register_value(&self) -> (byte: u8)
        ensures
            byte == self.spec_register(),
    {
        match *self {
            PinMode::INPUT => 0xff,
            PinMode::OUTPUT => 0x00,
        }
    }
}

/// Interrupt modes.
#[allow(non_camel_case_types)]
#[derive(Debug, Copy, Clone, PartialEq, Eq, Structural)]
pub enum InterruptMode {
    /// Represents change mode.
    CHANGE,
    /// Represents falling mode.
    FALLING,
    /// Represents rising mode.
    RISING,
}

/// Polarity modes.
#[allow(non_camel_case_types)]
#[derive(Debug, Copy, Clone, PartialEq, Eq, Structural)]
pub enum Polarity {
    /// Represents active-low mode.
    LOW,
    /// Represents active-high mode.
    HIGH,
}

impl Polarity {
    /// The bit that stands for this polarity in an IOCON register.
    pub open spec fn spec_bit(self) -> bool {
        self == Polarity::HIGH
    }

    /// Returns the binary value of the Polarity, as used in IOCON.
    pub fn bit_value(&self) -> (bit: bool)
        ensures
            bit == self.spec_bit(),
    {
        match self {
            Polarity::LOW => false,
            Polarity::HIGH => true,
        }
    }
}

/// Generic port definitions.
#[derive(Debug, Copy, Clone, PartialEq, Eq, Structural)]
pub enum Port {
    /// Represent port A.
    GPIOA,
    /// Represent port B.
    GPIOB,
}

} // verus!
