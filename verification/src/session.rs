//! What each driver operation asks of the bus, one register access at a time.
//!
//! An operation is a [`Request`]. A [`Session`] runs it: it hands out the next
//! [`Action`] (a register access, or the operation's [`Outcome`]), and takes
//! back the [`Reply`] the bus gave for that access. The caller performs the
//! accesses; everything the operation decides lives here.
use vstd::prelude::*;
use crate::bits::{bit_of, with_bit, write_bit, read_bit, bit_for_pin, lemma_zero_has_no_bits};
use crate::modes::{PinMode, InterruptMode, Polarity, Port};
use crate::registers::{Register, spec_register_for_pin, register_for_pin, spec_gpio_register, gpio_register};

verus! {

/// An operation of the driver.
#[derive(Debug, Copy, Clone, PartialEq, Eq, Structural)]
pub enum Request {
    /// Sets both ports to inputs.
    InitHardware,
    /// Sets the mode of a single pin.
    PinMode { pin: u8, mode: PinMode },
    /// Sets the mode of all sixteen pins.
    AllPinMode { mode: PinMode },
    /// Reads both ports at once.
    ReadGpioab,
    /// Reads one port.
    ReadGpio { port: Port },
    /// Writes both ports at once.
    WriteGpioab { value: u16 },
    /// Writes one port.
    WriteGpio { port: Port, value: u8 },
    /// Writes a single pin, starting from the output latch of its port.
    DigitalWrite { pin: u8, value: bool },
    /// Reads a single pin.
    DigitalRead { pin: u8 },
    /// Enables or disables the pull-up resistor of a single pin.
    PullUp { pin: u8, value: bool },
    /// Inverts, or not, the input polarity of a single pin.
    InvertInputPolarity { pin: u8, value: bool },
    /// Configures the interrupt outputs, the same for both ports.
    SetupInterrupts { mirroring: bool, open_drain: bool, polarity: Polarity },
    /// Enables the interrupt of a single pin in the given mode.
    SetupInterruptPin { pin: u8, mode: InterruptMode },
    /// Finds the pin that raised the last interrupt.
    GetLastInterruptPin,
    /// Finds the level captured on the pin that raised the last interrupt.
    GetLastInterruptValue,
}

/// What an operation finally answers.
#[derive(Debug, Copy, Clone, PartialEq, Eq, Structural)]
pub enum Outcome {
    /// The operation has nothing to answer.
    Done,
    /// A register value (a port, or a captured bit as 0 or 1).
    Byte(u8),
    /// Both ports, port A in the high byte.
    Word(u16),
    /// The level of a pin.
    Level(bool),
    /// The pin that raised the last interrupt.
    Pin(u8),
    /// No pin is flagged as having raised an interrupt.
    NoInterruptPin,
    /// A bus access failed; the operation stopped there.
    BusFailure,
}

/// The next thing an operation needs.
#[derive(Debug, Copy, Clone, PartialEq, Eq, Structural)]
pub enum Action {
    /// Read one register; answer with [`Reply::Value`].
    Read(Register),
    /// Read a register and the one after it; answer with [`Reply::Pair`].
    ReadPair(Register),
    /// Write one register; answer with [`Reply::Written`].
    Write(Register, u8),
    /// Write a register and the one after it; answer with [`Reply::Written`].
    WritePair(Register, u16),
    /// The operation is over.
    Finish(Outcome),
}

/// What the bus gave back for an access.
#[derive(Debug, Copy, Clone, PartialEq, Eq, Structural)]
pub enum Reply {
    /// The value read from one register.
    Value(u8),
    /// The two values read from a register pair, in the order received.
    Pair(u8, u8),
    /// The write went through.
    Written,
    /// The access failed on the bus.
    Failed,
}

/// Whether `reply` is the kind of answer `action` asks for.
pub open spec fn answers(action: Action, reply: Reply) -> bool {
    reply is Failed && !(action is Finish) || match action {
        Action::Read(_) => reply is Value,
        Action::ReadPair(_) => reply is Pair,
        Action::Write(_, _) => reply is Written,
        Action::WritePair(_, _) => reply is Written,
        Action::Finish(_) => false,
    }
}

/// The byte a single-register reply carries.
pub open spec fn byte_of(reply: Reply) -> u8 {
    match reply {
        Reply::Value(v) => v,
        _ => 0,
    }
}

/// The bytes a register-pair reply carries.
pub open spec fn pair_of(reply: Reply) -> (u8, u8) {
    match reply {
        Reply::Pair(first, second) => (first, second),
        _ => (0, 0),
    }
}

/// The index of the lowest set bit of `v` at or above `from`, or 8 if there is none.
pub open spec fn first_set_bit(v: u8, from: nat) -> nat
    decreases 8 - from,
{
    if from >= 8 {
        8
    } else if bit_of(v, from as u8) {
        from
    } else {
        first_set_bit(v, from + 1)
    }
}

/// The read-modify-write of the bit of `pin` in the register pair (`a`, `b`),
/// whose read reply is at position `at` of `rs`.
pub open spec fn pin_update(pin: u8, value: bool, a: Register, b: Register, rs: Seq<Reply>, at: int) -> Action {
    let reg = spec_register_for_pin(pin, a, b);
    if rs.len() <= at {
        Action::Read(reg)
    } else {
        Action::Write(reg, with_bit(byte_of(rs[at]), pin % 8, value))
    }
}

/// An IOCON value with the mirroring (bit 6), open-drain (bit 2) and
/// polarity (bit 1) settings applied.
pub open spec fn interrupt_config(v: u8, mirroring: bool, open_drain: bool, polarity: Polarity) -> u8 {
    with_bit(with_bit(with_bit(v, 6, mirroring), 2, open_drain), 1, polarity.spec_bit())
}

/// The search for the pin that raised the last interrupt: port A's flags
/// first, then port B's.
pub open spec fn interrupt_search(rs: Seq<Reply>) -> Action {
    if rs.len() == 0 {
        Action::Read(Register::INTFA)
    } else if byte_of(rs[0]) != 0 {
        Action::Finish(Outcome::Pin(first_set_bit(byte_of(rs[0]), 0) as u8))
    } else if rs.len() == 1 {
        Action::Read(Register::INTFB)
    } else if byte_of(rs[1]) != 0 {
        Action::Finish(Outcome::Pin((first_set_bit(byte_of(rs[1]), 0) + 8) as u8))
    } else {
        Action::Finish(Outcome::NoInterruptPin)
    }
}

/// How many replies the interrupt search takes, once done.
pub open spec fn search_length(rs: Seq<Reply>) -> int {
    if rs.len() >= 1 && byte_of(rs[0]) != 0 {
        1
    } else {
        2
    }
}

/// The search for the last interrupt pin, then the read of the level
/// captured on it.
pub open spec fn interrupt_value(rs: Seq<Reply>) -> Action {
    let n = search_length(rs);
    if rs.len() < n {
        interrupt_search(rs)
    } else {
        match interrupt_search(rs.take(n)) {
            Action::Finish(Outcome::Pin(p)) => {
                if rs.len() == n {
                    Action::Read(spec_register_for_pin(p, Register::INTCAPA, Register::INTCAPB))
                } else {
                    Action::Finish(
                        Outcome::Byte(
                            if bit_of(byte_of(rs[n]), p % 8) {
                                1u8
                            } else {
                                0u8
                            },
                        ),
                    )
                }
            },
            other => other,
        }
    }
}

/// The action that follows a sequence of accesses with two steps and no answer.
pub open spec fn two_writes(rs: Seq<Reply>, first: Action, second: Action) -> Action {
    if rs.len() == 0 {
        first
    } else if rs.len() == 1 {
        second
    } else {
        Action::Finish(Outcome::Done)
    }
}

/// The next action of the operation `req`: it stops with a bus failure as
/// soon as an access fails, and otherwise goes on as `planned_access` says.
pub open spec fn planned(req: Request, rs: Seq<Reply>) -> Action {
    if rs.len() > 0 && rs.last() is Failed {
        Action::Finish(Outcome::BusFailure)
    } else {
        planned_access(req, rs)
    }
}

/// The next action of the operation `req`, once the bus has carried out the
/// accesses that gave the replies `rs`.
pub open spec fn planned_access(req: Request, rs: Seq<Reply>) -> Action {
    match req {
        Request::InitHardware => two_writes(
            rs,
            Action::Write(Register::IODIRA, 0xff),
            Action::Write(Register::IODIRB, 0xff),
        ),
        Request::PinMode { pin, mode } => if rs.len() < 2 {
            pin_update(pin, mode.spec_bit(), Register::IODIRA, Register::IODIRB, rs, 0)
        } else {
            Action::Finish(Outcome::Done)
        },
        Request::AllPinMode { mode } => two_writes(
            rs,
            Action::Write(Register::IODIRA, mode.spec_register()),
            Action::Write(Register::IODIRB, mode.spec_register()),
        ),
        Request::ReadGpioab => if rs.len() == 0 {
            Action::ReadPair(Register::GPIOA)
        } else {
            Action::Finish(Outcome::Word((pair_of(rs[0]).0 * 256 + pair_of(rs[0]).1) as u16))
        },
        Request::ReadGpio { port } => if rs.len() == 0 {
            Action::Read(spec_gpio_register(port))
        } else {
            Action::Finish(Outcome::Byte(byte_of(rs[0])))
        },
        Request::WriteGpioab { value } => if rs.len() == 0 {
            Action::WritePair(Register::GPIOA, value)
        } else {
            Action::Finish(Outcome::Done)
        },
        Request::WriteGpio { port, value } => if rs.len() == 0 {
            Action::Write(spec_gpio_register(port), value)
        } else {
            Action::Finish(Outcome::Done)
        },
        Request::DigitalWrite { pin, value } => if rs.len() == 0 {
            Action::Read(spec_register_for_pin(pin, Register::OLATA, Register::OLATB))
        } else if rs.len() == 1 {
            Action::Write(
                spec_register_for_pin(pin, Register::GPIOA, Register::GPIOB),
                with_bit(byte_of(rs[0]), pin % 8, value),
            )
        } else {
            Action::Finish(Outcome::Done)
        },
        Request::DigitalRead { pin } => if rs.len() == 0 {
            Action::Read(spec_register_for_pin(pin, Register::GPIOA, Register::GPIOB))
        } else {
            Action::Finish(Outcome::Level(bit_of(byte_of(rs[0]), pin % 8)))
        },
        Request::PullUp { pin, value } => if rs.len() < 2 {
            pin_update(pin, value, Register::GPPUA, Register::GPPUB, rs, 0)
        } else {
            Action::Finish(Outcome::Done)
        },
        Request::InvertInputPolarity { pin, value } => if rs.len() < 2 {
            pin_update(pin, value, Register::IPOLA, Register::IPOLB, rs, 0)
        } else {
            Action::Finish(Outcome::Done)
        },
        Request::SetupInterrupts { mirroring, open_drain, polarity } => if rs.len() == 0 {
            Action::Read(Register::IOCONA)
        } else if rs.len() == 1 {
            Action::Write(
                Register::IOCONA,
                interrupt_config(byte_of(rs[0]), mirroring, open_drain, polarity),
            )
        } else if rs.len() == 2 {
            Action::Read(Register::IOCONB)
        } else if rs.len() == 3 {
            Action::Write(
                Register::IOCONB,
                interrupt_config(byte_of(rs[2]), mirroring, open_drain, polarity),
            )
        } else {
            Action::Finish(Outcome::Done)
        },
        Request::SetupInterruptPin { pin, mode } => if rs.len() < 2 {
            pin_update(pin, mode != InterruptMode::CHANGE, Register::INTCONA, Register::INTCONB, rs, 0)
        } else if rs.len() < 4 {
            pin_update(pin, mode == InterruptMode::FALLING, Register::DEFVALA, Register::DEFVALB, rs, 2)
        } else if rs.len() < 6 {
            pin_update(pin, true, Register::GPINTENA, Register::GPINTENB, rs, 4)
        } else {
            Action::Finish(Outcome::Done)
        },
        Request::GetLastInterruptPin => interrupt_search(rs),
        Request::GetLastInterruptValue => interrupt_value(rs),
    }
}

/// Returns the index of the lowest set bit of `v`, or `None` when `v` is 0.
pub fn lowest_set_bit(v: u8) -> (found: Option<u8>)
    ensures
        found == if v == 0 {
            None
        } else {
            Some(first_set_bit(v, 0) as u8)
        },
        v != 0 ==> first_set_bit(v, 0) < 8,
        found matches Some(i) ==> i < 8 && bit_of(v, i) && forall|j: u8| j < i ==> !#[trigger] bit_of(v, j),
{
    proof {
        lemma_zero_has_no_bits();
    }
    for x in 0..8u8
        invariant
            first_set_bit(v, 0) == first_set_bit(v, x as nat),
            forall|j: u8| j < x ==> !#[trigger] bit_of(v, j),
    {
        if read_bit(v, x) {
            proof {
                lemma_zero_has_no_bits();
                assert(!bit_of(0u8, x));
            }
            return Some(x);
        }
    }
    proof {
        crate::bits::lemma_bits_determine_byte(v, 0);
    }
    None
}

/// The byte a single-register reply carries.
fn reply_byte(reply: &Reply) -> (v: u8)
    ensures
        v == byte_of(*reply),
{
    match reply {
        Reply::Value(v) => *v,
        _ => 0,
    }
}

/// The bytes a register-pair reply carries.
fn reply_pair(reply: &Reply) -> (p: (u8, u8))
    ensures
        p == pair_of(*reply),
{
    match reply {
        Reply::Pair(first, second) => (*first, *second),
        _ => (0, 0),
    }
}

/// Both ports as one word, from the two bytes of a register-pair read: the
/// first byte received is the high byte.
pub fn gpioab_value(first: u8, second: u8) -> (word: u16)
    ensures
        word == first * 256 + second,
{
    let word = (first as u16) << 8 | (second as u16);
    assert(word == first * 256 + second) by (bit_vector)
        requires
            word == (first as u16) << 8 | (second as u16),
    ;
    word
}

/// The level captured in bit `bit` of `val`, as 0 or 1.
pub fn captured_level(val: u8, bit: u8) -> (level: u8)
    requires
        bit < 8,
    ensures
        level == if bit_of(val, bit) {
            1u8
        } else {
            0u8
        },
{
    assert(((val >> bit) & 0x01u8) == if (val >> bit) & 1u8 == 1u8 {
        1u8
    } else {
        0u8
    }) by (bit_vector);
    (val >> bit) & 0x01
}

fn pin_update_action(pin: u8, value: bool, a: Register, b: Register, replies: &Vec<Reply>, at: usize) -> (action: Action)
    requires
        at <= replies@.len() <= at + 1,
    ensures
        action == pin_update(pin, value, a, b, replies@, at as int),
{
    let reg = register_for_pin(pin, a, b);
    if replies.len() <= at {
        Action::Read(reg)
    } else {
        let bit = bit_for_pin(pin);
        Action::Write(reg, write_bit(reply_byte(&replies[at]), bit, value))
    }
}

fn interrupt_config_value(v: u8, mirroring: bool, open_drain: bool, polarity: Polarity) -> (conf: u8)
    ensures
        conf == interrupt_config(v, mirroring, open_drain, polarity),
{
    let mut io_conf_value = v;
    io_conf_value = write_bit(io_conf_value, 6, mirroring);
    io_conf_value = write_bit(io_conf_value, 2, open_drain);
    io_conf_value = write_bit(io_conf_value, 1, polarity.bit_value());
    io_conf_value
}

fn interrupt_search_action(replies: &Vec<Reply>) -> (action: Action)
    ensures
        action == interrupt_search(replies@),
{
    if replies.len() == 0 {
        return Action::Read(Register::INTFA);
    }
    let intf_a = reply_byte(&replies[0]);
    if let Some(x) = lowest_set_bit(intf_a) {
        return Action::Finish(Outcome::Pin(x));
    }
    if replies.len() == 1 {
        return Action::Read(Register::INTFB);
    }
    let intf_b = reply_byte(&replies[1]);
    if let Some(x) = lowest_set_bit(intf_b) {
        return Action::Finish(Outcome::Pin(x + 8));
    }
    Action::Finish(Outcome::NoInterruptPin)
}

fn interrupt_value_action(replies: &Vec<Reply>) -> (action: Action)
    ensures
        action == interrupt_value(replies@),
{
    let ghost rs = replies@;
    let used: usize = if replies.len() >= 1 && reply_byte(&replies[0]) != 0 {
        1
    } else {
        2
    };
    if replies.len() < used {
        return interrupt_search_action(replies);
    }
    assert(rs.take(used as int)[0] == rs[0]);
    assert(used == 2 ==> rs.take(used as int)[1] == rs[1]);
    let found = if used == 1 {
        lowest_set_bit(reply_byte(&replies[0]))
    } else {
        match lowest_set_bit(reply_byte(&replies[1])) {
            Some(x) => Some(x + 8),
            None => None,
        }
    };
    match found {
        Some(pin) => {
            if replies.len() == used {
                Action::Read(register_for_pin(pin, Register::INTCAPA, Register::INTCAPB))
            } else {
                let bit = bit_for_pin(pin);
                Action::Finish(Outcome::Byte(captured_level(reply_byte(&replies[used]), bit)))
            }
        },
        None => Action::Finish(Outcome::NoInterruptPin),
    }
}

/// Returns the next action of `request`, once the bus has given `replies`.
pub fn plan(request: &Request, replies: &Vec<Reply>) -> (action: Action)
    ensures
        action == planned(*request, replies@),
{
    let n = replies.len();
    if n > 0 {
        if let Reply::Failed = replies[n - 1] {
            return Action::Finish(Outcome::BusFailure);
        }
    }
    match *request {
        Request::InitHardware => {
            if n == 0 {
                Action::Write(Register::IODIRA, 0xff)
            } else if n == 1 {
                Action::Write(Register::IODIRB, 0xff)
            } else {
                Action::Finish(Outcome::Done)
            }
        },
        Request::PinMode { pin, mode } => {
            if n < 2 {
                pin_update_action(pin, mode.bit_value(), Register::IODIRA, Register::IODIRB, replies, 0)
            } else {
                Action::Finish(Outcome::Done)
            }
        },
        Request::AllPinMode { mode } => {
            if n == 0 {
                Action::Write(Register::IODIRA, mode.register_value())
            } else if n == 1 {
                Action::Write(Register::IODIRB, mode.register_value())
            } else {
                Action::Finish(Outcome::Done)
            }
        },
        Request::ReadGpioab => {
            if n == 0 {
                Action::ReadPair(Register::GPIOA)
            } else {
                let (first, second) = reply_pair(&replies[0]);
                Action::Finish(Outcome::Word(gpioab_value(first, second)))
            }
        },
        Request::ReadGpio { port } => {
            if n == 0 {
                Action::Read(gpio_register(port))
            } else {
                Action::Finish(Outcome::Byte(reply_byte(&replies[0])))
            }
        },
        Request::WriteGpioab { value } => {
            if n == 0 {
                Action::WritePair(Register::GPIOA, value)
            } else {
                Action::Finish(Outcome::Done)
            }
        },
        Request::WriteGpio { port, value } => {
            if n == 0 {
                Action::Write(gpio_register(port), value)
            } else {
                Action::Finish(Outcome::Done)
            }
        },
        Request::DigitalWrite { pin, value } => {
            if n == 0 {
                Action::Read(register_for_pin(pin, Register::OLATA, Register::OLATB))
            } else if n == 1 {
                let bit = bit_for_pin(pin);
                let gpio = reply_byte(&replies[0]);
                let gpio_mod = write_bit(gpio, bit, value);
                Action::Write(register_for_pin(pin, Register::GPIOA, Register::GPIOB), gpio_mod)
            } else {
                Action::Finish(Outcome::Done)
            }
        },
        Request::DigitalRead { pin } => {
            if n == 0 {
                Action::Read(register_for_pin(pin, Register::GPIOA, Register::GPIOB))
            } else {
                let bit = bit_for_pin(pin);
                Action::Finish(Outcome::Level(read_bit(reply_byte(&replies[0]), bit)))
            }
        },
        Request::PullUp { pin, value } => {
            if n < 2 {
                pin_update_action(pin, value, Register::GPPUA, Register::GPPUB, replies, 0)
            } else {
                Action::Finish(Outcome::Done)
            }
        },
        Request::InvertInputPolarity { pin, value } => {
            if n < 2 {
                pin_update_action(pin, value, Register::IPOLA, Register::IPOLB, replies, 0)
            } else {
                Action::Finish(Outcome::Done)
            }
        },
        Request::SetupInterrupts { mirroring, open_drain, polarity } => {
            if n == 0 {
                Action::Read(Register::IOCONA)
            } else if n == 1 {
                let conf = interrupt_config_value(reply_byte(&replies[0]), mirroring, open_drain, polarity);
                Action::Write(Register::IOCONA, conf)
            } else if n == 2 {
                Action::Read(Register::IOCONB)
            } else if n == 3 {
                let conf = interrupt_config_value(reply_byte(&replies[2]), mirroring, open_drain, polarity);
                Action::Write(Register::IOCONB, conf)
            } else {
                Action::Finish(Outcome::Done)
            }
        },
        Request::SetupInterruptPin { pin, mode } => {
            if n < 2 {
                pin_update_action(pin, mode != InterruptMode::CHANGE, Register::INTCONA, Register::INTCONB, replies, 0)
            } else if n < 4 {
                pin_update_action(pin, mode == InterruptMode::FALLING, Register::DEFVALA, Register::DEFVALB, replies, 2)
            } else if n < 6 {
                pin_update_action(pin, true, Register::GPINTENA, Register::GPINTENB, replies, 4)
            } else {
                Action::Finish(Outcome::Done)
            }
        },
        Request::GetLastInterruptPin => interrupt_search_action(replies),
        Request::GetLastInterruptValue => interrupt_value_action(replies),
    }
}

/// A running operation: the request and the replies the bus has given so far.
pub struct Session {
    request: Request,
    replies: Vec<Reply>,
}

impl Session {
    /// The operation this session runs.
    pub closed spec fn requested(&self) -> Request {
        self.request
    }

    /// The replies received so far, oldest first.
    pub closed spec fn history(&self) -> Seq<Reply> {
        self.replies@
    }

    /// Starts `request`: returns the session and its first action.
    pub fn start(request: Request) -> (started: (Session, Action))
        ensures
            started.0.requested() == request,
            started.0.history() == Seq::<Reply>::empty(),
            started.1 == planned(request, Seq::<Reply>::empty()),
    {
        let session = Session { request, replies: Vec::new() };
        let action = plan(&session.request, &session.replies);
        (session, action)
    }

    /// Hands the session the bus's reply to its pending action, and returns the next action.
    pub fn resume(&mut self, reply: Reply) -> (action: Action)
        requires
            answers(planned(old(self).requested(), old(self).history()), reply),
        ensures
            final(self).requested() == old(self).requested(),
            final(self).history() == old(self).history().push(reply),
            action == planned(final(self).requested(), final(self).history()),
    {
        self.replies.push(reply);
        plan(&self.request, &self.replies)
    }
}

} // verus!
