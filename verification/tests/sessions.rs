use mcp23s17::modes::{InterruptMode, PinMode, Polarity, Port};
use mcp23s17::registers::Register;
use mcp23s17::session::{Action, Outcome, Reply, Request, Session};

/// A register file standing in for the chip; it answers reads with what was
/// last written and records every access.
struct Chip {
    regs: [u8; 22],
    log: Vec<Action>,
}

impl Chip {
    fn new() -> Chip {
        Chip { regs: [0; 22], log: Vec::new() }
    }

    fn get(&self, reg: Register) -> u8 {
        self.regs[reg.address() as usize]
    }

    fn set(&mut self, reg: Register, v: u8) {
        self.regs[reg.address() as usize] = v;
    }

    fn run(&mut self, request: Request) -> Outcome {
        let (mut session, mut action) = Session::start(request);
        loop {
            let reply = match action {
                Action::Read(reg) => Reply::Value(self.get(reg)),
                Action::ReadPair(reg) => {
                    let a = reg.address() as usize;
                    Reply::Pair(self.regs[a], self.regs[a + 1])
                }
                Action::Write(reg, v) => {
                    self.set(reg, v);
                    Reply::Written
                }
                Action::WritePair(reg, w) => {
                    let a = reg.address() as usize;
                    self.regs[a] = (w & 0xff) as u8;
                    self.regs[a + 1] = (w >> 8) as u8;
                    Reply::Written
                }
                Action::Finish(outcome) => return outcome,
            };
            self.log.push(action);
            assert!(self.log.len() <= 6);
            action = session.resume(reply);
        }
    }
}

#[test]
fn pin_mode_changes_one_iodir_bit() {
    let mut chip = Chip::new();
    chip.set(Register::IODIRA, 0xff);
    chip.set(Register::IODIRB, 0xff);
    assert_eq!(chip.run(Request::PinMode { pin: 3, mode: PinMode::OUTPUT }), Outcome::Done);
    assert_eq!(chip.get(Register::IODIRA), 0xf7);
    assert_eq!(chip.get(Register::IODIRB), 0xff);
    assert_eq!(
        chip.log,
        vec![Action::Read(Register::IODIRA), Action::Write(Register::IODIRA, 0xf7)]
    );
    chip.run(Request::PinMode { pin: 11, mode: PinMode::OUTPUT });
    assert_eq!(chip.get(Register::IODIRB), 0xf7);
    chip.run(Request::PinMode { pin: 11, mode: PinMode::INPUT });
    assert_eq!(chip.get(Register::IODIRB), 0xff);
}

#[test]
fn all_pin_mode_writes_both_ports() {
    let mut chip = Chip::new();
    chip.set(Register::IODIRA, 0x5a);
    assert_eq!(chip.run(Request::AllPinMode { mode: PinMode::OUTPUT }), Outcome::Done);
    assert_eq!(
        chip.log,
        vec![Action::Write(Register::IODIRA, 0x00), Action::Write(Register::IODIRB, 0x00)]
    );
    chip.run(Request::AllPinMode { mode: PinMode::INPUT });
    assert_eq!(chip.get(Register::IODIRA), 0xff);
    assert_eq!(chip.get(Register::IODIRB), 0xff);
}

#[test]
fn init_hardware_makes_all_pins_inputs() {
    let mut chip = Chip::new();
    assert_eq!(chip.run(Request::InitHardware), Outcome::Done);
    assert_eq!(chip.get(Register::IODIRA), 0xff);
    assert_eq!(chip.get(Register::IODIRB), 0xff);
}

#[test]
fn read_gpioab_puts_port_a_high() {
    let mut chip = Chip::new();
    chip.set(Register::GPIOA, 0x12);
    chip.set(Register::GPIOB, 0x34);
    assert_eq!(chip.run(Request::ReadGpioab), Outcome::Word(0x1234));
    assert_eq!(chip.log, vec![Action::ReadPair(Register::GPIOA)]);
}

#[test]
fn read_and_write_single_ports() {
    let mut chip = Chip::new();
    chip.set(Register::GPIOB, 0x9c);
    assert_eq!(chip.run(Request::ReadGpio { port: Port::GPIOB }), Outcome::Byte(0x9c));
    assert_eq!(chip.run(Request::WriteGpio { port: Port::GPIOA, value: 0x42 }), Outcome::Done);
    assert_eq!(chip.get(Register::GPIOA), 0x42);
    assert_eq!(chip.get(Register::GPIOB), 0x9c);
}

#[test]
fn write_gpioab_sends_whole_word() {
    let mut chip = Chip::new();
    assert_eq!(chip.run(Request::WriteGpioab { value: 0xFFFF }), Outcome::Done);
    assert_eq!(chip.log, vec![Action::WritePair(Register::GPIOA, 0xFFFF)]);
    assert_eq!(chip.get(Register::GPIOA), 0xff);
    assert_eq!(chip.get(Register::GPIOB), 0xff);
    chip.run(Request::WriteGpioab { value: 0x0000 });
    assert_eq!(chip.get(Register::GPIOA), 0x00);
    assert_eq!(chip.get(Register::GPIOB), 0x00);
}

#[test]
fn digital_write_reads_latch_writes_gpio() {
    let mut chip = Chip::new();
    chip.set(Register::OLATB, 0b0000_0001);
    chip.set(Register::GPIOB, 0b1111_0000);
    assert_eq!(chip.run(Request::DigitalWrite { pin: 9, value: true }), Outcome::Done);
    assert_eq!(
        chip.log,
        vec![Action::Read(Register::OLATB), Action::Write(Register::GPIOB, 0b0000_0011)]
    );
    assert_eq!(chip.get(Register::GPIOB), 0b0000_0011);
}

#[test]
fn digital_read_reads_pin_bit() {
    let mut chip = Chip::new();
    chip.set(Register::GPIOA, 0b0001_0000);
    assert_eq!(chip.run(Request::DigitalRead { pin: 4 }), Outcome::Level(true));
    assert_eq!(chip.run(Request::DigitalRead { pin: 5 }), Outcome::Level(false));
    chip.set(Register::GPIOB, 0b1000_0000);
    assert_eq!(chip.run(Request::DigitalRead { pin: 15 }), Outcome::Level(true));
}

#[test]
fn pull_up_and_polarity_use_their_registers() {
    let mut chip = Chip::new();
    chip.run(Request::PullUp { pin: 8, value: true });
    assert_eq!(chip.get(Register::GPPUB), 0b0000_0001);
    chip.run(Request::InvertInputPolarity { pin: 2, value: true });
    assert_eq!(chip.get(Register::IPOLA), 0b0000_0100);
    chip.run(Request::InvertInputPolarity { pin: 2, value: false });
    assert_eq!(chip.get(Register::IPOLA), 0);
}

#[test]
fn setup_interrupts_configures_both_ports_alike() {
    let mut chip = Chip::new();
    chip.set(Register::IOCONA, 0b1000_0001);
    chip.set(Register::IOCONB, 0b0100_0110);
    let req = Request::SetupInterrupts { mirroring: true, open_drain: false, polarity: Polarity::HIGH };
    assert_eq!(chip.run(req), Outcome::Done);
    assert_eq!(chip.get(Register::IOCONA), 0b1100_0011);
    assert_eq!(chip.get(Register::IOCONB), 0b0100_0010);
    assert_eq!(chip.log.len(), 4);
    assert_eq!(chip.log[0], Action::Read(Register::IOCONA));
    assert_eq!(chip.log[2], Action::Read(Register::IOCONB));
}

#[test]
fn power_on_defaults_of_interrupt_config() {
    let mut chip = Chip::new();
    let req = Request::SetupInterrupts { mirroring: false, open_drain: false, polarity: Polarity::LOW };
    chip.run(req);
    assert_eq!(chip.get(Register::IOCONA), 0);
    assert_eq!(chip.get(Register::IOCONB), 0);
}

#[test]
fn setup_interrupt_pin_modes() {
    let mut chip = Chip::new();
    chip.run(Request::SetupInterruptPin { pin: 1, mode: InterruptMode::FALLING });
    assert_eq!(chip.get(Register::INTCONA), 0b10);
    assert_eq!(chip.get(Register::DEFVALA), 0b10);
    assert_eq!(chip.get(Register::GPINTENA), 0b10);
    assert_eq!(chip.log.len(), 6);

    let mut chip = Chip::new();
    chip.run(Request::SetupInterruptPin { pin: 10, mode: InterruptMode::RISING });
    assert_eq!(chip.get(Register::INTCONB), 0b100);
    assert_eq!(chip.get(Register::DEFVALB), 0);
    assert_eq!(chip.get(Register::GPINTENB), 0b100);

    let mut chip = Chip::new();
    chip.set(Register::INTCONA, 0xff);
    chip.set(Register::DEFVALA, 0xff);
    chip.run(Request::SetupInterruptPin { pin: 0, mode: InterruptMode::CHANGE });
    assert_eq!(chip.get(Register::INTCONA), 0xfe);
    assert_eq!(chip.get(Register::DEFVALA), 0xfe);
    assert_eq!(chip.get(Register::GPINTENA), 0x01);
}

#[test]
fn last_interrupt_pin_port_a_first() {
    let mut chip = Chip::new();
    chip.set(Register::INTFA, 0b0010_1000);
    chip.set(Register::INTFB, 0b0000_0001);
    assert_eq!(chip.run(Request::GetLastInterruptPin), Outcome::Pin(3));
    assert_eq!(chip.log, vec![Action::Read(Register::INTFA)]);
}

#[test]
fn last_interrupt_pin_port_b() {
    let mut chip = Chip::new();
    chip.set(Register::INTFB, 0b0000_0100);
    assert_eq!(chip.run(Request::GetLastInterruptPin), Outcome::Pin(10));
    assert_eq!(chip.log, vec![Action::Read(Register::INTFA), Action::Read(Register::INTFB)]);
}

#[test]
fn last_interrupt_pin_none() {
    let mut chip = Chip::new();
    assert_eq!(chip.run(Request::GetLastInterruptPin), Outcome::NoInterruptPin);
    assert_eq!(chip.run(Request::GetLastInterruptValue), Outcome::NoInterruptPin);
}

#[test]
fn last_interrupt_value_reads_capture() {
    let mut chip = Chip::new();
    chip.set(Register::INTFB, 0b0000_0100);
    chip.set(Register::INTCAPB, 0b0000_0100);
    assert_eq!(chip.run(Request::GetLastInterruptValue), Outcome::Byte(1));
    assert_eq!(
        chip.log,
        vec![
            Action::Read(Register::INTFA),
            Action::Read(Register::INTFB),
            Action::Read(Register::INTCAPB)
        ]
    );
    let mut chip = Chip::new();
    chip.set(Register::INTFA, 0b1000_0000);
    chip.set(Register::INTCAPA, 0b0111_1111);
    assert_eq!(chip.run(Request::GetLastInterruptValue), Outcome::Byte(0));
    assert_eq!(chip.log, vec![Action::Read(Register::INTFA), Action::Read(Register::INTCAPA)]);
}

#[test]
fn readme_toggle_all_pins() {
    let mut chip = Chip::new();
    chip.set(Register::IODIRA, 0xff);
    chip.set(Register::IODIRB, 0xff);
    chip.run(Request::AllPinMode { mode: PinMode::OUTPUT });
    chip.run(Request::WriteGpioab { value: 0x0000 });
    assert_eq!(chip.get(Register::GPIOA), 0x00);
    assert_eq!(chip.get(Register::GPIOB), 0x00);
    chip.run(Request::WriteGpioab { value: 0xFFFF });
    assert_eq!(chip.get(Register::GPIOA), 0xff);
    assert_eq!(chip.get(Register::GPIOB), 0xff);
    assert_eq!(chip.get(Register::IODIRA), 0x00);
    assert_eq!(chip.get(Register::IODIRB), 0x00);
}

#[test]
fn readme_read_single_pin() {
    let mut chip = Chip::new();
    chip.set(Register::IODIRB, 0x00);
    chip.set(Register::GPIOB, 0b0000_0001);
    chip.run(Request::PinMode { pin: 8, mode: PinMode::INPUT });
    chip.run(Request::PullUp { pin: 8, value: true });
    assert_eq!(chip.get(Register::IODIRB), 0b0000_0001);
    assert_eq!(chip.get(Register::GPPUB), 0b0000_0001);
    assert_eq!(chip.run(Request::DigitalRead { pin: 8 }), Outcome::Level(true));
}

#[test]
fn readme_read_all_pins() {
    let mut chip = Chip::new();
    chip.set(Register::GPIOA, 0xA5);
    chip.set(Register::GPIOB, 0x5A);
    assert_eq!(chip.run(Request::ReadGpioab), Outcome::Word(0xA55A));
}

#[test]
fn bank_bit_is_kept() {
    let mut chip = Chip::new();
    chip.set(Register::IOCONA, 0b1000_0000);
    chip.set(Register::IOCONB, 0b1111_1111);
    let req = Request::SetupInterrupts { mirroring: false, open_drain: true, polarity: Polarity::LOW };
    chip.run(req);
    assert_eq!(chip.get(Register::IOCONA), 0b1000_0100);
    assert_eq!(chip.get(Register::IOCONB), 0b1011_1101);
}

#[test]
fn every_request_finishes_within_six_accesses() {
    let requests = [
        Request::InitHardware,
        Request::PinMode { pin: 12, mode: PinMode::OUTPUT },
        Request::AllPinMode { mode: PinMode::INPUT },
        Request::ReadGpioab,
        Request::ReadGpio { port: Port::GPIOA },
        Request::WriteGpioab { value: 0x1234 },
        Request::WriteGpio { port: Port::GPIOB, value: 7 },
        Request::DigitalWrite { pin: 0, value: true },
        Request::DigitalRead { pin: 14 },
        Request::PullUp { pin: 3, value: false },
        Request::InvertInputPolarity { pin: 9, value: true },
        Request::SetupInterrupts { mirroring: true, open_drain: true, polarity: Polarity::HIGH },
        Request::SetupInterruptPin { pin: 6, mode: InterruptMode::CHANGE },
        Request::GetLastInterruptPin,
        Request::GetLastInterruptValue,
    ];
    for req in requests {
        let mut chip = Chip::new();
        chip.set(Register::INTFB, 0x10);
        chip.run(req);
        assert!(chip.log.len() <= 6);
    }
}

#[test]
fn resume_records_replies_in_order() {
    let (mut session, first) = Session::start(Request::DigitalWrite { pin: 2, value: false });
    assert_eq!(first, Action::Read(Register::OLATA));
    let second = session.resume(Reply::Value(0xff));
    assert_eq!(second, Action::Write(Register::GPIOA, 0xfb));
    let third = session.resume(Reply::Written);
    assert_eq!(third, Action::Finish(Outcome::Done));
}

#[test]
fn plan_is_a_function_of_the_replies() {
    let replies = vec![Reply::Value(0), Reply::Value(0x80)];
    assert_eq!(
        mcp23s17::session::plan(&Request::GetLastInterruptPin, &replies),
        Action::Finish(Outcome::Pin(15))
    );
    assert_eq!(
        mcp23s17::session::plan(&Request::GetLastInterruptValue, &replies),
        Action::Read(Register::INTCAPB)
    );
}

#[test]
fn failed_access_ends_operation() {
    let (mut session, first) = Session::start(Request::SetupInterrupts {
        mirroring: true,
        open_drain: false,
        polarity: Polarity::LOW,
    });
    assert_eq!(first, Action::Read(Register::IOCONA));
    let second = session.resume(Reply::Value(0));
    assert_eq!(second, Action::Write(Register::IOCONA, 0b0100_0000));
    let third = session.resume(Reply::Failed);
    assert_eq!(third, Action::Finish(Outcome::BusFailure));

    let (mut session, _) = Session::start(Request::GetLastInterruptValue);
    assert_eq!(session.resume(Reply::Failed), Action::Finish(Outcome::BusFailure));
}
