//! Properties of the driver that span several of its functions.
use vstd::prelude::*;
use crate::bits::{bit_of, with_bit, lemma_with_bit_bits, lemma_bits_determine_byte, lemma_zero_has_no_bits};
use crate::modes::{PinMode, InterruptMode, Polarity, Port};
use crate::registers::{Register, spec_register_for_pin, SPI_READ, SPI_WRITE};
use crate::session::{Request, Action, Outcome, Reply, planned, first_set_bit, interrupt_config};

verus! {

/// Writing a bit and reading it back gives the value written.
pub proof fn lemma_read_back_written_bit(reg: u8, bit: u8, val: bool)
    requires
        bit < 8,
    ensures
        bit_of(with_bit(reg, bit, val), bit) == val,
{
    lemma_with_bit_bits(reg, bit, val);
}

/// Writing a bit leaves every other bit of the register as it was.
pub proof fn lemma_write_bit_keeps_other_bits(reg: u8, bit: u8, val: bool, other: u8)
    requires
        bit < 8,
        other < 8,
        other != bit,
    ensures
        bit_of(with_bit(reg, bit, val), other) == bit_of(reg, other),
{
    lemma_with_bit_bits(reg, bit, val);
}

/// Of two writes of the same bit, the last one wins.
pub proof fn lemma_last_bit_write_wins(reg: u8, bit: u8, first: bool, second: bool)
    requires
        bit < 8,
    ensures
        with_bit(with_bit(reg, bit, first), bit, second) == with_bit(reg, bit, second),
{
    let once = with_bit(reg, bit, first);
    lemma_with_bit_bits(reg, bit, first);
    lemma_with_bit_bits(once, bit, second);
    lemma_with_bit_bits(reg, bit, second);
    assert forall|i: u8| i < 8 implies #[trigger] bit_of(with_bit(once, bit, second), i) == bit_of(
        with_bit(reg, bit, second),
        i,
    ) by {
        assert(bit_of(with_bit(once, bit, second), i) == if i == bit {
            second
        } else {
            bit_of(once, i)
        });
    }
    lemma_bits_determine_byte(with_bit(once, bit, second), with_bit(reg, bit, second));
}

/// Writing a bit with the value it already has changes nothing.
pub proof fn lemma_rewriting_bit_is_identity(reg: u8, bit: u8)
    requires
        bit < 8,
    ensures
        with_bit(reg, bit, bit_of(reg, bit)) == reg,
{
    lemma_with_bit_bits(reg, bit, bit_of(reg, bit));
    lemma_bits_determine_byte(with_bit(reg, bit, bit_of(reg, bit)), reg);
}

/// Each of the sixteen pins has a bit of its own: two different pins never
/// share both the register and the bit.
pub proof fn lemma_pins_have_distinct_bits(p: u8, q: u8, a: Register, b: Register)
    requires
        p < 16,
        q < 16,
        p != q,
        a != b,
    ensures
        spec_register_for_pin(p, a, b) != spec_register_for_pin(q, a, b) || p % 8 != q % 8,
{
}

/// The byte that sets a whole port to a mode has, in every bit, the bit of that mode.
pub proof fn lemma_register_value_repeats_bit_value(mode: PinMode)
    ensures
        forall|i: u8| i < 8 ==> #[trigger] bit_of(mode.spec_register(), i) == mode.spec_bit(),
{
    assert forall|i: u8| i < 8 implies #[trigger] bit_of(mode.spec_register(), i) == mode.spec_bit() by {
        assert(((0xffu8 >> i) & 1u8 == 1u8) && !((0x00u8 >> i) & 1u8 == 1u8)) by (bit_vector)
            requires
                i < 8,
        ;
    }
}

/// In `IOCON.BANK=0` mode each port B register sits right after its port A twin.
pub proof fn lemma_port_b_follows_port_a()
    ensures
        Register::IODIRB.spec_address() == Register::IODIRA.spec_address() + 1,
        Register::IPOLB.spec_address() == Register::IPOLA.spec_address() + 1,
        Register::GPINTENB.spec_address() == Register::GPINTENA.spec_address() + 1,
        Register::DEFVALB.spec_address() == Register::DEFVALA.spec_address() + 1,
        Register::INTCONB.spec_address() == Register::INTCONA.spec_address() + 1,
        Register::IOCONB.spec_address() == Register::IOCONA.spec_address() + 1,
        Register::GPPUB.spec_address() == Register::GPPUA.spec_address() + 1,
        Register::INTFB.spec_address() == Register::INTFA.spec_address() + 1,
        Register::INTCAPB.spec_address() == Register::INTCAPA.spec_address() + 1,
        Register::GPIOB.spec_address() == Register::GPIOA.spec_address() + 1,
        Register::OLATB.spec_address() == Register::OLATA.spec_address() + 1,
{
}

/// `w` is `v` with the bit `bit` set to `val` and every other bit kept.
pub open spec fn only_bit_changed(v: u8, w: u8, bit: u8, val: bool) -> bool {
    &&& bit_of(w, bit) == val
    &&& forall|i: u8| i < 8 && i != bit ==> #[trigger] bit_of(w, i) == bit_of(v, i)
}

/// The register pair, pin and value of a request that updates a single pin's bit.
pub open spec fn pin_bit_target(req: Request) -> (Register, Register, u8, bool) {
    match req {
        Request::PinMode { pin, mode } => (Register::IODIRA, Register::IODIRB, pin, mode.spec_bit()),
        Request::PullUp { pin, value } => (Register::GPPUA, Register::GPPUB, pin, value),
        Request::InvertInputPolarity { pin, value } => (Register::IPOLA, Register::IPOLB, pin, value),
        _ => (Register::IODIRA, Register::IODIRB, 0, false),
    }
}

/// Setting a pin's mode, pull-up or input polarity reads the register that
/// holds the pin (port A for pins 0-7, port B for the others), writes back to
/// that same register the value read with only the pin's bit changed, and is done.
pub proof fn lemma_pin_update_writes_back(req: Request, v: u8)
    requires
        req is PinMode || req is PullUp || req is InvertInputPolarity,
    ensures
        ({
            let (a, b, pin, value) = pin_bit_target(req);
            let reg = spec_register_for_pin(pin, a, b);
            &&& planned(req, seq![]) == Action::Read(reg)
            &&& planned(req, seq![Reply::Value(v)]) == Action::Write(reg, with_bit(v, pin % 8, value))
            &&& only_bit_changed(v, with_bit(v, pin % 8, value), pin % 8, value)
            &&& planned(req, seq![Reply::Value(v), Reply::Written]) == Action::Finish(Outcome::Done)
        }),
{
    let (a, b, pin, value) = pin_bit_target(req);
    lemma_with_bit_bits(v, pin % 8, value);
}

/// Writing a pin starts from its port's output latch and writes the latch
/// value, with only the pin's bit changed, to the GPIO register of the same port.
pub proof fn lemma_digital_write_from_latch(pin: u8, value: bool, latch: u8)
    ensures
        ({
            let req = Request::DigitalWrite { pin, value };
            let w = with_bit(latch, pin % 8, value);
            &&& planned(req, seq![]) == Action::Read(
                spec_register_for_pin(pin, Register::OLATA, Register::OLATB),
            )
            &&& planned(req, seq![Reply::Value(latch)]) == Action::Write(
                spec_register_for_pin(pin, Register::GPIOA, Register::GPIOB),
                w,
            )
            &&& only_bit_changed(latch, w, pin % 8, value)
            &&& planned(req, seq![Reply::Value(latch), Reply::Written]) == Action::Finish(Outcome::Done)
        }),
{
    lemma_with_bit_bits(latch, pin % 8, value);
}

/// Reading a pin answers the pin's bit of the GPIO register of its port.
pub proof fn lemma_digital_read_answers_pin_bit(pin: u8, port: u8)
    ensures
        planned(Request::DigitalRead { pin }, seq![]) == Action::Read(
            spec_register_for_pin(pin, Register::GPIOA, Register::GPIOB),
        ),
        planned(Request::DigitalRead { pin }, seq![Reply::Value(port)]) == Action::Finish(
            Outcome::Level(bit_of(port, pin % 8)),
        ),
{
}

/// `w` is the IOCON value `v` with mirroring, open-drain and polarity
/// (bits 6, 2 and 1) set as given and every other bit kept.
pub open spec fn configured(v: u8, w: u8, mirroring: bool, open_drain: bool, polarity: Polarity) -> bool {
    &&& bit_of(w, 6) == mirroring
    &&& bit_of(w, 2) == open_drain
    &&& bit_of(w, 1) == polarity.spec_bit()
    &&& forall|i: u8| i < 8 && i != 6 && i != 2 && i != 1 ==> #[trigger] bit_of(w, i) == bit_of(v, i)
}

proof fn lemma_interrupt_config_bits(v: u8, mirroring: bool, open_drain: bool, polarity: Polarity)
    ensures
        configured(v, interrupt_config(v, mirroring, open_drain, polarity), mirroring, open_drain, polarity),
{
    let v1 = with_bit(v, 6, mirroring);
    let v2 = with_bit(v1, 2, open_drain);
    lemma_with_bit_bits(v, 6, mirroring);
    lemma_with_bit_bits(v1, 2, open_drain);
    lemma_with_bit_bits(v2, 1, polarity.spec_bit());
    let w = interrupt_config(v, mirroring, open_drain, polarity);
    assert(bit_of(w, 6) == bit_of(v2, 6));
    assert(bit_of(v2, 6) == bit_of(v1, 6));
    assert(bit_of(w, 2) == bit_of(v2, 2));
    assert forall|i: u8| i < 8 && i != 6 && i != 2 && i != 1 implies #[trigger] bit_of(w, i) == bit_of(v, i) by {
        assert(bit_of(w, i) == bit_of(v2, i));
        assert(bit_of(v2, i) == bit_of(v1, i));
        assert(bit_of(v1, i) == bit_of(v, i));
    }
}

/// Configuring the interrupt outputs gives both ports the same configuration:
/// each IOCON register is read and written back with mirroring, open-drain and
/// polarity set as asked, port A first, and every other bit kept.
pub proof fn lemma_setup_interrupts_configures_both_ports(
    mirroring: bool,
    open_drain: bool,
    polarity: Polarity,
    iocon_a: u8,
    iocon_b: u8,
)
    ensures
        ({
            let req = Request::SetupInterrupts { mirroring, open_drain, polarity };
            let wa = interrupt_config(iocon_a, mirroring, open_drain, polarity);
            let wb = interrupt_config(iocon_b, mirroring, open_drain, polarity);
            let rs = seq![Reply::Value(iocon_a), Reply::Written, Reply::Value(iocon_b), Reply::Written];
            &&& planned(req, rs.take(0)) == Action::Read(Register::IOCONA)
            &&& planned(req, rs.take(1)) == Action::Write(Register::IOCONA, wa)
            &&& planned(req, rs.take(2)) == Action::Read(Register::IOCONB)
            &&& planned(req, rs.take(3)) == Action::Write(Register::IOCONB, wb)
            &&& planned(req, rs) == Action::Finish(Outcome::Done)
            &&& configured(iocon_a, wa, mirroring, open_drain, polarity)
            &&& configured(iocon_b, wb, mirroring, open_drain, polarity)
        }),
{
    lemma_interrupt_config_bits(iocon_a, mirroring, open_drain, polarity);
    lemma_interrupt_config_bits(iocon_b, mirroring, open_drain, polarity);
    let rs = seq![Reply::Value(iocon_a), Reply::Written, Reply::Value(iocon_b), Reply::Written];
    assert(rs.take(0).len() == 0);
    assert(rs.take(1).len() == 1 && rs.take(1)[0] == rs[0]);
    assert(rs.take(2).len() == 2);
    assert(rs.take(3).len() == 3 && rs.take(3)[2] == rs[2]);
}

/// Enabling a pin's interrupt makes three read-modify-writes of the pin's bit,
/// in the registers of the pin's port: interrupt control (compare against
/// DEFVAL unless the mode is CHANGE), default value (1 for FALLING, else 0),
/// and interrupt enable (1).
pub proof fn lemma_setup_interrupt_pin_steps(pin: u8, mode: InterruptMode, intcon: u8, defval: u8, gpinten: u8)
    ensures
        ({
            let req = Request::SetupInterruptPin { pin, mode };
            let bit = pin % 8;
            let rs = seq![
                Reply::Value(intcon),
                Reply::Written,
                Reply::Value(defval),
                Reply::Written,
                Reply::Value(gpinten),
                Reply::Written
            ];
            &&& planned(req, rs.take(0)) == Action::Read(spec_register_for_pin(pin, Register::INTCONA, Register::INTCONB))
            &&& planned(req, rs.take(1)) == Action::Write(
                spec_register_for_pin(pin, Register::INTCONA, Register::INTCONB),
                with_bit(intcon, bit, mode != InterruptMode::CHANGE),
            )
            &&& planned(req, rs.take(2)) == Action::Read(spec_register_for_pin(pin, Register::DEFVALA, Register::DEFVALB))
            &&& planned(req, rs.take(3)) == Action::Write(
                spec_register_for_pin(pin, Register::DEFVALA, Register::DEFVALB),
                with_bit(defval, bit, mode == InterruptMode::FALLING),
            )
            &&& planned(req, rs.take(4)) == Action::Read(spec_register_for_pin(pin, Register::GPINTENA, Register::GPINTENB))
            &&& planned(req, rs.take(5)) == Action::Write(
                spec_register_for_pin(pin, Register::GPINTENA, Register::GPINTENB),
                with_bit(gpinten, bit, true),
            )
            &&& planned(req, rs) == Action::Finish(Outcome::Done)
        }),
{
    let rs = seq![
        Reply::Value(intcon),
        Reply::Written,
        Reply::Value(defval),
        Reply::Written,
        Reply::Value(gpinten),
        Reply::Written
    ];
    assert(rs.take(1)[0] == rs[0]);
    assert(rs.take(3)[2] == rs[2]);
    assert(rs.take(5)[4] == rs[4]);
}

proof fn lemma_first_set_bit(v: u8, from: nat)
    requires
        from <= 8,
    ensures
        from <= first_set_bit(v, from) <= 8,
        first_set_bit(v, from) < 8 ==> bit_of(v, first_set_bit(v, from) as u8),
        forall|j: u8| from <= j < first_set_bit(v, from) ==> !#[trigger] bit_of(v, j),
    decreases 8 - from,
{
    if from < 8 && !bit_of(v, from as u8) {
        lemma_first_set_bit(v, from + 1);
        assert forall|j: u8| from <= j < first_set_bit(v, from) implies !#[trigger] bit_of(v, j) by {
            if j != from {
                assert(from + 1 <= j);
            }
        }
    }
}

/// The lowest set bit of a nonzero byte is one of its eight bits, and every
/// bit below it is clear.
proof fn lemma_lowest_set_bit(v: u8)
    requires
        v != 0,
    ensures
        first_set_bit(v, 0) < 8,
        bit_of(v, first_set_bit(v, 0) as u8),
        forall|j: u8| j < first_set_bit(v, 0) ==> !#[trigger] bit_of(v, j),
{
    lemma_first_set_bit(v, 0);
    if first_set_bit(v, 0) == 8 {
        lemma_zero_has_no_bits();
        assert forall|i: u8| i < 8 implies #[trigger] bit_of(v, i) == bit_of(0u8, i) by {}
        lemma_bits_determine_byte(v, 0);
    }
}

/// Whether pin `p` is flagged, given the interrupt flag registers of both ports.
pub open spec fn flagged(intf_a: u8, intf_b: u8, p: u8) -> bool {
    if p < 8 {
        bit_of(intf_a, p)
    } else {
        bit_of(intf_b, (p - 8) as u8)
    }
}

/// Pin `p` is the lowest-numbered of the sixteen pins that are flagged.
pub open spec fn lowest_flagged(intf_a: u8, intf_b: u8, p: u8) -> bool {
    &&& p < 16
    &&& flagged(intf_a, intf_b, p)
    &&& forall|q: u8| q < p ==> !#[trigger] flagged(intf_a, intf_b, q)
}

/// The replies to the interrupt search, given the flag registers: port B's
/// flags are read only when no pin of port A is flagged.
pub open spec fn flag_replies(intf_a: u8, intf_b: u8) -> Seq<Reply> {
    if intf_a != 0 {
        seq![Reply::Value(intf_a)]
    } else {
        seq![Reply::Value(intf_a), Reply::Value(intf_b)]
    }
}

/// The last interrupt pin is the lowest-numbered flagged pin, port A before
/// port B; when no pin is flagged the answer is that no pin was found.
pub proof fn lemma_last_interrupt_pin_is_lowest_flagged(intf_a: u8, intf_b: u8)
    ensures
        planned(Request::GetLastInterruptPin, seq![]) == Action::Read(Register::INTFA),
        intf_a == 0 ==> planned(Request::GetLastInterruptPin, seq![Reply::Value(intf_a)]) == Action::Read(
            Register::INTFB,
        ),
        intf_a == 0 && intf_b == 0 ==> planned(Request::GetLastInterruptPin, flag_replies(intf_a, intf_b))
            == Action::Finish(Outcome::NoInterruptPin),
        intf_a == 0 && intf_b == 0 ==> forall|q: u8| q < 16 ==> !#[trigger] flagged(intf_a, intf_b, q),
        intf_a != 0 || intf_b != 0 ==> (planned(Request::GetLastInterruptPin, flag_replies(intf_a, intf_b)) matches Action::Finish(
            Outcome::Pin(p),
        ) && lowest_flagged(intf_a, intf_b, p)),
{
    lemma_zero_has_no_bits();
    let rs = flag_replies(intf_a, intf_b);
    if intf_a != 0 {
        lemma_lowest_set_bit(intf_a);
        let p = first_set_bit(intf_a, 0) as u8;
        assert forall|q: u8| q < p implies !#[trigger] flagged(intf_a, intf_b, q) by {}
    } else if intf_b != 0 {
        lemma_lowest_set_bit(intf_b);
        let p = (first_set_bit(intf_b, 0) + 8) as u8;
        assert forall|q: u8| q < p implies !#[trigger] flagged(intf_a, intf_b, q) by {
            if q >= 8 {
                assert(((q - 8) as u8) < first_set_bit(intf_b, 0));
            }
        }
        assert(flagged(intf_a, intf_b, p));
    } else {
        assert forall|q: u8| q < 16 implies !#[trigger] flagged(intf_a, intf_b, q) by {
            if q >= 8 {
                assert(!bit_of(0u8, (q - 8) as u8));
            } else {
                assert(!bit_of(0u8, q));
            }
        }
    }
}

/// Finding the level captured on the last interrupt pin searches for the pin
/// exactly as finding the pin does, then reads the interrupt capture register
/// of the pin's port and answers the pin's bit of it, as 0 or 1.
pub proof fn lemma_last_interrupt_value_reads_capture(intf_a: u8, intf_b: u8, captured: u8)
    ensures
        ({
            let rs = flag_replies(intf_a, intf_b);
            &&& planned(Request::GetLastInterruptValue, seq![]) == planned(
                Request::GetLastInterruptPin,
                seq![],
            )
            &&& forall|k: int|
                0 <= k < rs.len() ==> planned(Request::GetLastInterruptValue, #[trigger] rs.take(k))
                    == planned(Request::GetLastInterruptPin, rs.take(k))
            &&& planned(Request::GetLastInterruptPin, rs) == Action::Finish(Outcome::NoInterruptPin)
                ==> planned(Request::GetLastInterruptValue, rs) == Action::Finish(Outcome::NoInterruptPin)
            &&& planned(Request::GetLastInterruptPin, rs) matches Action::Finish(Outcome::Pin(p)) ==> {
                &&& planned(Request::GetLastInterruptValue, rs) == Action::Read(
                    spec_register_for_pin(p, Register::INTCAPA, Register::INTCAPB),
                )
                &&& planned(Request::GetLastInterruptValue, rs.push(Reply::Value(captured)))
                    == Action::Finish(
                    Outcome::Byte(
                        if bit_of(captured, p % 8) {
                            1u8
                        } else {
                            0u8
                        },
                    ),
                )
            }
        }),
{
    let rs = flag_replies(intf_a, intf_b);
    assert(rs.take(rs.len() as int) =~= rs);
    assert(rs.push(Reply::Value(captured)).take(rs.len() as int) =~= rs);
    assert forall|k: int|
        0 <= k < rs.len() implies planned(Request::GetLastInterruptValue, #[trigger] rs.take(k)) == planned(
            Request::GetLastInterruptPin,
            rs.take(k),
        ) by {
        if k == 1 {
            assert(rs.take(k)[0] == rs[0]);
        }
    }
}

/// Every operation is over after at most six bus accesses.
pub proof fn lemma_operations_finish(req: Request, rs: Seq<Reply>)
    requires
        rs.len() >= 6,
    ensures
        planned(req, rs) is Finish,
{
    assert(rs.take(1)[0] == rs[0]);
    assert(rs.take(2)[0] == rs[0]);
    assert(rs.take(2)[1] == rs[1]);
}

/// The driver never changes `IOCON.BANK` (bit 7 of IOCON): the only writes
/// to an IOCON register put back the value just read from it with bit 7 as it
/// was, and the only register-pair write is to the GPIO pair. (A session never
/// gets a reply after a failed access, so its replies before the last hold no failure.)
pub proof fn lemma_bank_bit_is_never_changed(req: Request, rs: Seq<Reply>)
    requires
        forall|i: int| 0 <= i < rs.len() - 1 ==> !(#[trigger] rs[i] is Failed),
    ensures
        planned(req, rs) matches Action::Write(r, w) ==> (r == Register::IOCONA || r == Register::IOCONB
            ==> {
            &&& rs.len() >= 1
            &&& planned(req, rs.drop_last()) == Action::Read(r)
            &&& bit_of(w, 7) == bit_of(crate::session::byte_of(rs.last()), 7)
        }),
        planned(req, rs) matches Action::WritePair(r, _) ==> r == Register::GPIOA,
{
    match req {
        Request::SetupInterrupts { mirroring, open_drain, polarity } => {
            if rs.len() == 3 {
                assert(rs.drop_last().last() == rs[1]);
            }
            if rs.len() == 1 || rs.len() == 3 {
                let v = crate::session::byte_of(rs.last());
                lemma_interrupt_config_bits(v, mirroring, open_drain, polarity);
                assert(rs.last() == rs[rs.len() - 1]);
            }
        },
        _ => {},
    }
}

/// A failed bus access ends the operation: whatever the operation was waiting
/// for, a failure reply makes its next action finishing with the bus failure,
/// so no later access is made.
pub proof fn lemma_failed_access_ends_operation(req: Request, rs: Seq<Reply>)
    requires
        !(planned(req, rs) is Finish),
    ensures
        crate::session::answers(planned(req, rs), Reply::Failed),
        planned(req, rs.push(Reply::Failed)) == Action::Finish(Outcome::BusFailure),
{
}

/// Every register goes on the bus with its address from the datasheet's
/// `IOCON.BANK=0` register map, and the opcodes are those of a device with
/// address pins A2..A0 all high.
pub proof fn lemma_register_map()
    ensures
        SPI_READ == 0x4F,
        SPI_WRITE == 0x4E,
        Register::IODIRA.spec_address() == 0x00,
        Register::IODIRB.spec_address() == 0x01,
        Register::IPOLA.spec_address() == 0x02,
        Register::IPOLB.spec_address() == 0x03,
        Register::GPINTENA.spec_address() == 0x04,
        Register::GPINTENB.spec_address() == 0x05,
        Register::DEFVALA.spec_address() == 0x06,
        Register::DEFVALB.spec_address() == 0x07,
        Register::INTCONA.spec_address() == 0x08,
        Register::INTCONB.spec_address() == 0x09,
        Register::IOCONA.spec_address() == 0x0A,
        Register::IOCONB.spec_address() == 0x0B,
        Register::GPPUA.spec_address() == 0x0C,
        Register::GPPUB.spec_address() == 0x0D,
        Register::INTFA.spec_address() == 0x0E,
        Register::INTFB.spec_address() == 0x0F,
        Register::INTCAPA.spec_address() == 0x10,
        Register::INTCAPB.spec_address() == 0x11,
        Register::GPIOA.spec_address() == 0x12,
        Register::GPIOB.spec_address() == 0x13,
        Register::OLATA.spec_address() == 0x14,
        Register::OLATB.spec_address() == 0x15,
{
}

/// Different registers have different addresses, and every address is below 0x16.
pub proof fn lemma_addresses_are_distinct(r: Register, s: Register)
    ensures
        r.spec_address() < 0x16,
        r != s ==> r.spec_address() != s.spec_address(),
{
}

/// Pins 0-7 are on port A and pins 8 and above on port B: the register of a
/// pin is the port A register of the pair exactly when the pin is below 8.
pub proof fn lemma_pin_port(pin: u8, a: Register, b: Register)
    ensures
        pin < 8 ==> spec_register_for_pin(pin, a, b) == a,
        pin >= 8 ==> spec_register_for_pin(pin, a, b) == b,
{
}

/// The IODIR bit of a mode is 1 exactly for inputs, and the whole-port byte is
/// all ones for inputs and all zeros for outputs; the IOCON polarity bit is 1
/// exactly for active-high.
pub proof fn lemma_mode_bits(mode: PinMode, polarity: Polarity)
    ensures
        mode.spec_bit() <==> mode == PinMode::INPUT,
        mode == PinMode::INPUT ==> mode.spec_register() == 0xff,
        mode == PinMode::OUTPUT ==> mode.spec_register() == 0x00,
        polarity.spec_bit() <==> polarity == Polarity::HIGH,
{
}

/// Reading one port makes exactly one access, a read of that port's GPIO
/// register (address 0x12 for port A, 0x13 for port B), and answers the byte
/// that read returned.
pub proof fn lemma_read_port(port: Port, v: u8)
    ensures
        planned(Request::ReadGpio { port }, seq![]) == Action::Read(
            if port == Port::GPIOA {
                Register::GPIOA
            } else {
                Register::GPIOB
            },
        ),
        planned(Request::ReadGpio { port }, seq![]) matches Action::Read(r) && r.spec_address() == if port
            == Port::GPIOA {
            0x12u8
        } else {
            0x13u8
        },
        planned(Request::ReadGpio { port }, seq![Reply::Value(v)]) == Action::Finish(Outcome::Byte(v)),
{
}

/// Writing one port makes exactly one access, a write of the given byte to
/// that port's GPIO register.
pub proof fn lemma_write_port(port: Port, v: u8)
    ensures
        planned(Request::WriteGpio { port, value: v }, seq![]) == Action::Write(
            if port == Port::GPIOA {
                Register::GPIOA
            } else {
                Register::GPIOB
            },
            v,
        ),
        planned(Request::WriteGpio { port, value: v }, seq![Reply::Written]) == Action::Finish(
            Outcome::Done,
        ),
{
}

/// Writing both ports makes one access, a pair write starting at GPIOA with
/// the word unchanged, whose frame gives port A the low byte and port B the
/// high byte.
pub proof fn lemma_write_both_ports(value: u16)
    ensures
        planned(Request::WriteGpioab { value }, seq![]) == Action::WritePair(Register::GPIOA, value),
        planned(Request::WriteGpioab { value }, seq![Reply::Written]) == Action::Finish(Outcome::Done),
{
}

/// Reading both ports makes one access, a pair read starting at GPIOA, and
/// answers the first byte received as the high byte and the second as the low byte.
pub proof fn lemma_read_both_ports(first: u8, second: u8)
    ensures
        planned(Request::ReadGpioab, seq![]) == Action::ReadPair(Register::GPIOA),
        planned(Request::ReadGpioab, seq![Reply::Pair(first, second)]) matches Action::Finish(
            Outcome::Word(w),
        ) && w / 256 == first && w % 256 == second,
{
}

/// Reading a pin reads GPIOA for pins 0-7 and GPIOB for the others, and
/// answers the pin's bit (pin modulo 8) of the byte read.
pub proof fn lemma_read_pin(pin: u8, v: u8)
    ensures
        planned(Request::DigitalRead { pin }, seq![]) == Action::Read(
            if pin < 8 {
                Register::GPIOA
            } else {
                Register::GPIOB
            },
        ),
        planned(Request::DigitalRead { pin }, seq![Reply::Value(v)]) == Action::Finish(
            Outcome::Level((v >> (pin % 8)) & 1 == 1),
        ),
{
}

/// Resetting sets both ports to all inputs: it writes 0xff to IODIRA, then to
/// IODIRB. Setting all pins' modes writes the mode's whole-port byte to both.
pub proof fn lemma_all_pins_mode(mode: PinMode)
    ensures
        planned(Request::InitHardware, seq![]) == Action::Write(Register::IODIRA, 0xff),
        planned(Request::InitHardware, seq![Reply::Written]) == Action::Write(Register::IODIRB, 0xff),
        planned(Request::InitHardware, seq![Reply::Written, Reply::Written]) == Action::Finish(
            Outcome::Done,
        ),
        planned(Request::AllPinMode { mode }, seq![]) == Action::Write(
            Register::IODIRA,
            if mode == PinMode::INPUT {
                0xffu8
            } else {
                0x00u8
            },
        ),
        planned(Request::AllPinMode { mode }, seq![Reply::Written]) == Action::Write(
            Register::IODIRB,
            if mode == PinMode::INPUT {
                0xffu8
            } else {
                0x00u8
            },
        ),
        planned(Request::AllPinMode { mode }, seq![Reply::Written, Reply::Written]) == Action::Finish(
            Outcome::Done,
        ),
{
}

/// The interrupt search reads the interrupt flag registers (addresses 0x0E
/// and 0x0F), and the captured value is read from the interrupt capture
/// register of the pin's port (0x10 for pins 0-7, 0x11 for the others).
pub proof fn lemma_interrupt_registers(intf_a: u8, intf_b: u8)
    ensures
        planned(Request::GetLastInterruptPin, seq![]) matches Action::Read(r) && r.spec_address() == 0x0E,
        intf_a == 0 ==> (planned(Request::GetLastInterruptPin, seq![Reply::Value(intf_a)]) matches Action::Read(r)
            && r.spec_address() == 0x0F),
        planned(Request::GetLastInterruptPin, flag_replies(intf_a, intf_b)) matches Action::Finish(
            Outcome::Pin(p),
        ) ==> (planned(Request::GetLastInterruptValue, flag_replies(intf_a, intf_b)) matches Action::Read(r)
            && r.spec_address() == if p < 8 {
            0x10u8
        } else {
            0x11u8
        }),
{
    lemma_last_interrupt_value_reads_capture(intf_a, intf_b, 0);
}

/// Bit `i` of a byte is its `i`-th binary digit: the value divided by 2 to the
/// `i`, modulo 2.
pub proof fn lemma_bits_are_binary_digits(v: u8)
    ensures
        bit_of(v, 0) <==> v % 2 == 1,
        bit_of(v, 1) <==> (v / 2) % 2 == 1,
        bit_of(v, 2) <==> (v / 4) % 2 == 1,
        bit_of(v, 3) <==> (v / 8) % 2 == 1,
        bit_of(v, 4) <==> (v / 16) % 2 == 1,
        bit_of(v, 5) <==> (v / 32) % 2 == 1,
        bit_of(v, 6) <==> (v / 64) % 2 == 1,
        bit_of(v, 7) <==> (v / 128) % 2 == 1,
{
    assert(((v >> 0u8) & 1u8 == 1u8) <==> v % 2 == 1) by (bit_vector);
    assert(((v >> 1u8) & 1u8 == 1u8) <==> (v / 2) % 2 == 1) by (bit_vector);
    assert(((v >> 2u8) & 1u8 == 1u8) <==> (v / 4) % 2 == 1) by (bit_vector);
    assert(((v >> 3u8) & 1u8 == 1u8) <==> (v / 8) % 2 == 1) by (bit_vector);
    assert(((v >> 4u8) & 1u8 == 1u8) <==> (v / 16) % 2 == 1) by (bit_vector);
    assert(((v >> 5u8) & 1u8 == 1u8) <==> (v / 32) % 2 == 1) by (bit_vector);
    assert(((v >> 6u8) & 1u8 == 1u8) <==> (v / 64) % 2 == 1) by (bit_vector);
    assert(((v >> 7u8) & 1u8 == 1u8) <==> (v / 128) % 2 == 1) by (bit_vector);
}

} // verus!
