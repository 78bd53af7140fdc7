# mcp23s17

Driver for the MCP23S17 16-bit SPI I/O expander, with its logic verified by Verus.

- `src/` is the verified library:
  - `bits`: setting and reading single bits of a register value, pin-to-bit mapping;
  - `modes`: pin modes, interrupt modes, polarity, ports, the error type;
  - `registers`: the register map (`IOCON.BANK=0`), the SPI frames that read and
    write registers, and the decoding of what the bus gives back;
  - `session`: each driver operation as a sequence of register accesses, run by a
    `Session` that hands out the next access and takes back the bus's reply (or its
    failure);
  - `laws`: properties that span these functions (read-back of written bits, the
    read-modify-write of a pin's bit, both ports configured alike, the lowest flagged
    interrupt pin, `IOCON.BANK` never changed, a failed access ending the operation,
    every operation over within six accesses).
- `app/` is the `MCP23S17` driver type over `embedded-hal` 0.2: it owns the SPI bus and
  the chip-select pin, performs the accesses a session asks for, and maps the answers to
  the driver's return types.
- `tests/` exercises the library, with a register file standing in for the chip.
