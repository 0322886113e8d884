# kessler_payload

Firmware logic of the Kessler payload board (MSP430FR2355), written in Verus.

The library (`src/`) holds what the board decides and computes, each function
with a contract that Verus proves:

- `hal/` — eUSCI SPI configuration: prescaler, control-register settings and
  the register writes that apply them.
- `spi` — the bit-banged payload and on-board-computer SPI buses: MOSI levels,
  each transaction planned as a sequence of bus steps (`spi/steps`), and how
  samples make up a word.
- `adc`, `dac`, `digipot` — packets and conversions of the payload's SPI
  peripherals.
- `pcb_mapping/` — sensor and supply-control equations, channel assignments
  and limits.
- `payload`, `sensors` — the payload's power states, supply set points and
  sensor readings; pin writes and SPI frames are returned to the caller.
- `serial` — reading what the user types on the debug port, and decimal
  printing of fixed-point values.
- `testing/` — self-test bookkeeping: relative percent difference, running
  averages, accuracy sweeps and pass/fail decisions.
- `tvac` — the thermal-vacuum test schedule.
- `board` — the pin map, the idle LED pattern and the busy-wait delay.
- `fixed_point` — the calls into the `fixed` crate, each behind a contract.

`app/` drives the hardware through `embedded-hal` traits and runs the tests
and the TVAC schedule; `tests/` exercises the library on concrete values.
