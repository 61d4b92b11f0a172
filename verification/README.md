# g233_devices

Verified register models of the G233 board peripherals for QEMU:

- `src/gpio.rs`: 32-pin GPIO block (direction, output, pin level, interrupt configuration).
- `src/ssi.rs`: status/interrupt rules shared by the two SPI controllers.
- `src/spi.rs`: SPI controller with two chip-select lines.
- `src/rspi.rs`: SPI controller with an enable bit and one chip-select line.
- `src/wdt.rs`: watchdog timer with reload value, lock key and expiry actions.
- `src/bits.rs`: bit helper used in the contracts.

Each device is a plain value. A guest access returns the value read and the
effects the machine must perform (interrupt and chip-select levels, bus
transfers, timer commands). A data-register write ends in a `Transfer`
effect; the word received from the bus is handed back with
`complete_transfer`. Every access is specified by a spec function of the
register file, and the laws of the devices are proof functions beside them.

`app/` holds the QEMU object-model glue that registers the devices and
carries out the effects; it needs QEMU's own Rust crates.
