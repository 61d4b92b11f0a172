//! Register-level models of the G233 board peripherals: a GPIO block, two
//! SPI controllers and a watchdog timer. Each device is a plain state value
//! whose MMIO accesses return the register value read and the effects
//! (interrupt levels, chip-select levels, bus transfers, timer commands)
//! that the embedding machine must carry out.

pub mod bits;
pub mod gpio;
pub mod ssi;
pub mod spi;
pub mod rspi;
pub mod wdt;
