//! A verified model of a small bare-metal kernel core: the reset-to-runtime
//! bootstrap sequence, a safe-access layer over memory-mapped peripheral
//! registers, a resource lock, a compile-time pin capability model, a driver
//! registration framework, and a timing-accurate software serial (bit-banged
//! UART) transmitter built on top of them.

pub mod boot;
pub mod driver;
pub mod gpio;
pub mod pin;
pub mod registers;
pub mod synchronization;
pub mod uart;
