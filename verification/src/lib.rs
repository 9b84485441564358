//! Register-level driver for the ICM-42670-P 6-axis inertial sensor, accessed
//! over a two-wire serial bus with 7-bit device addressing.
//!
//! The driver is generic over any bus that offers a combined-write and a
//! write-then-read transaction (the [`bus::I2cBus`] trait). Every public
//! operation is specified in terms of the exact sequence of bus transactions
//! it issues, recorded in a ghost transaction log.

pub mod bus;
pub mod compose;
pub mod driver;
pub mod registers;
pub mod scripted;

pub use driver::ICM42670P;
pub use registers::DeviceAddr;
pub use registers::PwrMgmt0Bits;
pub use registers::Register;
