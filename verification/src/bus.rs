//! The bus-transaction layer: a capability trait for a two-wire serial bus
//! with 7-bit device addressing, specified through a ghost log of every
//! transaction ever issued on the bus.
//!
//! A transaction is either a combined write (one or more bytes written in a
//! single transaction) or a write-then-read (bytes written, then exactly one
//! byte read back, in a single transaction). The log records the device
//! address, the bytes written, and the outcome, so a caller's contract can
//! pin down exactly what reached the wire.

use vstd::prelude::*;

verus! {

/// One bus transaction, as recorded in the ghost log of an [`I2cBus`].
///
/// The `outcome` of a transaction is the value the bus implementation
/// returned for it: for a write-then-read, a successful outcome carries the
/// byte read back; a failed outcome carries the bus error. A failed
/// transaction is still a transaction — it reached (or was attempted on) the
/// wire — so it is logged like any other.
#[allow(inconsistent_fields)]
pub ghost enum Transaction<E> {
    /// A combined write of `bytes` to the device at 7-bit address `addr`.
    Write { addr: u8, bytes: Seq<u8>, outcome: Result<(), E> },
    /// A single transaction writing `bytes` to the device at 7-bit address
    /// `addr`, then reading exactly one byte back from the same device.
    WriteRead { addr: u8, bytes: Seq<u8>, outcome: Result<u8, E> },
}

/// A two-wire serial bus with 7-bit device addressing, supporting combined
/// write and write-then-read transactions.
///
/// Each method issues exactly one bus transaction and appends exactly one
/// entry to the ghost log describing it. The error type is whatever the bus
/// implementation reports (no-acknowledge, arbitration loss, timeout, ...);
/// the driver treats it as opaque and never retries.
pub trait I2cBus: Sized {
    /// The bus implementation's own transport error type.
    type Error;

    /// The ghost log of every transaction issued on this bus so far, oldest
    /// first.
    ///
    /// A verified implementation defines this as the trace of the
    /// transactions it has answered. The default is an arbitrary sequence
    /// that does not change with the bus, under which the method contracts
    /// below cannot be established, so a verified implementation has to
    /// override it; an implementation outside the verifier's reach (a
    /// hardware transport) may leave it — its contracts are taken on trust
    /// either way.
    open spec fn log(&self) -> Seq<Transaction<Self::Error>> {
        arbitrary()
    }

    /// Issue one combined-write transaction: write all of `bytes` to the
    /// device at 7-bit address `addr`.
    fn write(&mut self, addr: u8, bytes: &[u8]) -> (r: Result<(), Self::Error>)
        ensures
            final(self).log() == old(self).log().push(
                (Transaction::Write { addr, bytes: bytes@, outcome: r }),
            ),
    ;

    /// Issue one write-then-read transaction: write all of `bytes` to the
    /// device at 7-bit address `addr`, then read exactly one byte back from
    /// it. On success the returned byte is the byte of the read phase.
    fn write_read_byte(&mut self, addr: u8, bytes: &[u8]) -> (r: Result<u8, Self::Error>)
        ensures
            final(self).log() == old(self).log().push(
                (Transaction::WriteRead { addr, bytes: bytes@, outcome: r }),
            ),
    ;
}

} // verus!
