//! The driver handle: owns the bus connection and the device address chosen
//! at construction, and exposes the sensor operations. Every operation's
//! contract pins down the exact transactions it appends to the bus log.

use vstd::prelude::*;

use crate::bus::I2cBus;
use crate::bus::Transaction;
use crate::compose::combine16;
use crate::compose::hi8;
use crate::compose::lemma_combine16_parts;
use crate::compose::lo8;
use crate::registers::DeviceAddr;
use crate::registers::PwrMgmt0Bits;
use crate::registers::Register;

verus! {

/// The one transaction a register write issues: a combined write of the
/// register's address followed by the value, addressed to the device.
pub open spec fn write_txn<E>(
    device: DeviceAddr,
    register: Register,
    data: u8,
    outcome: Result<(), E>,
) -> Transaction<E> {
    Transaction::Write { addr: device.spec_byte(), bytes: seq![register.spec_address(), data], outcome }
}

/// The one transaction a register read issues: a write of the register's
/// address followed by a read phase of exactly one byte, addressed to the
/// device.
pub open spec fn read_txn<E>(
    device: DeviceAddr,
    register: Register,
    outcome: Result<u8, E>,
) -> Transaction<E> {
    Transaction::WriteRead { addr: device.spec_byte(), bytes: seq![register.spec_address()], outcome }
}

/// How a composed two-register read evolves the bus log. On success, exactly
/// two successful read transactions were issued — upper register first — and
/// their response bytes are the high and the low byte of the result. On
/// failure, either the upper-byte transaction failed and nothing more was
/// issued, or it succeeded and the lower-byte transaction failed; either way
/// the failing transaction's error is the one returned and no composed value
/// is produced.
pub open spec fn composed_read_log<E>(
    pre: Seq<Transaction<E>>,
    post: Seq<Transaction<E>>,
    device: DeviceAddr,
    upper_register: Register,
    lower_register: Register,
    r: Result<u16, E>,
) -> bool {
    match r {
        Ok(v) => post == pre.push(read_txn(device, upper_register, Ok(hi8(v)))).push(
            read_txn(device, lower_register, Ok(lo8(v))),
        ),
        Err(e) => {
            ||| post == pre.push(read_txn(device, upper_register, Err(e)))
            ||| exists|upper: u8|
                post == pre.push(#[trigger] read_txn(device, upper_register, Ok(upper))).push(
                    read_txn(device, lower_register, Err(e)),
                )
        },
    }
}

/// A successful composed read returns exactly the combination of the two
/// response bytes the bus log shows for it: if the log grew by a successful
/// upper-byte read answering `upper` and a successful lower-byte read
/// answering `lower`, the value returned is `combine16(upper, lower)` — the
/// upper byte shifted into the high eight bits, or'd with the lower byte.
pub proof fn lemma_composed_read_combines<E>(
    pre: Seq<Transaction<E>>,
    post: Seq<Transaction<E>>,
    device: DeviceAddr,
    upper_register: Register,
    lower_register: Register,
    v: u16,
    upper: u8,
    lower: u8,
)
    requires
        composed_read_log(pre, post, device, upper_register, lower_register, Ok(v)),
        post == pre.push(read_txn(device, upper_register, Ok(upper))).push(
            read_txn(device, lower_register, Ok(lower)),
        ),
    ensures
        v == combine16(upper, lower),
        upper == hi8(v),
        lower == lo8(v),
{
    let n = pre.len() as int;
    assert(post[n] == read_txn(device, upper_register, Ok::<u8, E>(upper)));
    assert(post[n] == read_txn(device, upper_register, Ok::<u8, E>(hi8(v))));
    assert(post[n + 1] == read_txn(device, lower_register, Ok::<u8, E>(lower)));
    assert(post[n + 1] == read_txn(device, lower_register, Ok::<u8, E>(lo8(v))));
    crate::compose::lemma_combine16_split(v);
}

/// Choosing device address AD0 instead of AD1 (or the other way round)
/// changes only the device-address byte of each transaction the driver
/// issues: the bytes written — register addresses, command and data bytes —
/// and the outcome are the same for both, and the address byte is exactly
/// the chosen device's address byte.
pub proof fn lemma_device_addr_affects_only_addr<E>(
    d1: DeviceAddr,
    d2: DeviceAddr,
    register: Register,
    data: u8,
    write_outcome: Result<(), E>,
    read_outcome: Result<u8, E>,
)
    ensures
        write_txn(d1, register, data, write_outcome)->Write_addr == d1.spec_byte(),
        write_txn(d2, register, data, write_outcome)->Write_addr == d2.spec_byte(),
        write_txn(d1, register, data, write_outcome)->Write_bytes == write_txn(
            d2,
            register,
            data,
            write_outcome,
        )->Write_bytes,
        write_txn(d1, register, data, write_outcome)->Write_outcome == write_txn(
            d2,
            register,
            data,
            write_outcome,
        )->Write_outcome,
        read_txn(d1, register, read_outcome)->WriteRead_addr == d1.spec_byte(),
        read_txn(d2, register, read_outcome)->WriteRead_addr == d2.spec_byte(),
        read_txn(d1, register, read_outcome)->WriteRead_bytes == read_txn(
            d2,
            register,
            read_outcome,
        )->WriteRead_bytes,
        read_txn(d1, register, read_outcome)->WriteRead_outcome == read_txn(
            d2,
            register,
            read_outcome,
        )->WriteRead_outcome,
{
}

/// Driver handle for the sensor: owns the bus connection exclusively and
/// holds the device address, immutable for the handle's lifetime.
pub struct ICM42670P<I2C> {
    i2c: I2C,
    address: DeviceAddr,
}

impl<I2C: I2cBus> ICM42670P<I2C> {
    /// The bus connection the handle owns.
    pub closed spec fn bus(self) -> I2C {
        self.i2c
    }

    /// The device address fixed at construction.
    pub closed spec fn device(self) -> DeviceAddr {
        self.address
    }

    /// The ghost transaction log of the owned bus.
    pub open spec fn log(self) -> Seq<Transaction<I2C::Error>> {
        self.bus().log()
    }

    /// Take ownership of the bus connection and store the device address.
    /// Construction performs no bus transaction and always succeeds; the
    /// result type leaves room for a future validation step.
    pub fn new(i2c: I2C, address: DeviceAddr) -> (r: Result<Self, I2C::Error>)
        ensures
            r matches Ok(d) && d.bus() == i2c && d.device() == address,
    {
        Ok(Self { i2c, address })
    }

    /// Give the bus connection back, consuming the handle.
    pub fn release(self) -> (r: I2C)
        ensures
            r == self.bus(),
    {
        self.i2c
    }

    /// Write one byte to a register: one combined-write transaction whose
    /// byte sequence is the register's address followed by the value,
    /// addressed to the configured device. Any bus failure is returned
    /// unchanged; nothing is retried.
    pub fn write_register(&mut self, register: Register, data: u8) -> (r: Result<
        (),
        I2C::Error,
    >)
        ensures
            final(self).device() == old(self).device(),
            final(self).log() == old(self).log().push(
                write_txn(old(self).device(), register, data, r),
            ),
    {
        let bytes: [u8; 2] = [register.address(), data];
        self.i2c.write(self.address.byte(), bytes.as_slice())
    }

    /// Read one byte from a register: one write-then-read transaction whose
    /// write phase is the register's address and whose read phase is exactly
    /// one byte, addressed to the configured device. On success the returned
    /// byte is the byte read back; any bus failure is returned unchanged.
    pub fn read_register(&mut self, register: Register) -> (r: Result<u8, I2C::Error>)
        ensures
            final(self).device() == old(self).device(),
            final(self).log() == old(self).log().push(
                read_txn(old(self).device(), register, r),
            ),
    {
        let bytes: [u8; 1] = [register.address()];
        proof {
            assert(bytes@ =~= seq![register.spec_address()]);
        }
        self.i2c.write_read_byte(self.address.byte(), bytes.as_slice())
    }

    /// Read two adjacent one-byte registers — upper first, then lower — and
    /// combine them, most-significant byte first, into one 16-bit raw
    /// reading. The two reads are independent transactions; if either fails,
    /// its error is returned and no composed value is produced, and a failure
    /// of the upper read means the lower register is never touched.
    pub fn read_register_as_u16(
        &mut self,
        register_upper_byte: Register,
        register_lower_byte: Register,
    ) -> (r: Result<u16, I2C::Error>)
        ensures
            final(self).device() == old(self).device(),
            composed_read_log(
                old(self).log(),
                final(self).log(),
                old(self).device(),
                register_upper_byte,
                register_lower_byte,
                r,
            ),
    {
        let upper_byte = match self.read_register(register_upper_byte) {
            Ok(b) => b,
            Err(e) => {
                return Err(e);
            },
        };
        let lower_byte = match self.read_register(register_lower_byte) {
            Ok(b) => b,
            Err(e) => {
                return Err(e);
            },
        };
        proof {
            lemma_combine16_parts(upper_byte, lower_byte);
        }
        Ok(((upper_byte as u16) << 8) | (lower_byte as u16))
    }

    /// Transition the accelerometer from its power-on idle state into
    /// low-noise (continuous sampling) mode: one write of the low-noise
    /// command pattern to the power-management register, and nothing else.
    pub fn set_accel_in_low_noise_mode(&mut self) -> (r: Result<(), I2C::Error>)
        ensures
            final(self).device() == old(self).device(),
            final(self).log() == old(self).log().push(
                write_txn(
                    old(self).device(),
                    Register::PwrMgmt0,
                    PwrMgmt0Bits::AccelLowNoiseMode.spec_bits(),
                    r,
                ),
            ),
    {
        self.write_register(Register::PwrMgmt0, PwrMgmt0Bits::AccelLowNoiseMode.bits())
    }

    /// Read the raw 16-bit X-axis accelerometer count from its upper and
    /// lower register pair.
    pub fn read_accel_x(&mut self) -> (r: Result<u16, I2C::Error>)
        ensures
            final(self).device() == old(self).device(),
            composed_read_log(
                old(self).log(),
                final(self).log(),
                old(self).device(),
                Register::AccelDataX1,
                Register::AccelDataX0,
                r,
            ),
    {
        self.read_register_as_u16(Register::AccelDataX1, Register::AccelDataX0)
    }

    /// Read the raw 16-bit Y-axis accelerometer count from its upper and
    /// lower register pair.
    pub fn read_accel_y(&mut self) -> (r: Result<u16, I2C::Error>)
        ensures
            final(self).device() == old(self).device(),
            composed_read_log(
                old(self).log(),
                final(self).log(),
                old(self).device(),
                Register::AccelDataY1,
                Register::AccelDataY0,
                r,
            ),
    {
        self.read_register_as_u16(Register::AccelDataY1, Register::AccelDataY0)
    }

    /// Read the raw 16-bit Z-axis accelerometer count from its upper and
    /// lower register pair.
    pub fn read_accel_z(&mut self) -> (r: Result<u16, I2C::Error>)
        ensures
            final(self).device() == old(self).device(),
            composed_read_log(
                old(self).log(),
                final(self).log(),
                old(self).device(),
                Register::AccelDataZ1,
                Register::AccelDataZ0,
                r,
            ),
    {
        self.read_register_as_u16(Register::AccelDataZ1, Register::AccelDataZ0)
    }
}

} // verus!
