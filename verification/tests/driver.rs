//! Wire-level tests of the driver against the in-memory scripted bus: each
//! test scripts the bus's answers, drives the public API, and checks both
//! the returned values and the exact transactions that reached the bus.

use icm42670p::scripted::BusRecord;
use icm42670p::scripted::ScriptedBus;
use icm42670p::DeviceAddr;
use icm42670p::PwrMgmt0Bits;
use icm42670p::Register;
use icm42670p::ICM42670P;

/// A bus transport error as a mock implementation would report it.
#[derive(Debug, Clone, Copy, PartialEq, Eq)]
enum BusFault {
    NoAck,
    Timeout,
}

fn driver_on(
    script: Vec<Result<u8, BusFault>>,
    address: DeviceAddr,
) -> ICM42670P<ScriptedBus<BusFault>> {
    match ICM42670P::new(ScriptedBus::new(script), address) {
        Ok(driver) => driver,
        Err(_) => panic!("construction performs no bus transaction and cannot fail"),
    }
}

#[test]
fn new_always_succeeds_and_issues_no_transaction() {
    let driver = driver_on(Vec::new(), DeviceAddr::AD0);
    let bus = driver.release();
    assert_eq!(bus.records().len(), 0);
}

#[test]
fn device_addr_bytes_match_the_strap_options() {
    assert_eq!(DeviceAddr::AD0.byte(), 0x68);
    assert_eq!(DeviceAddr::AD1.byte(), 0x69);
}

#[test]
fn register_addresses_match_the_memory_map() {
    assert_eq!(Register::AccelDataX1.address(), 0x0B);
    assert_eq!(Register::AccelDataX0.address(), 0x0C);
    assert_eq!(Register::AccelDataY1.address(), 0x0D);
    assert_eq!(Register::AccelDataY0.address(), 0x0E);
    assert_eq!(Register::AccelDataZ1.address(), 0x0F);
    assert_eq!(Register::AccelDataZ0.address(), 0x10);
    assert_eq!(Register::PwrMgmt0.address(), 0x1F);
}

#[test]
fn low_noise_command_pattern_is_0x03() {
    assert_eq!(PwrMgmt0Bits::AccelLowNoiseMode.bits(), 0x03);
}

#[test]
fn write_register_issues_one_transaction_with_address_then_value() {
    let mut driver = driver_on(Vec::new(), DeviceAddr::AD0);
    let r = driver.write_register(Register::AccelDataY0, 0xAB);
    assert_eq!(r, Ok(()));
    let bus = driver.release();
    let records = bus.records();
    assert_eq!(records.len(), 1);
    match &records[0] {
        BusRecord::Write { addr, bytes, outcome } => {
            assert_eq!(*addr, 0x68);
            assert_eq!(bytes.as_slice(), &[0x0E, 0xAB]);
            assert_eq!(*outcome, Ok(()));
        }
        BusRecord::WriteRead { .. } => panic!("expected a combined-write transaction"),
    }
}

#[test]
fn write_register_returns_the_bus_error_unchanged() {
    let mut driver = driver_on(vec![Err(BusFault::NoAck)], DeviceAddr::AD0);
    let r = driver.write_register(Register::PwrMgmt0, 0x00);
    assert_eq!(r, Err(BusFault::NoAck));
    let bus = driver.release();
    assert_eq!(bus.records().len(), 1);
}

#[test]
fn read_register_issues_one_transaction_and_returns_the_read_byte() {
    let mut driver = driver_on(vec![Ok(0x5A)], DeviceAddr::AD0);
    let r = driver.read_register(Register::AccelDataZ1);
    assert_eq!(r, Ok(0x5A));
    let bus = driver.release();
    let records = bus.records();
    assert_eq!(records.len(), 1);
    match &records[0] {
        BusRecord::WriteRead { addr, bytes, outcome } => {
            assert_eq!(*addr, 0x68);
            assert_eq!(bytes.as_slice(), &[0x0F]);
            assert_eq!(*outcome, Ok(0x5A));
        }
        BusRecord::Write { .. } => panic!("expected a write-then-read transaction"),
    }
}

#[test]
fn read_register_returns_the_bus_error_unchanged() {
    let mut driver = driver_on(vec![Err(BusFault::Timeout)], DeviceAddr::AD1);
    let r = driver.read_register(Register::AccelDataX0);
    assert_eq!(r, Err(BusFault::Timeout));
}

#[test]
fn read_register_as_u16_puts_the_upper_byte_in_the_high_bits() {
    let mut driver = driver_on(vec![Ok(0xAB), Ok(0xCD)], DeviceAddr::AD0);
    let r = driver.read_register_as_u16(Register::AccelDataX1, Register::AccelDataX0);
    assert_eq!(r, Ok(0xABCD));
}

#[test]
fn read_register_as_u16_boundary_all_zero() {
    let mut driver = driver_on(vec![Ok(0x00), Ok(0x00)], DeviceAddr::AD0);
    let r = driver.read_register_as_u16(Register::AccelDataY1, Register::AccelDataY0);
    assert_eq!(r, Ok(0x0000));
}

#[test]
fn read_register_as_u16_boundary_all_ones() {
    let mut driver = driver_on(vec![Ok(0xFF), Ok(0xFF)], DeviceAddr::AD0);
    let r = driver.read_register_as_u16(Register::AccelDataZ1, Register::AccelDataZ0);
    assert_eq!(r, Ok(0xFFFF));
}

#[test]
fn read_register_as_u16_reads_upper_register_first() {
    let mut driver = driver_on(vec![Ok(0x01), Ok(0x02)], DeviceAddr::AD0);
    let r = driver.read_register_as_u16(Register::AccelDataX1, Register::AccelDataX0);
    assert_eq!(r, Ok(0x0102));
    let bus = driver.release();
    let records = bus.records();
    assert_eq!(records.len(), 2);
    match &records[0] {
        BusRecord::WriteRead { bytes, .. } => assert_eq!(bytes.as_slice(), &[0x0B]),
        BusRecord::Write { .. } => panic!("expected a write-then-read transaction"),
    }
    match &records[1] {
        BusRecord::WriteRead { bytes, .. } => assert_eq!(bytes.as_slice(), &[0x0C]),
        BusRecord::Write { .. } => panic!("expected a write-then-read transaction"),
    }
}

#[test]
fn read_register_as_u16_upper_failure_skips_the_lower_read() {
    let mut driver = driver_on(vec![Err(BusFault::NoAck), Ok(0x34)], DeviceAddr::AD0);
    let r = driver.read_register_as_u16(Register::AccelDataX1, Register::AccelDataX0);
    assert_eq!(r, Err(BusFault::NoAck));
    let bus = driver.release();
    assert_eq!(bus.records().len(), 1);
}

#[test]
fn set_accel_in_low_noise_mode_writes_0x03_to_0x1f_and_nothing_else() {
    let mut driver = driver_on(Vec::new(), DeviceAddr::AD0);
    let r = driver.set_accel_in_low_noise_mode();
    assert_eq!(r, Ok(()));
    let bus = driver.release();
    let records = bus.records();
    assert_eq!(records.len(), 1);
    match &records[0] {
        BusRecord::Write { addr, bytes, outcome } => {
            assert_eq!(*addr, 0x68);
            assert_eq!(bytes.as_slice(), &[0x1F, 0x03]);
            assert_eq!(*outcome, Ok(()));
        }
        BusRecord::WriteRead { .. } => panic!("expected a combined-write transaction"),
    }
}

#[test]
fn device_address_changes_only_the_address_byte_of_transactions() {
    let script = vec![Ok(0x10), Ok(0x20), Ok(0x30)];
    let mut on_ad0 = driver_on(script.clone(), DeviceAddr::AD0);
    let mut on_ad1 = driver_on(script, DeviceAddr::AD1);
    assert_eq!(on_ad0.set_accel_in_low_noise_mode(), Ok(()));
    assert_eq!(on_ad1.set_accel_in_low_noise_mode(), Ok(()));
    assert_eq!(on_ad0.read_accel_x(), on_ad1.read_accel_x());
    let records_ad0 = on_ad0.release();
    let records_ad1 = on_ad1.release();
    let records_ad0 = records_ad0.records();
    let records_ad1 = records_ad1.records();
    assert_eq!(records_ad0.len(), records_ad1.len());
    for (a, b) in records_ad0.iter().zip(records_ad1.iter()) {
        match (a, b) {
            (
                BusRecord::Write { addr: a0, bytes: b0, outcome: o0 },
                BusRecord::Write { addr: a1, bytes: b1, outcome: o1 },
            ) => {
                assert_eq!(*a0, 0x68);
                assert_eq!(*a1, 0x69);
                assert_eq!(b0, b1);
                assert_eq!(o0, o1);
            }
            (
                BusRecord::WriteRead { addr: a0, bytes: b0, outcome: o0 },
                BusRecord::WriteRead { addr: a1, bytes: b1, outcome: o1 },
            ) => {
                assert_eq!(*a0, 0x68);
                assert_eq!(*a1, 0x69);
                assert_eq!(b0, b1);
                assert_eq!(o0, o1);
            }
            _ => panic!("the two traces must have the same transaction kinds"),
        }
    }
}

#[test]
fn read_accel_x_composes_scripted_bytes_msb_first() {
    let mut driver = driver_on(vec![Ok(0x12), Ok(0x34)], DeviceAddr::AD0);
    let r = driver.read_accel_x();
    assert_eq!(r, Ok(0x1234));
    let bus = driver.release();
    let records = bus.records();
    assert_eq!(records.len(), 2);
    match &records[0] {
        BusRecord::WriteRead { addr, bytes, outcome } => {
            assert_eq!(*addr, 0x68);
            assert_eq!(bytes.as_slice(), &[0x0B]);
            assert_eq!(*outcome, Ok(0x12));
        }
        BusRecord::Write { .. } => panic!("expected a write-then-read transaction"),
    }
    match &records[1] {
        BusRecord::WriteRead { addr, bytes, outcome } => {
            assert_eq!(*addr, 0x68);
            assert_eq!(bytes.as_slice(), &[0x0C]);
            assert_eq!(*outcome, Ok(0x34));
        }
        BusRecord::Write { .. } => panic!("expected a write-then-read transaction"),
    }
}

#[test]
fn read_accel_y_returns_the_lower_byte_failure_not_a_partial_value() {
    let mut driver = driver_on(vec![Ok(0x12), Err(BusFault::NoAck)], DeviceAddr::AD0);
    let r = driver.read_accel_y();
    assert_eq!(r, Err(BusFault::NoAck));
    let bus = driver.release();
    let records = bus.records();
    assert_eq!(records.len(), 2);
    match &records[1] {
        BusRecord::WriteRead { bytes, outcome, .. } => {
            assert_eq!(bytes.as_slice(), &[0x0E]);
            assert_eq!(*outcome, Err(BusFault::NoAck));
        }
        BusRecord::Write { .. } => panic!("expected a write-then-read transaction"),
    }
}

#[test]
fn read_accel_z_uses_the_z_axis_register_pair() {
    let mut driver = driver_on(vec![Ok(0x7F), Ok(0x01)], DeviceAddr::AD1);
    let r = driver.read_accel_z();
    assert_eq!(r, Ok(0x7F01));
    let bus = driver.release();
    let records = bus.records();
    assert_eq!(records.len(), 2);
    match (&records[0], &records[1]) {
        (
            BusRecord::WriteRead { addr: a0, bytes: b0, .. },
            BusRecord::WriteRead { addr: a1, bytes: b1, .. },
        ) => {
            assert_eq!(*a0, 0x69);
            assert_eq!(*a1, 0x69);
            assert_eq!(b0.as_slice(), &[0x0F]);
            assert_eq!(b1.as_slice(), &[0x10]);
        }
        _ => panic!("expected two write-then-read transactions"),
    }
}

#[test]
fn exhausted_script_acknowledges_writes_and_reads_zero() {
    let mut driver = driver_on(Vec::new(), DeviceAddr::AD0);
    assert_eq!(driver.set_accel_in_low_noise_mode(), Ok(()));
    assert_eq!(driver.read_accel_x(), Ok(0x0000));
    let bus = driver.release();
    assert_eq!(bus.records().len(), 3);
}

#[test]
fn every_read_issues_fresh_transactions() {
    let mut driver = driver_on(vec![Ok(0x11), Ok(0x22), Ok(0x33), Ok(0x44)], DeviceAddr::AD0);
    assert_eq!(driver.read_accel_x(), Ok(0x1122));
    assert_eq!(driver.read_accel_x(), Ok(0x3344));
    let bus = driver.release();
    assert_eq!(bus.records().len(), 4);
}
