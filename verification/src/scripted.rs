//! An in-memory bus for exercising the driver without hardware: it records
//! every transaction issued on it and answers each one from a fixed script
//! of outcomes. This decouples the driver from any concrete transport and
//! lets a test hold the driver's contracts against a wire-level trace.

use vstd::prelude::*;

use crate::bus::I2cBus;
use crate::bus::Transaction;

verus! {

/// One transaction as recorded at run time by [`ScriptedBus`]: the
/// executable mirror of [`Transaction`], with the bytes written held in a
/// `Vec`.
#[allow(inconsistent_fields)]
#[derive(Debug)]
pub enum BusRecord<E> {
    /// A combined write of `bytes` to the device at 7-bit address `addr`.
    Write { addr: u8, bytes: Vec<u8>, outcome: Result<(), E> },
    /// A single transaction writing `bytes` to the device at 7-bit address
    /// `addr`, then reading exactly one byte back from it.
    WriteRead { addr: u8, bytes: Vec<u8>, outcome: Result<u8, E> },
}

impl<E> View for BusRecord<E> {
    type V = Transaction<E>;

    open spec fn view(&self) -> Transaction<E> {
        match self {
            BusRecord::Write { addr, bytes, outcome } => Transaction::Write {
                addr: *addr,
                bytes: bytes@,
                outcome: *outcome,
            },
            BusRecord::WriteRead { addr, bytes, outcome } => Transaction::WriteRead {
                addr: *addr,
                bytes: bytes@,
                outcome: *outcome,
            },
        }
    }
}

/// A bus that answers transactions from a script and records every one of
/// them.
///
/// The `n`-th transaction issued on the bus consumes the `n`-th script
/// entry: for a combined write, an `Ok(_)` entry means the transaction is
/// acknowledged and an `Err(e)` entry that it fails with `e`; for a
/// write-then-read the entry is the outcome itself, the `Ok` byte being the
/// byte read back. Once the script has run out, the bus acknowledges every
/// write and answers every read with zero.
pub struct ScriptedBus<E> {
    script: Vec<Result<u8, E>>,
    records: Vec<BusRecord<E>>,
}

impl<E> ScriptedBus<E> {
    /// The transactions issued on this bus so far, oldest first.
    pub closed spec fn taken_log(self) -> Seq<Transaction<E>> {
        self.records@.map_values(|r: BusRecord<E>| r@)
    }

    /// The script entries not yet consumed, next first.
    pub closed spec fn remaining_script(self) -> Seq<Result<u8, E>> {
        self.script@
    }

    /// A fresh bus with an empty log that will answer transactions from
    /// `script`, in order.
    pub fn new(script: Vec<Result<u8, E>>) -> (r: ScriptedBus<E>)
        ensures
            r.taken_log() == Seq::<Transaction<E>>::empty(),
            r.remaining_script() == script@,
    {
        let r = ScriptedBus { script, records: Vec::new() };
        proof {
            assert(r.taken_log() =~= Seq::<Transaction<E>>::empty());
        }
        r
    }

    /// The recorded transactions, for inspection: element by element the
    /// executable form of the ghost log.
    pub fn records(&self) -> (r: &Vec<BusRecord<E>>)
        ensures
            r@.map_values(|b: BusRecord<E>| b@) == self.taken_log(),
    {
        &self.records
    }
}

impl<E: Copy> I2cBus for ScriptedBus<E> {
    type Error = E;

    open spec fn log(&self) -> Seq<Transaction<E>> {
        self.taken_log()
    }

    fn write(&mut self, addr: u8, bytes: &[u8]) -> (r: Result<(), E>)
        ensures
            old(self).remaining_script().len() > 0 ==> {
                &&& final(self).remaining_script() == old(self).remaining_script().drop_first()
                &&& r == (match old(self).remaining_script()[0] {
                    Ok(_) => Ok::<(), E>(()),
                    Err(e) => Err(e),
                })
            },
            old(self).remaining_script().len() == 0 ==> {
                &&& final(self).remaining_script() == old(self).remaining_script()
                &&& r == Ok::<(), E>(())
            },
    {
        let outcome: Result<(), E> = if self.script.len() > 0 {
            match self.script.remove(0) {
                Ok(_) => Ok(()),
                Err(e) => Err(e),
            }
        } else {
            Ok(())
        };
        let record = BusRecord::Write { addr, bytes: vstd::slice::slice_to_vec(bytes), outcome };
        self.records.push(record);
        proof {
            assert(self.taken_log() =~= old(self).taken_log().push(
                (Transaction::Write { addr, bytes: bytes@, outcome }),
            ));
        }
        outcome
    }

    fn write_read_byte(&mut self, addr: u8, bytes: &[u8]) -> (r: Result<u8, E>)
        ensures
            old(self).remaining_script().len() > 0 ==> {
                &&& final(self).remaining_script() == old(self).remaining_script().drop_first()
                &&& r == old(self).remaining_script()[0]
            },
            old(self).remaining_script().len() == 0 ==> {
                &&& final(self).remaining_script() == old(self).remaining_script()
                &&& r == Ok::<u8, E>(0)
            },
    {
        let outcome: Result<u8, E> = if self.script.len() > 0 {
            self.script.remove(0)
        } else {
            Ok(0)
        };
        let record = BusRecord::WriteRead {
            addr,
            bytes: vstd::slice::slice_to_vec(bytes),
            outcome,
        };
        self.records.push(record);
        proof {
            assert(self.taken_log() =~= old(self).taken_log().push(
                (Transaction::WriteRead { addr, bytes: bytes@, outcome }),
            ));
        }
        outcome
    }
}

} // verus!
