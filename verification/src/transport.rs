//! The two-wire bus transport the driver runs on.
//!
//! The driver is generic over a blocking transport that offers a plain write
//! and a combined write-then-read, both keyed by a 7-bit device address. Each
//! implementation carries a ghost history of the transactions it completed
//! successfully, so every driver contract can state exactly which bytes an
//! operation put on the bus.

use vstd::prelude::*;

verus! {

/// One successfully completed bus transaction.
pub enum BusOp {
    /// A plain write of `data` to the device at `addr`.
    Write { addr: u8, data: Seq<u8> },
    /// A combined transaction at `addr`: `sent` written, then `received` read
    /// back.
    WriteRead { addr: u8, sent: Seq<u8>, received: Seq<u8> },
}

/// A blocking two-wire bus.
///
/// `log` is the history of successfully completed transactions. A failed call
/// leaves the history unchanged: whatever the wire saw during the failure is
/// not modelled, which is why the driver treats its register cache as
/// possibly desynchronized after an error.
pub trait Transport: Sized {
    /// The transport's own error value, wrapped unmodified by the driver.
    type BusError;

    /// The transactions completed so far. An implementation that keeps the
    /// default (always-empty) history cannot report a successful transaction
    /// to verified callers; a verified implementation overrides it.
    open spec fn log(&self) -> Seq<BusOp> {
        Seq::empty()
    }

    /// Write `data` to the device at `addr`.
    fn bus_write(&mut self, addr: u8, data: &[u8]) -> (res: Result<(), Self::BusError>)
        ensures
            match res {
                Ok(()) => final(self).log() == old(self).log().push(
                    BusOp::Write { addr, data: data@ },
                ),
                Err(_) => final(self).log() == old(self).log(),
            },
    ;

    /// Write `sent` to the device at `addr`, then read back exactly `count`
    /// bytes in the same transaction.
    fn bus_write_read(&mut self, addr: u8, sent: &[u8], count: usize) -> (res: Result<
        Vec<u8>,
        Self::BusError,
    >)
        ensures
            match res {
                Ok(received) => {
                    &&& received@.len() == count
                    &&& final(self).log() == old(self).log().push(
                        BusOp::WriteRead { addr, sent: sent@, received: received@ },
                    )
                },
                Err(_) => final(self).log() == old(self).log(),
            },
    ;
}

} // verus!
