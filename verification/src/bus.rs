//! The two-wire register bus as an opaque capability.
//!
//! The driver never owns the wire protocol: it is handed a value whose type
//! implements [`Bus`] and issues atomic register transactions through it.
//! Each implementation carries a ghost log of the transactions performed so
//! far, so that the driver's contracts can state, in order, exactly which
//! registers were read and written.

use vstd::prelude::*;

verus! {

/// One atomic transaction on the register bus, as recorded in the ghost
/// transaction log of a [`Bus`] implementation.
pub enum BusOp {
    /// A burst read starting at register `reg` that returned `data`.
    Read { reg: u8, data: Seq<u8> },
    /// A write of `value` to the single register `reg`.
    Write { reg: u8, value: u8 },
    /// A pause of `ms` milliseconds with no bus traffic.
    Delay { ms: u64 },
}

impl BusOp {
    /// The operation is a burst read of `n` bytes starting at register `reg`.
    pub open spec fn is_read_of(self, reg: u8, n: int) -> bool {
        self matches BusOp::Read { reg: r, data } && r == reg && data.len() == n
    }

    /// The bytes a read operation returned (empty for writes and delays).
    pub open spec fn read_data(self) -> Seq<u8> {
        match self {
            BusOp::Read { data, .. } => data,
            _ => Seq::empty(),
        }
    }
}

/// A transport capability for the device's register bus.
///
/// The two transactions are atomic with respect to the device: a burst read
/// writes the starting register address and then reads `n` consecutive
/// bytes; a register write transfers the address and one value. Bus
/// transactions are ordered and synchronous; each returns before the next is
/// issued. A failed transaction surfaces the transport's own fault value and
/// promises nothing about the log.
///
/// Nothing is assumed about the bytes a read returns: the driver is verified
/// for every possible reply. The ghost log `ops` only records what was asked
/// of the bus and what came back.
pub trait Bus: Sized {
    /// The fault value a failed bus transaction surfaces.
    type Fault;

    /// Ghost log of the transactions performed so far, oldest first. The
    /// log is ghost and never exists at run time; implementations outside
    /// the verified world keep the default, which the driver never assumes
    /// anything about.
    open spec fn ops(&self) -> Seq<BusOp> {
        Seq::empty()
    }

    /// Write the register address `reg`, then read `n` bytes in one
    /// transaction.
    fn burst_read(&mut self, reg: u8, n: usize) -> (r: Result<Vec<u8>, Self::Fault>)
        ensures
            r matches Ok(data) ==> data@.len() == n && final(self).ops() == old(self).ops().push(
                (BusOp::Read { reg, data: data@ }),
            ),
    ;

    /// Write `value` to the register at address `reg` in one transaction.
    fn write_register(&mut self, reg: u8, value: u8) -> (r: Result<(), Self::Fault>)
        ensures
            r matches Ok(u) ==> final(self).ops() == old(self).ops().push(
                (BusOp::Write { reg, value }),
            ),
    ;

    /// Leave the bus idle for at least `ms` milliseconds.
    fn delay_ms(&mut self, ms: u64)
        ensures
            final(self).ops() == old(self).ops().push((BusOp::Delay { ms })),
    ;
}

} // verus!
