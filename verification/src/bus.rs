//! The abstract collaborators the controller is driven through: the byte
//! transport, the wake-up pin and the blocking delay source.
//!
//! Each trait carries a ghost history. A transport records every completed
//! bus operation, a pin records every level it was driven to, a delay source
//! records every wait. The controller's contracts are stated over these
//! histories: which operations a call appends, in which order, and with which
//! bytes. An implementor that fails an operation reports it without recording
//! it; whether a failed multi-byte operation had a partial effect on the
//! device is the implementor's affair, and the controller performs no
//! rollback.

use vstd::prelude::*;

verus! {

/// One completed bus operation: a register write or read, with the device
/// address, the register address and the value carried.
#[derive(Copy, Clone, Debug, PartialEq, Eq, Structural)]
#[allow(inconsistent_fields)]
pub enum BusOp {
    WriteU8 { addr: u8, reg: u8, value: u8 },
    WriteBeU16 { addr: u8, reg: u8, value: u16 },
    ReadU8 { addr: u8, reg: u8, value: u8 },
    ReadBeU16 { addr: u8, reg: u8, value: u16 },
    ReadBeU24 { addr: u8, reg: u8, value: u32 },
}

/// Holds when `after` extends `before` by a read of `reg` followed by a write
/// of the same register with the read value or'd with `bit`: a
/// read-modify-write that sets `bit` and preserves every other bit.
pub open spec fn reads_then_sets_bit(
    before: Seq<BusOp>,
    after: Seq<BusOp>,
    addr: u8,
    reg: u8,
    bit: u8,
) -> bool {
    exists|m: u8|
        after == before.push((BusOp::ReadU8 { addr, reg, value: m })).push(
            (BusOp::WriteU8 { addr, reg, value: m | bit }),
        )
}

/// Holds when `after` extends `before` by a single read of `reg`, whatever
/// value it returned.
pub open spec fn reads_register(before: Seq<BusOp>, after: Seq<BusOp>, addr: u8, reg: u8) -> bool {
    exists|m: u8| after == before.push((BusOp::ReadU8 { addr, reg, value: m }))
}

/// The byte transport the controller drives: register reads and writes
/// addressed by device address and register address. Multi-byte quantities
/// are big-endian on the wire.
///
/// Success is the implementor's to decide (the real bus may time out or be
/// refused by the device at any step), so nothing here promises an `Ok`. What
/// is promised: a completed operation is recorded exactly once with the bytes
/// it carried, and a failed one is not recorded.
pub trait IddBus: Sized {
    /// The transport's own error type, surfaced to the caller unmodified.
    type Error;

    /// The history of completed operations, oldest first.
    spec fn ops(&self) -> Seq<BusOp>;

    /// Writes one byte to a register.
    fn write_u8(&mut self, addr: u8, reg: u8, value: u8) -> (r: Result<(), Self::Error>)
        ensures
            r is Ok ==> final(self).ops() == old(self).ops().push(
                (BusOp::WriteU8 { addr, reg, value }),
            ),
            r is Err ==> final(self).ops() == old(self).ops(),
    ;

    /// Writes a 16-bit quantity to a register pair, most significant byte
    /// first.
    fn write_be_u16(&mut self, addr: u8, reg: u8, value: u16) -> (r: Result<(), Self::Error>)
        ensures
            r is Ok ==> final(self).ops() == old(self).ops().push(
                (BusOp::WriteBeU16 { addr, reg, value }),
            ),
            r is Err ==> final(self).ops() == old(self).ops(),
    ;

    /// Reads one byte from a register.
    fn read_u8(&mut self, addr: u8, reg: u8) -> (r: Result<u8, Self::Error>)
        ensures
            r matches Ok(v) ==> final(self).ops() == old(self).ops().push(
                (BusOp::ReadU8 { addr, reg, value: v }),
            ),
            r is Err ==> final(self).ops() == old(self).ops(),
    ;

    /// Reads a 16-bit quantity from a register pair, most significant byte
    /// first.
    fn read_be_u16(&mut self, addr: u8, reg: u8) -> (r: Result<u16, Self::Error>)
        ensures
            r matches Ok(v) ==> final(self).ops() == old(self).ops().push(
                (BusOp::ReadBeU16 { addr, reg, value: v }),
            ),
            r is Err ==> final(self).ops() == old(self).ops(),
    ;

    /// Reads a 24-bit quantity from three consecutive registers, most
    /// significant byte first. The result fits in 24 bits.
    fn read_be_u24(&mut self, addr: u8, reg: u8) -> (r: Result<u32, Self::Error>)
        ensures
            r matches Ok(v) ==> final(self).ops() == old(self).ops().push(
                (BusOp::ReadBeU24 { addr, reg, value: v }),
            ) && v < 0x1000000,
            r is Err ==> final(self).ops() == old(self).ops(),
    ;
}

/// The chip's wake-up line. Driving it is not expected to fail in-protocol.
pub trait WakePin: Sized {
    /// The history of levels the pin was driven to, oldest first.
    spec fn levels(&self) -> Seq<bool>;

    fn set_high(&mut self)
        ensures
            final(self).levels() == old(self).levels().push(true),
    ;

    fn set_low(&mut self)
        ensures
            final(self).levels() == old(self).levels().push(false),
    ;
}

/// A blocking time source: each call waits for the full duration given, with
/// no cancellation.
pub trait DelaySource: Sized {
    /// The history of waits performed, in microseconds, oldest first.
    spec fn waits(&self) -> Seq<u32>;

    fn delay_us(&mut self, us: u32)
        ensures
            final(self).waits() == old(self).waits().push(us),
    ;
}

} // verus!
