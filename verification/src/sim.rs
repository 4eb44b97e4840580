//! Simulated collaborators: an in-memory register file standing in for the
//! chip behind the bus, a recording pin and a recording delay source. They
//! drive the controller through the same traits a hardware transport would,
//! and a test inspects their registers and histories afterwards.
//!
//! The simulated bus can be given a write budget counted in bytes. A
//! multi-byte write that exhausts the budget mid-way fails after its earlier
//! bytes have taken effect, the way a real transaction can be cut short:
//! there is no rollback, so the register file then shows the partial write.

use vstd::prelude::*;

use crate::bus::{BusOp, DelaySource, IddBus, WakePin};

verus! {

/// The error the simulated bus reports when its write budget is exhausted.
#[derive(Copy, Clone, Debug, PartialEq, Eq, Structural)]
pub struct SimBusError;

/// Whether a budget admits `k` more written bytes.
pub open spec fn allows_bytes(budget: Option<u32>, k: nat) -> bool {
    match budget {
        Option::None => true,
        Option::Some(n) => n >= k,
    }
}

/// The budget after `k` bytes were written.
pub open spec fn spend_bytes(budget: Option<u32>, k: nat) -> Option<u32>
    recommends
        allows_bytes(budget, k),
{
    match budget {
        Option::None => Option::None,
        Option::Some(n) => Option::Some((n - k) as u32),
    }
}

/// The register following `reg` in the chip's address space, wrapping at the
/// end, as auto-increment addressing does.
pub open spec fn reg_next(reg: u8) -> u8 {
    if reg == 255 {
        0
    } else {
        (reg + 1) as u8
    }
}

/// The high byte of a 16-bit quantity: the first on a big-endian wire.
pub open spec fn be16_hi(v: u16) -> u8 {
    (v >> 8u16) as u8
}

/// The low byte of a 16-bit quantity: the second on a big-endian wire.
pub open spec fn be16_lo(v: u16) -> u8 {
    v as u8
}

/// Big-endian framing is consistent between the write and the read path: the
/// two bytes a 16-bit write puts on the wire reassemble to the value written.
pub proof fn lemma_be16_round_trip(v: u16)
    ensures
        (((be16_hi(v) as u16) << 8u16) | (be16_lo(v) as u16)) == v,
{
    assert((((((v >> 8u16) as u8) as u16) << 8u16) | ((v as u8) as u16)) == v) by (bit_vector);
}

/// An in-memory register file with a byte-granular write budget.
pub struct SimBus {
    regs: [u8; 256],
    log: Vec<BusOp>,
    budget: Option<u32>,
}

impl SimBus {
    /// The current value of register `reg`.
    pub closed spec fn reg_spec(&self, reg: u8) -> u8 {
        self.regs@[reg as int]
    }

    /// The write bytes still allowed; `None` is unlimited.
    pub closed spec fn budget_left(&self) -> Option<u32> {
        self.budget
    }

    /// A fresh bus: every register zero, no history, unlimited writes.
    pub fn new() -> (b: SimBus)
        ensures
            b.ops() == Seq::<BusOp>::empty(),
            forall|r: u8| b.reg_spec(r) == 0u8,
            b.budget_left() is None,
    {
        SimBus { regs: [0u8; 256], log: Vec::new(), budget: None }
    }

    /// A fresh bus that will accept `n` more written bytes and then fail
    /// every write.
    pub fn with_write_budget(n: u32) -> (b: SimBus)
        ensures
            b.ops() == Seq::<BusOp>::empty(),
            forall|r: u8| b.reg_spec(r) == 0u8,
            b.budget_left() == Some(n),
    {
        SimBus { regs: [0u8; 256], log: Vec::new(), budget: Some(n) }
    }

    /// Sets a register directly, behind the bus's back: no history entry and
    /// no budget spent. This is how a test stands a chip-side value up before
    /// driving the controller.
    pub fn poke(&mut self, reg: u8, value: u8)
        ensures
            final(self).ops() == old(self).ops(),
            final(self).budget_left() == old(self).budget_left(),
            final(self).reg_spec(reg) == value,
            forall|r: u8| r != reg ==> final(self).reg_spec(r) == old(self).reg_spec(r),
    {
        self.regs[reg as usize] = value;
    }

    /// Reads a register directly, with no history entry.
    pub fn reg(&self, reg: u8) -> (v: u8)
        ensures
            v == self.reg_spec(reg),
    {
        self.regs[reg as usize]
    }

    /// The history of completed bus operations, oldest first.
    pub fn log(&self) -> (l: &Vec<BusOp>)
        ensures
            l@ == self.ops(),
    {
        &self.log
    }

    /// Consumes one byte of the write budget. With the budget exhausted,
    /// nothing changes and the write must fail.
    fn take_write_byte(&mut self) -> (ok: bool)
        ensures
            final(self).log == old(self).log,
            final(self).regs == old(self).regs,
            ok == allows_bytes(old(self).budget, 1),
            ok ==> final(self).budget == spend_bytes(old(self).budget, 1),
            !ok ==> final(self).budget == old(self).budget,
    {
        match self.budget {
            None => true,
            Some(n) => {
                if n > 0 {
                    self.budget = Some(n - 1);
                    true
                } else {
                    false
                }
            },
        }
    }
}

impl IddBus for SimBus {
    type Error = SimBusError;

    closed spec fn ops(&self) -> Seq<BusOp> {
        self.log@
    }

    /// Succeeds exactly when the budget admits one more byte; then the
    /// register holds the byte and the budget is one byte poorer. A failed
    /// write changes nothing.
    fn write_u8(&mut self, addr: u8, reg: u8, value: u8) -> (r: Result<(), SimBusError>)
        ensures
            r is Ok <==> allows_bytes(old(self).budget_left(), 1),
            r is Ok ==> final(self).reg_spec(reg) == value && (forall|q: u8|
                q != reg ==> final(self).reg_spec(q) == old(self).reg_spec(q))
                && final(self).budget_left() == spend_bytes(old(self).budget_left(), 1),
            r is Err ==> (forall|q: u8| final(self).reg_spec(q) == old(self).reg_spec(q))
                && final(self).budget_left() == old(self).budget_left(),
    {
        if !self.take_write_byte() {
            return Err(SimBusError);
        }
        self.regs[reg as usize] = value;
        self.log.push(BusOp::WriteU8 { addr, reg, value });
        Ok(())
    }

    /// Succeeds exactly when the budget admits two more bytes; then the
    /// register pair holds the quantity big-endian. A transaction cut short
    /// after its first byte leaves that byte's effect and nothing else: the
    /// register file shows the partial write, with no rollback.
    fn write_be_u16(&mut self, addr: u8, reg: u8, value: u16) -> (r: Result<(), SimBusError>)
        ensures
            r is Ok <==> allows_bytes(old(self).budget_left(), 2),
            r is Ok ==> final(self).reg_spec(reg) == be16_hi(value),
            r is Ok ==> final(self).reg_spec(reg_next(reg)) == be16_lo(value),
            r is Ok ==> forall|q: u8|
                q != reg && q != reg_next(reg) ==> final(self).reg_spec(q) == old(self).reg_spec(
                    q,
                ),
            r is Ok ==> final(self).budget_left() == spend_bytes(old(self).budget_left(), 2),
            r is Err && allows_bytes(old(self).budget_left(), 1) ==> final(self).reg_spec(reg)
                == be16_hi(value),
            r is Err && allows_bytes(old(self).budget_left(), 1) ==> forall|q: u8|
                q != reg ==> final(self).reg_spec(q) == old(self).reg_spec(q),
            r is Err && allows_bytes(old(self).budget_left(), 1) ==> final(self).budget_left()
                == spend_bytes(old(self).budget_left(), 1),
            r is Err && !allows_bytes(old(self).budget_left(), 1) ==> (forall|q: u8|
                final(self).reg_spec(q) == old(self).reg_spec(q)) && final(self).budget_left()
                == old(self).budget_left(),
    {
        if !self.take_write_byte() {
            return Err(SimBusError);
        }
        self.regs[reg as usize] = (value >> 8u16) as u8;
        if !self.take_write_byte() {
            return Err(SimBusError);
        }
        self.regs[(reg as usize + 1) % 256] = value as u8;
        self.log.push(BusOp::WriteBeU16 { addr, reg, value });
        Ok(())
    }

    /// Always succeeds, returns the register's value, and changes no register
    /// and no budget.
    fn read_u8(&mut self, addr: u8, reg: u8) -> (r: Result<u8, SimBusError>)
        ensures
            r is Ok,
            r matches Ok(v) ==> v == old(self).reg_spec(reg),
            forall|q: u8| final(self).reg_spec(q) == old(self).reg_spec(q),
            final(self).budget_left() == old(self).budget_left(),
    {
        let value = self.regs[reg as usize];
        self.log.push(BusOp::ReadU8 { addr, reg, value });
        Ok(value)
    }

    /// Always succeeds and assembles the register pair big-endian.
    fn read_be_u16(&mut self, addr: u8, reg: u8) -> (r: Result<u16, SimBusError>)
        ensures
            r is Ok,
            r matches Ok(v) ==> v == (((old(self).reg_spec(reg) as u16) << 8u16) | (old(
                self,
            ).reg_spec(reg_next(reg)) as u16)),
            forall|q: u8| final(self).reg_spec(q) == old(self).reg_spec(q),
            final(self).budget_left() == old(self).budget_left(),
    {
        let msb = self.regs[reg as usize];
        let lsb = self.regs[(reg as usize + 1) % 256];
        let value: u16 = ((msb as u16) << 8u16) | (lsb as u16);
        self.log.push(BusOp::ReadBeU16 { addr, reg, value });
        Ok(value)
    }

    /// Always succeeds and assembles three consecutive registers big-endian.
    fn read_be_u24(&mut self, addr: u8, reg: u8) -> (r: Result<u32, SimBusError>)
        ensures
            r is Ok,
            r matches Ok(v) ==> v == (((old(self).reg_spec(reg) as u32) << 16u32) | ((old(
                self,
            ).reg_spec(reg_next(reg)) as u32) << 8u32) | (old(self).reg_spec(
                reg_next(reg_next(reg)),
            ) as u32)),
            forall|q: u8| final(self).reg_spec(q) == old(self).reg_spec(q),
            final(self).budget_left() == old(self).budget_left(),
    {
        let msb = self.regs[reg as usize];
        let mid = self.regs[(reg as usize + 1) % 256];
        let lsb = self.regs[(reg as usize + 2) % 256];
        let value: u32 = ((msb as u32) << 16u32) | ((mid as u32) << 8u32) | (lsb as u32);
        assert(value < 0x1000000) by (bit_vector)
            requires
                value == ((msb as u32) << 16u32) | ((mid as u32) << 8u32) | (lsb as u32),
        ;
        self.log.push(BusOp::ReadBeU24 { addr, reg, value });
        Ok(value)
    }
}

/// A wake-up pin that records every level it is driven to.
pub struct SimPin {
    driven: Vec<bool>,
}

impl SimPin {
    pub fn new() -> (p: SimPin)
        ensures
            p.levels() == Seq::<bool>::empty(),
    {
        SimPin { driven: Vec::new() }
    }

    /// The recorded levels, oldest first.
    pub fn log(&self) -> (l: &Vec<bool>)
        ensures
            l@ == self.levels(),
    {
        &self.driven
    }
}

impl WakePin for SimPin {
    closed spec fn levels(&self) -> Seq<bool> {
        self.driven@
    }

    fn set_high(&mut self) {
        self.driven.push(true);
    }

    fn set_low(&mut self) {
        self.driven.push(false);
    }
}

/// A delay source that records every wait instead of blocking.
pub struct SimDelay {
    waited: Vec<u32>,
}

impl SimDelay {
    pub fn new() -> (d: SimDelay)
        ensures
            d.waits() == Seq::<u32>::empty(),
    {
        SimDelay { waited: Vec::new() }
    }

    /// The recorded waits in microseconds, oldest first.
    pub fn log(&self) -> (l: &Vec<u32>)
        ensures
            l@ == self.waits(),
    {
        &self.waited
    }
}

impl DelaySource for SimDelay {
    closed spec fn waits(&self) -> Seq<u32> {
        self.waited@
    }

    fn delay_us(&mut self, us: u32) {
        self.waited.push(us);
    }
}

} // verus!
