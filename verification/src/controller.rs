//! The Idd measurement controller: sequences register operations into the
//! configuration and measurement protocol, translates raw bytes to and from
//! domain values, and surfaces the transport's own error type unmodified.
//!
//! Every contract is stated over the collaborator histories of [`crate::bus`]:
//! which bus operations a call appends and in which order, which levels the
//! wake-up pin is driven to, and which waits the delay source performs. On a
//! bus failure the call stops at the failing operation and returns the error;
//! there is no retry and no rollback, so a two-operation call that fails on
//! its second operation leaves the first one done.

use vstd::prelude::*;

use crate::ampere::Ampere;
use crate::bus::{reads_register, reads_then_sets_bit, BusOp, DelaySource, IddBus, WakePin};
use crate::regs::{clamp_delay, ctrl_byte, pack_delay, DelayUnit, NbShunt, Register, RoRegister, SysCtrl};

verus! {

/// The controller. It exclusively owns the bus handle, the wake-up pin and
/// the delay source for its lifetime, and holds no protocol state of its own
/// between calls: the chip is the real state holder.
pub struct MFX<I2C, GPIO, Delay> {
    i2c: I2C,
    wakup: GPIO,
    delay: Delay,
    address: u8,
}

/// The two bus operations that configure one shunt slot: the 16-bit resistance
/// value, big-endian, then the 8-bit stabilization delay. Two separate
/// transactions: if the second fails the slot keeps a stale delay beside the
/// new value.
pub open spec fn shunt_write_ops(
    before: Seq<BusOp>,
    addr: u8,
    value_reg: u8,
    data: u16,
    delay_reg: u8,
    stab_delay: u8,
) -> Seq<BusOp> {
    before.push((BusOp::WriteBeU16 { addr, reg: value_reg, value: data })).push(
        (BusOp::WriteU8 { addr, reg: delay_reg, value: stab_delay }),
    )
}

/// The start read-modify-write preserves configuration: the byte written back
/// by [`MFX::idd_start`] is the byte read with only the start bit added, so it
/// keeps every bit of the byte read; and a second start without an
/// intervening change writes the byte back unchanged.
pub proof fn lemma_start_preserves_ctrl(mode: u8)
    ensures
        ((mode | 1) & mode) == mode,
        ((mode | 1) | 1) == (mode | 1),
{
    assert(((mode | 1) & mode) == mode) by (bit_vector);
    assert(((mode | 1) | 1) == (mode | 1)) by (bit_vector);
}

/// The packed control byte leaves the start bit clear: configuration alone
/// never starts a measurement.
pub proof fn lemma_ctrl_byte_start_clear(
    calibration_disabled: bool,
    vref_disabled: bool,
    nb_shunt: NbShunt,
)
    ensures
        ctrl_byte(calibration_disabled, vref_disabled, nb_shunt) & 1 == 0,
{
    let c = nb_shunt.spec_count();
    let a: u8 = if calibration_disabled {
        0x80
    } else {
        0x00
    };
    let b: u8 = if vref_disabled {
        0x40
    } else {
        0x00
    };
    assert((((c << 1u8) | a | b) & 1) == 0) by (bit_vector)
        requires
            a == 0x80 || a == 0x00,
            b == 0x40 || b == 0x00,
    ;
}

impl<I2C, GPIO, Delay> MFX<I2C, GPIO, Delay> where
    I2C: IddBus,
    GPIO: WakePin,
    Delay: DelaySource,
 {
    /// The device address the controller was constructed with.
    pub closed spec fn device_addr(&self) -> u8 {
        self.address
    }

    /// The history of completed bus operations, oldest first.
    pub closed spec fn ops(&self) -> Seq<BusOp> {
        self.i2c.ops()
    }

    /// The history of levels the wake-up pin was driven to.
    pub closed spec fn pin_levels(&self) -> Seq<bool> {
        self.wakup.levels()
    }

    /// The history of waits performed by the delay source, in microseconds.
    pub closed spec fn waits(&self) -> Seq<u32> {
        self.delay.waits()
    }

    /// Constructs the controller and performs the chip's power-up handshake:
    /// the wake-up pin is driven high, held for 10 microseconds, driven low;
    /// then the Idd front end is enabled by a read-modify-write of the system
    /// control register, preserving the GPIO and touch-sensor enable bits
    /// that share it. Fails with whatever the bus reports; no retry.
    pub fn new(i2c: I2C, wakup: GPIO, delay: Delay, address: u8) -> (r: Result<Self, I2C::Error>)
        ensures
            r matches Ok(m) ==> m.device_addr() == address && m.pin_levels() == wakup.levels().push(
                true,
            ).push(false) && m.waits() == delay.waits().push(10u32) && reads_then_sets_bit(
                i2c.ops(),
                m.ops(),
                address,
                Register::SYS_CTRL.spec_addr(),
                SysCtrl::IDD_EN.spec_bit(),
            ),
    {
        let mut mfx = Self { i2c, wakup, delay, address };
        match mfx.wakup() {
            Ok(()) => Ok(mfx),
            Err(e) => Err(e),
        }
    }

    /// The wake-up handshake: pin high, 10 microseconds, pin low, then a
    /// read-modify-write of the system control register that sets the Idd
    /// enable bit. Timing below 10 microseconds is unspecified for the chip
    /// and is not shortened.
    fn wakup(&mut self) -> (r: Result<(), I2C::Error>)
        ensures
            final(self).device_addr() == old(self).device_addr(),
            final(self).pin_levels() == old(self).pin_levels().push(true).push(false),
            final(self).waits() == old(self).waits().push(10u32),
            r is Ok ==> reads_then_sets_bit(
                old(self).ops(),
                final(self).ops(),
                old(self).device_addr(),
                Register::SYS_CTRL.spec_addr(),
                SysCtrl::IDD_EN.spec_bit(),
            ),
            r is Err ==> final(self).ops() == old(self).ops() || reads_register(
                old(self).ops(),
                final(self).ops(),
                old(self).device_addr(),
                Register::SYS_CTRL.spec_addr(),
            ),
    {
        self.wakup.set_high();
        self.delay.delay_us(10);
        self.wakup.set_low();
        let mode = self.i2c.read_u8(self.address, Register::SYS_CTRL.addr())?;
        let enabled = mode | SysCtrl::IDD_EN.bit();
        self.i2c.write_u8(self.address, Register::SYS_CTRL.addr(), enabled)?;
        Ok(())
    }

    /// Writes the packed Idd control byte, then the raw shunt count to the
    /// shunts-on-board register. Bit 0 (start) of the control byte is left
    /// clear.
    pub fn set_idd_ctrl(
        &mut self,
        calibration_disabled: bool,
        vref_disabled: bool,
        nb_shunt: NbShunt,
    ) -> (r: Result<(), I2C::Error>)
        ensures
            final(self).device_addr() == old(self).device_addr(),
            final(self).pin_levels() == old(self).pin_levels(),
            final(self).waits() == old(self).waits(),
            r is Ok ==> final(self).ops() == old(self).ops().push(
                (BusOp::WriteU8 {
                    addr: old(self).device_addr(),
                    reg: Register::IDD_CTRL.spec_addr(),
                    value: ctrl_byte(calibration_disabled, vref_disabled, nb_shunt),
                }),
            ).push(
                (BusOp::WriteU8 {
                    addr: old(self).device_addr(),
                    reg: Register::IDD_SHUNTS_ON_BOARD.spec_addr(),
                    value: nb_shunt.spec_count(),
                }),
            ),
            r is Err ==> final(self).ops() == old(self).ops() || final(self).ops() == old(
                self,
            ).ops().push(
                (BusOp::WriteU8 {
                    addr: old(self).device_addr(),
                    reg: Register::IDD_CTRL.spec_addr(),
                    value: ctrl_byte(calibration_disabled, vref_disabled, nb_shunt),
                }),
            ),
    {
        let cal: u8 = if calibration_disabled {
            0x80
        } else {
            0x00
        };
        let vref: u8 = if vref_disabled {
            0x40
        } else {
            0x00
        };
        let nb_shunt: u8 = nb_shunt.count();
        let value: u8 = (nb_shunt << 1u8) | cal | vref;
        self.i2c.write_u8(self.address, Register::IDD_CTRL.addr(), value)?;
        self.i2c.write_u8(self.address, Register::IDD_SHUNTS_ON_BOARD.addr(), nb_shunt)
    }

    /// Writes the measurement-count register.
    pub fn set_idd_nb_measurment(&mut self, nb: u8) -> (r: Result<(), I2C::Error>)
        ensures
            final(self).device_addr() == old(self).device_addr(),
            final(self).pin_levels() == old(self).pin_levels(),
            final(self).waits() == old(self).waits(),
            r is Ok ==> final(self).ops() == old(self).ops().push(
                (BusOp::WriteU8 {
                    addr: old(self).device_addr(),
                    reg: Register::IDD_NBR_OF_MEAS.spec_addr(),
                    value: nb,
                }),
            ),
            r is Err ==> final(self).ops() == old(self).ops(),
    {
        self.i2c.write_u8(self.address, Register::IDD_NBR_OF_MEAS.addr(), nb)
    }

    /// Configures shunt slot 0: the 16-bit resistance value, then the
    /// stabilization delay in milliseconds.
    pub fn set_idd_shunt0(&mut self, data: u16, stab_delay: u8) -> (r: Result<(), I2C::Error>)
        ensures
            final(self).device_addr() == old(self).device_addr(),
            final(self).pin_levels() == old(self).pin_levels(),
            final(self).waits() == old(self).waits(),
            r is Ok ==> final(self).ops() == shunt_write_ops(
                old(self).ops(),
                old(self).device_addr(),
                Register::IDD_SHUNT0.spec_addr(),
                data,
                Register::IDD_SH0_STABILIZATION.spec_addr(),
                stab_delay,
            ),
            r is Err ==> final(self).ops() == old(self).ops() || final(self).ops() == old(
                self,
            ).ops().push(
                (BusOp::WriteBeU16 {
                    addr: old(self).device_addr(),
                    reg: Register::IDD_SHUNT0.spec_addr(),
                    value: data,
                }),
            ),
    {
        self.set_idd_shunt(Register::IDD_SHUNT0, data, Register::IDD_SH0_STABILIZATION, stab_delay)
    }

    /// Configures shunt slot 1. See [`Self::set_idd_shunt0`].
    pub fn set_idd_shunt1(&mut self, data: u16, stab_delay: u8) -> (r: Result<(), I2C::Error>)
        ensures
            final(self).device_addr() == old(self).device_addr(),
            final(self).pin_levels() == old(self).pin_levels(),
            final(self).waits() == old(self).waits(),
            r is Ok ==> final(self).ops() == shunt_write_ops(
                old(self).ops(),
                old(self).device_addr(),
                Register::IDD_SHUNT1.spec_addr(),
                data,
                Register::IDD_SH1_STABILIZATION.spec_addr(),
                stab_delay,
            ),
            r is Err ==> final(self).ops() == old(self).ops() || final(self).ops() == old(
                self,
            ).ops().push(
                (BusOp::WriteBeU16 {
                    addr: old(self).device_addr(),
                    reg: Register::IDD_SHUNT1.spec_addr(),
                    value: data,
                }),
            ),
    {
        self.set_idd_shunt(Register::IDD_SHUNT1, data, Register::IDD_SH1_STABILIZATION, stab_delay)
    }

    /// Configures shunt slot 2. See [`Self::set_idd_shunt0`].
    pub fn set_idd_shunt2(&mut self, data: u16, stab_delay: u8) -> (r: Result<(), I2C::Error>)
        ensures
            final(self).device_addr() == old(self).device_addr(),
            final(self).pin_levels() == old(self).pin_levels(),
            final(self).waits() == old(self).waits(),
            r is Ok ==> final(self).ops() == shunt_write_ops(
                old(self).ops(),
                old(self).device_addr(),
                Register::IDD_SHUNT2.spec_addr(),
                data,
                Register::IDD_SH2_STABILIZATION.spec_addr(),
                stab_delay,
            ),
            r is Err ==> final(self).ops() == old(self).ops() || final(self).ops() == old(
                self,
            ).ops().push(
                (BusOp::WriteBeU16 {
                    addr: old(self).device_addr(),
                    reg: Register::IDD_SHUNT2.spec_addr(),
                    value: data,
                }),
            ),
    {
        self.set_idd_shunt(Register::IDD_SHUNT2, data, Register::IDD_SH2_STABILIZATION, stab_delay)
    }

    /// Configures shunt slot 3. See [`Self::set_idd_shunt0`].
    pub fn set_idd_shunt3(&mut self, data: u16, stab_delay: u8) -> (r: Result<(), I2C::Error>)
        ensures
            final(self).device_addr() == old(self).device_addr(),
            final(self).pin_levels() == old(self).pin_levels(),
            final(self).waits() == old(self).waits(),
            r is Ok ==> final(self).ops() == shunt_write_ops(
                old(self).ops(),
                old(self).device_addr(),
                Register::IDD_SHUNT3.spec_addr(),
                data,
                Register::IDD_SH3_STABILIZATION.spec_addr(),
                stab_delay,
            ),
            r is Err ==> final(self).ops() == old(self).ops() || final(self).ops() == old(
                self,
            ).ops().push(
                (BusOp::WriteBeU16 {
                    addr: old(self).device_addr(),
                    reg: Register::IDD_SHUNT3.spec_addr(),
                    value: data,
                }),
            ),
    {
        self.set_idd_shunt(Register::IDD_SHUNT3, data, Register::IDD_SH3_STABILIZATION, stab_delay)
    }

    /// Configures shunt slot 4. See [`Self::set_idd_shunt0`].
    pub fn set_idd_shunt4(&mut self, data: u16, stab_delay: u8) -> (r: Result<(), I2C::Error>)
        ensures
            final(self).device_addr() == old(self).device_addr(),
            final(self).pin_levels() == old(self).pin_levels(),
            final(self).waits() == old(self).waits(),
            r is Ok ==> final(self).ops() == shunt_write_ops(
                old(self).ops(),
                old(self).device_addr(),
                Register::IDD_SHUNT4.spec_addr(),
                data,
                Register::IDD_SH4_STABILIZATION.spec_addr(),
                stab_delay,
            ),
            r is Err ==> final(self).ops() == old(self).ops() || final(self).ops() == old(
                self,
            ).ops().push(
                (BusOp::WriteBeU16 {
                    addr: old(self).device_addr(),
                    reg: Register::IDD_SHUNT4.spec_addr(),
                    value: data,
                }),
            ),
    {
        self.set_idd_shunt(Register::IDD_SHUNT4, data, Register::IDD_SH4_STABILIZATION, stab_delay)
    }

    /// Writes one shunt slot: the resistance value to `reg_shunt`, then the
    /// stabilization delay to `reg_delay`. Two separate transactions,
    /// non-atomic: a failure on the second leaves the first done.
    fn set_idd_shunt(
        &mut self,
        reg_shunt: Register,
        data: u16,
        reg_delay: Register,
        stab_delay: u8,
    ) -> (r: Result<(), I2C::Error>)
        ensures
            final(self).device_addr() == old(self).device_addr(),
            final(self).pin_levels() == old(self).pin_levels(),
            final(self).waits() == old(self).waits(),
            r is Ok ==> final(self).ops() == shunt_write_ops(
                old(self).ops(),
                old(self).device_addr(),
                reg_shunt.spec_addr(),
                data,
                reg_delay.spec_addr(),
                stab_delay,
            ),
            r is Err ==> final(self).ops() == old(self).ops() || final(self).ops() == old(
                self,
            ).ops().push(
                (BusOp::WriteBeU16 {
                    addr: old(self).device_addr(),
                    reg: reg_shunt.spec_addr(),
                    value: data,
                }),
            ),
    {
        self.i2c.write_be_u16(self.address, reg_shunt.addr(), data)?;
        self.i2c.write_u8(self.address, reg_delay.addr(), stab_delay)
    }

    /// Writes the 16-bit amplifier gain, big-endian. The value is the gain
    /// times 100, a board-specific calibration constant.
    pub fn set_idd_gain(&mut self, value: u16) -> (r: Result<(), I2C::Error>)
        ensures
            final(self).device_addr() == old(self).device_addr(),
            final(self).pin_levels() == old(self).pin_levels(),
            final(self).waits() == old(self).waits(),
            r is Ok ==> final(self).ops() == old(self).ops().push(
                (BusOp::WriteBeU16 {
                    addr: old(self).device_addr(),
                    reg: Register::IDD_GAIN.spec_addr(),
                    value,
                }),
            ),
            r is Err ==> final(self).ops() == old(self).ops(),
    {
        self.i2c.write_be_u16(self.address, Register::IDD_GAIN.addr(), value)
    }

    /// Writes the packed pre-measurement delay: the unit selector bit or'd
    /// with the magnitude saturated to 0x7F.
    pub fn set_idd_pre_delay(&mut self, unit: DelayUnit, value: u8) -> (r: Result<
        (),
        I2C::Error,
    >)
        ensures
            final(self).device_addr() == old(self).device_addr(),
            final(self).pin_levels() == old(self).pin_levels(),
            final(self).waits() == old(self).waits(),
            r is Ok ==> final(self).ops() == old(self).ops().push(
                (BusOp::WriteU8 {
                    addr: old(self).device_addr(),
                    reg: Register::IDD_PRE_DELAY.spec_addr(),
                    value: pack_delay(unit, value),
                }),
            ),
            r is Err ==> final(self).ops() == old(self).ops(),
    {
        let value = self.cap_delay_value(value);
        let unit = unit.bit();
        self.i2c.write_u8(self.address, Register::IDD_PRE_DELAY.addr(), unit | value)
    }

    /// Writes the packed delay between measurements, with the same packing
    /// and saturation as [`Self::set_idd_pre_delay`].
    pub fn set_idd_meas_delta_delay(&mut self, unit: DelayUnit, value: u8) -> (r: Result<
        (),
        I2C::Error,
    >)
        ensures
            final(self).device_addr() == old(self).device_addr(),
            final(self).pin_levels() == old(self).pin_levels(),
            final(self).waits() == old(self).waits(),
            r is Ok ==> final(self).ops() == old(self).ops().push(
                (BusOp::WriteU8 {
                    addr: old(self).device_addr(),
                    reg: Register::IDD_MEAS_DELTA_DELAY.spec_addr(),
                    value: pack_delay(unit, value),
                }),
            ),
            r is Err ==> final(self).ops() == old(self).ops(),
    {
        let value = self.cap_delay_value(value);
        let unit = unit.bit();
        self.i2c.write_u8(self.address, Register::IDD_MEAS_DELTA_DELAY.addr(), unit | value)
    }

    /// Writes the 16-bit minimum supply voltage in millivolts, big-endian.
    pub fn set_idd_vdd_min(&mut self, value: u16) -> (r: Result<(), I2C::Error>)
        ensures
            final(self).device_addr() == old(self).device_addr(),
            final(self).pin_levels() == old(self).pin_levels(),
            final(self).waits() == old(self).waits(),
            r is Ok ==> final(self).ops() == old(self).ops().push(
                (BusOp::WriteBeU16 {
                    addr: old(self).device_addr(),
                    reg: Register::IDD_VDD_MIN.spec_addr(),
                    value,
                }),
            ),
            r is Err ==> final(self).ops() == old(self).ops(),
    {
        self.i2c.write_be_u16(self.address, Register::IDD_VDD_MIN.addr(), value)
    }

    /// Starts a measurement by a read-modify-write of the Idd control
    /// register: bit 0 (start) is set while every configuration bit written
    /// earlier is preserved.
    pub fn idd_start(&mut self) -> (r: Result<(), I2C::Error>)
        ensures
            final(self).device_addr() == old(self).device_addr(),
            final(self).pin_levels() == old(self).pin_levels(),
            final(self).waits() == old(self).waits(),
            r is Ok ==> reads_then_sets_bit(
                old(self).ops(),
                final(self).ops(),
                old(self).device_addr(),
                Register::IDD_CTRL.spec_addr(),
                1u8,
            ),
            r is Err ==> final(self).ops() == old(self).ops() || reads_register(
                old(self).ops(),
                final(self).ops(),
                old(self).device_addr(),
                Register::IDD_CTRL.spec_addr(),
            ),
    {
        let mode = self.i2c.read_u8(self.address, Register::IDD_CTRL.addr())?;
        let started = mode | 1;
        self.i2c.write_u8(self.address, Register::IDD_CTRL.addr(), started)
    }

    /// Waits out the measurement window with a fixed blocking delay of four
    /// 500 ms waits, then reads the raw 24-bit measurement and wraps it with
    /// the chip's fixed decimal exponent of 8 (units of 10^-8 ampere). The
    /// fixed wait is a known simplification: the chip's completion is not
    /// polled, and reading before a start yields whatever the chip holds.
    pub fn idd_get_value(&mut self) -> (r: Result<Ampere, I2C::Error>)
        ensures
            final(self).device_addr() == old(self).device_addr(),
            final(self).pin_levels() == old(self).pin_levels(),
            final(self).waits() == old(self).waits().push(500000u32).push(500000u32).push(
                500000u32,
            ).push(500000u32),
            r matches Ok(a) ==> a.exp() == 8 && a.val() < 0x1000000 && final(self).ops() == old(
                self,
            ).ops().push(
                (BusOp::ReadBeU24 {
                    addr: old(self).device_addr(),
                    reg: RoRegister::IDD_VALUE.spec_addr(),
                    value: a.val(),
                }),
            ),
            r is Err ==> final(self).ops() == old(self).ops(),
    {
        self.delay.delay_us(500000);
        self.delay.delay_us(500000);
        self.delay.delay_us(500000);
        self.delay.delay_us(500000);
        let value = self.i2c.read_be_u24(self.address, RoRegister::IDD_VALUE.addr())?;
        Ok(Ampere::new(value, 8))
    }

    /// Reads back the Idd control register.
    pub fn idd_ctrl(&mut self) -> (r: Result<u8, I2C::Error>)
        ensures
            final(self).device_addr() == old(self).device_addr(),
            final(self).pin_levels() == old(self).pin_levels(),
            final(self).waits() == old(self).waits(),
            r matches Ok(v) ==> final(self).ops() == old(self).ops().push(
                (BusOp::ReadU8 {
                    addr: old(self).device_addr(),
                    reg: Register::IDD_CTRL.spec_addr(),
                    value: v,
                }),
            ),
            r is Err ==> final(self).ops() == old(self).ops(),
    {
        self.i2c.read_u8(self.address, Register::IDD_CTRL.addr())
    }

    /// Reads the number of the shunt used in the last measurement.
    pub fn idd_last_shunt_used(&mut self) -> (r: Result<u8, I2C::Error>)
        ensures
            final(self).device_addr() == old(self).device_addr(),
            final(self).pin_levels() == old(self).pin_levels(),
            final(self).waits() == old(self).waits(),
            r matches Ok(v) ==> final(self).ops() == old(self).ops().push(
                (BusOp::ReadU8 {
                    addr: old(self).device_addr(),
                    reg: RoRegister::IDD_SHUNT_USED.spec_addr(),
                    value: v,
                }),
            ),
            r is Err ==> final(self).ops() == old(self).ops(),
    {
        self.i2c.read_u8(self.address, RoRegister::IDD_SHUNT_USED.addr())
    }

    /// Reads back the shunts-on-board register.
    pub fn idd_shunts_on_board(&mut self) -> (r: Result<u8, I2C::Error>)
        ensures
            final(self).device_addr() == old(self).device_addr(),
            final(self).pin_levels() == old(self).pin_levels(),
            final(self).waits() == old(self).waits(),
            r matches Ok(v) ==> final(self).ops() == old(self).ops().push(
                (BusOp::ReadU8 {
                    addr: old(self).device_addr(),
                    reg: Register::IDD_SHUNTS_ON_BOARD.spec_addr(),
                    value: v,
                }),
            ),
            r is Err ==> final(self).ops() == old(self).ops(),
    {
        self.i2c.read_u8(self.address, Register::IDD_SHUNTS_ON_BOARD.addr())
    }

    /// Reads the chip's error code register: 0 ok, 1 timeout, 2 no value.
    /// The raw byte is surfaced for the caller to act on, untranslated.
    pub fn error_code(&mut self) -> (r: Result<u8, I2C::Error>)
        ensures
            final(self).device_addr() == old(self).device_addr(),
            final(self).pin_levels() == old(self).pin_levels(),
            final(self).waits() == old(self).waits(),
            r matches Ok(v) ==> final(self).ops() == old(self).ops().push(
                (BusOp::ReadU8 {
                    addr: old(self).device_addr(),
                    reg: RoRegister::ERROR_MSG.spec_addr(),
                    value: v,
                }),
            ),
            r is Err ==> final(self).ops() == old(self).ops(),
    {
        self.i2c.read_u8(self.address, RoRegister::ERROR_MSG.addr())
    }

    /// Reads the chip identifier.
    pub fn chip_id(&mut self) -> (r: Result<u8, I2C::Error>)
        ensures
            final(self).device_addr() == old(self).device_addr(),
            final(self).pin_levels() == old(self).pin_levels(),
            final(self).waits() == old(self).waits(),
            r matches Ok(v) ==> final(self).ops() == old(self).ops().push(
                (BusOp::ReadU8 {
                    addr: old(self).device_addr(),
                    reg: RoRegister::ADR_ID.spec_addr(),
                    value: v,
                }),
            ),
            r is Err ==> final(self).ops() == old(self).ops(),
    {
        self.i2c.read_u8(self.address, RoRegister::ADR_ID.addr())
    }

    /// Reads the 16-bit firmware version, big-endian.
    pub fn firmware_version(&mut self) -> (r: Result<u16, I2C::Error>)
        ensures
            final(self).device_addr() == old(self).device_addr(),
            final(self).pin_levels() == old(self).pin_levels(),
            final(self).waits() == old(self).waits(),
            r matches Ok(v) ==> final(self).ops() == old(self).ops().push(
                (BusOp::ReadBeU16 {
                    addr: old(self).device_addr(),
                    reg: RoRegister::ADR_FW_VERSION.spec_addr(),
                    value: v,
                }),
            ),
            r is Err ==> final(self).ops() == old(self).ops(),
    {
        self.i2c.read_be_u16(self.address, RoRegister::ADR_FW_VERSION.addr())
    }

    /// Saturates a delay magnitude to the 7 bits of the packed delay byte.
    fn cap_delay_value(&self, value: u8) -> (r: u8)
        ensures
            r == clamp_delay(value),
    {
        if value > 0x7F {
            0x7F
        } else {
            value
        }
    }

    /// A shared view of the bus handle, e.g. to inspect a simulated bus after
    /// a sequence of calls.
    pub fn bus(&self) -> (r: &I2C)
        ensures
            r.ops() == self.ops(),
    {
        &self.i2c
    }

    /// A shared view of the wake-up pin handle.
    pub fn pin(&self) -> (r: &GPIO)
        ensures
            r.levels() == self.pin_levels(),
    {
        &self.wakup
    }

    /// A shared view of the delay source handle.
    pub fn delay_source(&self) -> (r: &Delay)
        ensures
            r.waits() == self.waits(),
    {
        &self.delay
    }
}

} // verus!
