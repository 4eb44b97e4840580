//! The chip's register map for the Idd subsystem, and the bit-level encodings
//! written to those registers.
//!
//! Addresses are fixed constants of the protocol: they are looked up, never
//! computed. Two disjoint families exist: read-only registers and read/write
//! registers.

use vstd::prelude::*;

verus! {

/// Read-only registers of the chip.
#[allow(non_camel_case_types)]
#[derive(Copy, Clone, Debug)]
pub enum RoRegister {
    /// Chip ID.
    ADR_ID,
    /// Firmware version (16 bits, big-endian).
    ADR_FW_VERSION,
    /// Error code of the last measurement: 0 ok, 1 timeout, 2 no value.
    ERROR_MSG,
    /// Number of the shunt used in the last Idd read.
    IDD_SHUNT_USED,
    /// Raw measurement value, 24 bits, MSB MID LSB.
    IDD_VALUE,
}

impl RoRegister {
    /// The address of this register in the chip's address space.
    pub open spec fn spec_addr(self) -> u8 {
        match self {
            RoRegister::ADR_ID => 0x00,
            RoRegister::ADR_FW_VERSION => 0x01,
            RoRegister::ERROR_MSG => 0x04,
            RoRegister::IDD_SHUNT_USED => 0x1A,
            RoRegister::IDD_VALUE => 0x14,
        }
    }

    pub fn addr(&self) -> (r: u8)
        ensures
            r == self.spec_addr(),
    {
        match self {
            RoRegister::ADR_ID => 0x00,
            RoRegister::ADR_FW_VERSION => 0x01,
            RoRegister::ERROR_MSG => 0x04,
            RoRegister::IDD_SHUNT_USED => 0x1A,
            RoRegister::IDD_VALUE => 0x14,
        }
    }
}

/// Read/write registers of the chip.
#[allow(non_camel_case_types)]
#[derive(Copy, Clone, Debug)]
pub enum Register {
    /// System control register.
    SYS_CTRL,
    /// Idd control register.
    IDD_CTRL,
    /// Delay before the first measurement.
    IDD_PRE_DELAY,
    /// Shunt resistor values, 16 bits each, big-endian.
    IDD_SHUNT0,
    IDD_SHUNT1,
    IDD_SHUNT2,
    IDD_SHUNT3,
    IDD_SHUNT4,
    /// Amplifier gain, 16 bits, big-endian.
    IDD_GAIN,
    /// Minimum supply voltage in millivolts, 16 bits, big-endian.
    IDD_VDD_MIN,
    /// Shunt stabilization delays in milliseconds.
    IDD_SH0_STABILIZATION,
    IDD_SH1_STABILIZATION,
    IDD_SH2_STABILIZATION,
    IDD_SH3_STABILIZATION,
    IDD_SH4_STABILIZATION,
    /// Number of measurements to accumulate.
    IDD_NBR_OF_MEAS,
    /// Delay between measurements.
    IDD_MEAS_DELTA_DELAY,
    /// Number of shunts present on the board.
    IDD_SHUNTS_ON_BOARD,
}

impl Register {
    /// The address of this register in the chip's address space.
    pub open spec fn spec_addr(self) -> u8 {
        match self {
            Register::SYS_CTRL => 0x40,
            Register::IDD_CTRL => 0x80,
            Register::IDD_PRE_DELAY => 0x81,
            Register::IDD_SHUNT0 => 0x82,
            Register::IDD_SHUNT1 => 0x84,
            Register::IDD_SHUNT2 => 0x86,
            Register::IDD_SHUNT3 => 0x88,
            Register::IDD_SHUNT4 => 0x8A,
            Register::IDD_GAIN => 0x8C,
            Register::IDD_VDD_MIN => 0x8E,
            Register::IDD_SH0_STABILIZATION => 0x90,
            Register::IDD_SH1_STABILIZATION => 0x91,
            Register::IDD_SH2_STABILIZATION => 0x92,
            Register::IDD_SH3_STABILIZATION => 0x93,
            Register::IDD_SH4_STABILIZATION => 0x94,
            Register::IDD_NBR_OF_MEAS => 0x96,
            Register::IDD_MEAS_DELTA_DELAY => 0x97,
            Register::IDD_SHUNTS_ON_BOARD => 0x98,
        }
    }

    pub fn addr(&self) -> (r: u8)
        ensures
            r == self.spec_addr(),
    {
        match self {
            Register::SYS_CTRL => 0x40,
            Register::IDD_CTRL => 0x80,
            Register::IDD_PRE_DELAY => 0x81,
            Register::IDD_SHUNT0 => 0x82,
            Register::IDD_SHUNT1 => 0x84,
            Register::IDD_SHUNT2 => 0x86,
            Register::IDD_SHUNT3 => 0x88,
            Register::IDD_SHUNT4 => 0x8A,
            Register::IDD_GAIN => 0x8C,
            Register::IDD_VDD_MIN => 0x8E,
            Register::IDD_SH0_STABILIZATION => 0x90,
            Register::IDD_SH1_STABILIZATION => 0x91,
            Register::IDD_SH2_STABILIZATION => 0x92,
            Register::IDD_SH3_STABILIZATION => 0x93,
            Register::IDD_SH4_STABILIZATION => 0x94,
            Register::IDD_NBR_OF_MEAS => 0x96,
            Register::IDD_MEAS_DELTA_DELAY => 0x97,
            Register::IDD_SHUNTS_ON_BOARD => 0x98,
        }
    }
}

/// Bits of the system control register. Idd measurement shares this register
/// with the GPIO and touch-sensor enables, so it is always read-modify-written.
#[allow(non_camel_case_types)]
#[allow(dead_code)]
#[derive(Copy, Clone, Debug)]
pub enum SysCtrl {
    SWRST,
    STANDBY,
    ALTERNATE_GPIO_EN,
    IDD_EN,
    TS_EN,
    GPIO_EN,
}

impl SysCtrl {
    pub open spec fn spec_bit(self) -> u8 {
        match self {
            SysCtrl::SWRST => 0x80,
            SysCtrl::STANDBY => 0x40,
            SysCtrl::ALTERNATE_GPIO_EN => 0x08,
            SysCtrl::IDD_EN => 0x04,
            SysCtrl::TS_EN => 0x02,
            SysCtrl::GPIO_EN => 0x01,
        }
    }

    pub fn bit(&self) -> (r: u8)
        ensures
            r == self.spec_bit(),
    {
        match self {
            SysCtrl::SWRST => 0x80,
            SysCtrl::STANDBY => 0x40,
            SysCtrl::ALTERNATE_GPIO_EN => 0x08,
            SysCtrl::IDD_EN => 0x04,
            SysCtrl::TS_EN => 0x02,
            SysCtrl::GPIO_EN => 0x01,
        }
    }
}

/// Granularity of an encoded delay: 5 ms or 20 ms per unit. The selector is
/// the top bit of the packed delay byte.
#[allow(non_camel_case_types)]
#[derive(Copy, Clone, Debug)]
pub enum DelayUnit {
    TIME_5_MS,
    TIME_20_MS,
}

impl DelayUnit {
    /// The unit selector bit of the packed delay byte.
    pub open spec fn spec_bit(self) -> u8 {
        match self {
            DelayUnit::TIME_5_MS => 0x00,
            DelayUnit::TIME_20_MS => 0x80,
        }
    }

    pub fn bit(&self) -> (r: u8)
        ensures
            r == self.spec_bit(),
    {
        match self {
            DelayUnit::TIME_5_MS => 0x00,
            DelayUnit::TIME_20_MS => 0x80,
        }
    }
}

/// Number of shunts in use, one to five.
#[allow(non_camel_case_types)]
#[derive(Copy, Clone, Debug)]
pub enum NbShunt {
    SHUNT_NB_1,
    SHUNT_NB_2,
    SHUNT_NB_3,
    SHUNT_NB_4,
    SHUNT_NB_5,
}

impl NbShunt {
    /// The raw shunt count this variant stands for.
    pub open spec fn spec_count(self) -> u8 {
        match self {
            NbShunt::SHUNT_NB_1 => 1,
            NbShunt::SHUNT_NB_2 => 2,
            NbShunt::SHUNT_NB_3 => 3,
            NbShunt::SHUNT_NB_4 => 4,
            NbShunt::SHUNT_NB_5 => 5,
        }
    }

    pub fn count(&self) -> (r: u8)
        ensures
            r == self.spec_count(),
    {
        match self {
            NbShunt::SHUNT_NB_1 => 1,
            NbShunt::SHUNT_NB_2 => 2,
            NbShunt::SHUNT_NB_3 => 3,
            NbShunt::SHUNT_NB_4 => 4,
            NbShunt::SHUNT_NB_5 => 5,
        }
    }
}

/// A delay magnitude saturated to the 7 bits available in the packed delay
/// byte: magnitudes above 0x7F become 0x7F. A saturating policy, not an error.
pub open spec fn clamp_delay(v: u8) -> u8 {
    if v > 0x7F {
        0x7F
    } else {
        v
    }
}

/// The packed delay byte: the unit selector bit combined with the clamped
/// 7-bit magnitude.
pub open spec fn pack_delay(unit: DelayUnit, v: u8) -> u8 {
    unit.spec_bit() | clamp_delay(v)
}

/// The packed Idd control byte: the shunt count in bits 1..3, the
/// calibration-disabled flag in bit 7, the reference-voltage-disabled flag in
/// bit 6. Bit 0 (start) is left clear; it is set later by a
/// read-modify-write when a measurement starts.
pub open spec fn ctrl_byte(calibration_disabled: bool, vref_disabled: bool, nb_shunt: NbShunt) -> u8 {
    (nb_shunt.spec_count() << 1) | (if calibration_disabled {
        0x80u8
    } else {
        0x00u8
    }) | (if vref_disabled {
        0x40u8
    } else {
        0x00u8
    })
}

/// The delay saturation and packing policy: the clamped magnitude is the
/// minimum of the given magnitude and 0x7F, and the packed byte is the unit
/// selector bit or'd with the clamped magnitude.
pub proof fn lemma_delay_pack(unit: DelayUnit, v: u8)
    ensures
        clamp_delay(v) == if (v as int) < 0x7F {
            v as int
        } else {
            0x7F
        },
        pack_delay(unit, v) == (unit.spec_bit() | clamp_delay(v)),
{
}

} // verus!
