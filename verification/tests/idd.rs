//! The controller driven against the simulated bus: the wake-up handshake,
//! every configuration write, the start read-modify-write, the measurement
//! read, and the non-atomicity of multi-byte writes under bus failures.

use mfxstm32l152::bus::BusOp;
use mfxstm32l152::controller::MFX;
use mfxstm32l152::regs::{DelayUnit, NbShunt};
use mfxstm32l152::sim::{SimBus, SimDelay, SimPin};

const ADDR: u8 = 0x42;

fn fresh_controller() -> MFX<SimBus, SimPin, SimDelay> {
    MFX::new(SimBus::new(), SimPin::new(), SimDelay::new(), ADDR)
        .ok()
        .expect("wake-up on the unlimited bus must succeed")
}

#[test]
fn wake_handshake_pulses_pin_and_enables_idd() {
    let m = fresh_controller();
    assert_eq!(*m.pin().log(), vec![true, false]);
    assert_eq!(*m.delay_source().log(), vec![10u32]);
    // SYS_CTRL was read (zero) and written back with only the Idd enable bit.
    assert_eq!(m.bus().reg(0x40), 0x04);
    assert_eq!(
        *m.bus().log(),
        vec![
            BusOp::ReadU8 { addr: ADDR, reg: 0x40, value: 0x00 },
            BusOp::WriteU8 { addr: ADDR, reg: 0x40, value: 0x04 },
        ]
    );
}

#[test]
fn wake_preserves_other_sys_ctrl_bits() {
    let mut bus = SimBus::new();
    // GPIO and touch-sensor enables already set on the chip.
    bus.poke(0x40, 0x03);
    let m = MFX::new(bus, SimPin::new(), SimDelay::new(), ADDR)
        .ok()
        .expect("wake-up on the unlimited bus must succeed");
    assert_eq!(m.bus().reg(0x40), 0x07);
}

#[test]
fn set_control_packs_byte_and_writes_count() {
    let mut m = fresh_controller();
    assert!(m.set_idd_ctrl(false, false, NbShunt::SHUNT_NB_4).is_ok());
    // Control byte is the shunt count shifted left once: 4 << 1 = 0x08.
    assert_eq!(m.bus().reg(0x80), 0x08);
    // The shunts-on-board register gets the raw count.
    assert_eq!(m.bus().reg(0x98), 0x04);
    let log = m.bus().log();
    assert_eq!(
        log[log.len() - 2..],
        [
            BusOp::WriteU8 { addr: ADDR, reg: 0x80, value: 0x08 },
            BusOp::WriteU8 { addr: ADDR, reg: 0x98, value: 0x04 },
        ]
    );
}

#[test]
fn set_control_packs_flag_bits() {
    let mut m = fresh_controller();
    assert!(m.set_idd_ctrl(true, true, NbShunt::SHUNT_NB_2).is_ok());
    assert_eq!(m.bus().reg(0x80), (2 << 1) | 0x80 | 0x40);
    assert_eq!(m.bus().reg(0x98), 0x02);
}

#[test]
fn shunt0_issues_exactly_two_writes_in_order() {
    let mut m = fresh_controller();
    assert!(m.set_idd_shunt0(1000, 149).is_ok());
    let log = m.bus().log();
    assert_eq!(
        log[log.len() - 2..],
        [
            BusOp::WriteBeU16 { addr: ADDR, reg: 0x82, value: 1000 },
            BusOp::WriteU8 { addr: ADDR, reg: 0x90, value: 149 },
        ]
    );
    // 1000 = 0x03E8, big-endian on the wire.
    assert_eq!(m.bus().reg(0x82), 0x03);
    assert_eq!(m.bus().reg(0x83), 0xE8);
    assert_eq!(m.bus().reg(0x90), 149);
}

#[test]
fn each_shunt_slot_has_its_register_pair() {
    let mut m = fresh_controller();
    assert!(m.set_idd_shunt1(0x1234, 1).is_ok());
    assert!(m.set_idd_shunt2(0x2345, 2).is_ok());
    assert!(m.set_idd_shunt3(0x3456, 3).is_ok());
    assert!(m.set_idd_shunt4(0x4567, 4).is_ok());
    assert_eq!(m.bus().reg(0x84), 0x12);
    assert_eq!(m.bus().reg(0x85), 0x34);
    assert_eq!(m.bus().reg(0x91), 1);
    assert_eq!(m.bus().reg(0x86), 0x23);
    assert_eq!(m.bus().reg(0x87), 0x45);
    assert_eq!(m.bus().reg(0x92), 2);
    assert_eq!(m.bus().reg(0x88), 0x34);
    assert_eq!(m.bus().reg(0x89), 0x56);
    assert_eq!(m.bus().reg(0x93), 3);
    assert_eq!(m.bus().reg(0x8A), 0x45);
    assert_eq!(m.bus().reg(0x8B), 0x67);
    assert_eq!(m.bus().reg(0x94), 4);
}

#[test]
fn gain_and_vdd_min_are_big_endian() {
    let mut m = fresh_controller();
    assert!(m.set_idd_gain(4967).is_ok());
    assert!(m.set_idd_vdd_min(2000).is_ok());
    // 4967 = 0x1367, 2000 = 0x07D0.
    assert_eq!(m.bus().reg(0x8C), 0x13);
    assert_eq!(m.bus().reg(0x8D), 0x67);
    assert_eq!(m.bus().reg(0x8E), 0x07);
    assert_eq!(m.bus().reg(0x8F), 0xD0);
}

#[test]
fn nb_measurement_writes_count_register() {
    let mut m = fresh_controller();
    assert!(m.set_idd_nb_measurment(10).is_ok());
    assert_eq!(m.bus().reg(0x96), 10);
}

#[test]
fn pre_delay_packs_unit_bit_with_magnitude() {
    let mut m = fresh_controller();
    assert!(m.set_idd_pre_delay(DelayUnit::TIME_20_MS, 5).is_ok());
    assert_eq!(m.bus().reg(0x81), 0x80 | 5);
    assert!(m.set_idd_pre_delay(DelayUnit::TIME_5_MS, 5).is_ok());
    assert_eq!(m.bus().reg(0x81), 5);
}

#[test]
fn delay_magnitude_saturates_at_seven_bits() {
    let mut m = fresh_controller();
    // min(v, 0x7F): 0x7F passes unchanged, 0x80 and 0xFF saturate.
    assert!(m.set_idd_pre_delay(DelayUnit::TIME_5_MS, 0x7F).is_ok());
    assert_eq!(m.bus().reg(0x81), 0x7F);
    assert!(m.set_idd_pre_delay(DelayUnit::TIME_5_MS, 0x80).is_ok());
    assert_eq!(m.bus().reg(0x81), 0x7F);
    assert!(m.set_idd_meas_delta_delay(DelayUnit::TIME_20_MS, 0xFF).is_ok());
    assert_eq!(m.bus().reg(0x97), 0x80 | 0x7F);
}

#[test]
fn start_sets_bit_and_preserves_configuration() {
    let mut bus = SimBus::new();
    // Control register pre-set as if configured earlier.
    bus.poke(0x80, 0x08);
    let mut m = MFX::new(bus, SimPin::new(), SimDelay::new(), ADDR)
        .ok()
        .expect("wake-up on the unlimited bus must succeed");
    assert!(m.idd_start().is_ok());
    assert_eq!(m.bus().reg(0x80), 0x09);
    // A second start without an intervening read changes nothing.
    assert!(m.idd_start().is_ok());
    assert_eq!(m.bus().reg(0x80), 0x09);
}

#[test]
fn gain_write_failing_on_second_byte_keeps_first_byte() {
    // One byte for the wake-up write, one more before the bus gives out.
    let bus = SimBus::with_write_budget(2);
    let mut m = MFX::new(bus, SimPin::new(), SimDelay::new(), ADDR)
        .ok()
        .expect("wake-up fits in the budget");
    assert!(m.set_idd_gain(0x1367).is_err());
    // No rollback: the high byte landed, the low byte never did.
    assert_eq!(m.bus().reg(0x8C), 0x13);
    assert_eq!(m.bus().reg(0x8D), 0x00);
    // The failed operation is not in the history.
    let log = m.bus().log();
    assert_eq!(log.len(), 2);
    assert_eq!(log[1], BusOp::WriteU8 { addr: ADDR, reg: 0x40, value: 0x04 });
}

#[test]
fn shunt_config_failing_on_delay_write_leaves_stale_delay() {
    // Wake-up takes one byte, the shunt value two; the stabilization write
    // then fails, pairing the new value with the stale delay.
    let bus = SimBus::with_write_budget(3);
    let mut m = MFX::new(bus, SimPin::new(), SimDelay::new(), ADDR)
        .ok()
        .expect("wake-up fits in the budget");
    assert!(m.set_idd_shunt0(1000, 149).is_err());
    assert_eq!(m.bus().reg(0x82), 0x03);
    assert_eq!(m.bus().reg(0x83), 0xE8);
    assert_eq!(m.bus().reg(0x90), 0x00);
    let log = m.bus().log();
    assert_eq!(log[log.len() - 1], BusOp::WriteBeU16 { addr: ADDR, reg: 0x82, value: 1000 });
}

#[test]
fn exhausted_bus_fails_the_wake_up() {
    let bus = SimBus::with_write_budget(0);
    assert!(MFX::new(bus, SimPin::new(), SimDelay::new(), ADDR).is_err());
}

#[test]
fn measurement_waits_then_reads_24_bits() {
    let mut bus = SimBus::new();
    // The chip-side raw value: 0x0301F4, big-endian over 0x14..0x16.
    bus.poke(0x14, 0x03);
    bus.poke(0x15, 0x01);
    bus.poke(0x16, 0xF4);
    let mut m = MFX::new(bus, SimPin::new(), SimDelay::new(), ADDR)
        .ok()
        .expect("wake-up on the unlimited bus must succeed");
    let a = m.idd_get_value().ok().expect("read on the unlimited bus must succeed");
    // Four 500 ms waits after the 10 us wake-up pulse.
    assert_eq!(*m.delay_source().log(), vec![10, 500_000, 500_000, 500_000, 500_000]);
    let log = m.bus().log();
    assert_eq!(log[log.len() - 1], BusOp::ReadBeU24 { addr: ADDR, reg: 0x14, value: 0x0301F4 });
    // 0x0301F4 = 197108 at exponent 8: nano band, divisor 10.
    assert_eq!(a.display(), "1971080nA");
}

#[test]
fn end_to_end_configure_start_read_decode() {
    let mut bus = SimBus::new();
    // The chip will hold raw value 500 (0x0001F4) when the measurement is read.
    bus.poke(0x14, 0x00);
    bus.poke(0x15, 0x01);
    bus.poke(0x16, 0xF4);
    let mut m = MFX::new(bus, SimPin::new(), SimDelay::new(), ADDR)
        .ok()
        .expect("wake-up on the unlimited bus must succeed");
    assert!(m.set_idd_ctrl(false, false, NbShunt::SHUNT_NB_1).is_ok());
    assert!(m.set_idd_gain(4967).is_ok());
    assert!(m.set_idd_vdd_min(2000).is_ok());
    assert!(m.set_idd_shunt0(1000, 149).is_ok());
    assert!(m.set_idd_nb_measurment(10).is_ok());
    assert!(m.idd_start().is_ok());
    // Configuration bits survive the start: (1 << 1) | start.
    assert_eq!(m.bus().reg(0x80), 0x03);
    let a = m.idd_get_value().ok().expect("read on the unlimited bus must succeed");
    // 500 at exponent 8: nano band, divisor 10^(9-8) = 10.
    assert_eq!(a.display(), "5000nA");
}

#[test]
fn diagnostics_read_their_registers() {
    let mut bus = SimBus::new();
    bus.poke(0x00, 0x7B);
    bus.poke(0x01, 0x01);
    bus.poke(0x02, 0x10);
    bus.poke(0x04, 2);
    bus.poke(0x1A, 3);
    let mut m = MFX::new(bus, SimPin::new(), SimDelay::new(), ADDR)
        .ok()
        .expect("wake-up on the unlimited bus must succeed");
    assert_eq!(m.chip_id().ok(), Some(0x7B));
    assert_eq!(m.firmware_version().ok(), Some(0x0110));
    assert_eq!(m.error_code().ok(), Some(2));
    assert_eq!(m.idd_last_shunt_used().ok(), Some(3));
    assert_eq!(m.idd_ctrl().ok(), Some(0x00));
    assert!(m.set_idd_ctrl(false, false, NbShunt::SHUNT_NB_1).is_ok());
    assert_eq!(m.idd_shunts_on_board().ok(), Some(1));
}
