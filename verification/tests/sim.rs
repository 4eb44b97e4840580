//! The simulated transport on its own: big-endian framing, address
//! wraparound, the byte-granular write budget, and direct register access.

use mfxstm32l152::bus::{BusOp, IddBus};
use mfxstm32l152::sim::{SimBus, SimBusError};

#[test]
fn transport_be16_round_trips() {
    let mut bus = SimBus::new();
    assert!(bus.write_be_u16(0x42, 0x82, 0xBEEF).is_ok());
    assert_eq!(bus.reg(0x82), 0xBE);
    assert_eq!(bus.reg(0x83), 0xEF);
    assert_eq!(bus.read_be_u16(0x42, 0x82).ok(), Some(0xBEEF));
    assert_eq!(
        *bus.log(),
        vec![
            BusOp::WriteBeU16 { addr: 0x42, reg: 0x82, value: 0xBEEF },
            BusOp::ReadBeU16 { addr: 0x42, reg: 0x82, value: 0xBEEF },
        ]
    );
}

#[test]
fn transport_wraps_at_end_of_address_space() {
    let mut bus = SimBus::new();
    assert!(bus.write_be_u16(0x42, 0xFF, 0x1234).is_ok());
    assert_eq!(bus.reg(0xFF), 0x12);
    assert_eq!(bus.reg(0x00), 0x34);
    assert_eq!(bus.read_be_u16(0x42, 0xFF).ok(), Some(0x1234));
}

#[test]
fn transport_assembles_24_bits_big_endian() {
    let mut bus = SimBus::new();
    bus.poke(0x14, 0xAB);
    bus.poke(0x15, 0xCD);
    bus.poke(0x16, 0xEF);
    assert_eq!(bus.read_be_u24(0x42, 0x14).ok(), Some(0xABCDEF));
}

#[test]
fn transport_budget_counts_written_bytes() {
    let mut bus = SimBus::with_write_budget(3);
    assert!(bus.write_u8(0x42, 0x10, 1).is_ok());
    assert!(bus.write_be_u16(0x42, 0x20, 0x0203).is_ok());
    assert_eq!(bus.write_u8(0x42, 0x30, 4), Err(SimBusError));
    assert_eq!(bus.reg(0x10), 1);
    assert_eq!(bus.reg(0x20), 0x02);
    assert_eq!(bus.reg(0x21), 0x03);
    assert_eq!(bus.reg(0x30), 0);
    // Reads stay free and keep succeeding.
    assert_eq!(bus.read_u8(0x42, 0x10).ok(), Some(1));
}

#[test]
fn transport_reads_cost_no_budget() {
    let mut bus = SimBus::with_write_budget(1);
    assert_eq!(bus.read_u8(0x42, 0x00).ok(), Some(0));
    assert_eq!(bus.read_be_u16(0x42, 0x00).ok(), Some(0));
    assert_eq!(bus.read_be_u24(0x42, 0x00).ok(), Some(0));
    assert!(bus.write_u8(0x42, 0x10, 9).is_ok());
}

#[test]
fn poke_leaves_no_history_and_spends_no_budget() {
    let mut bus = SimBus::with_write_budget(1);
    bus.poke(0x80, 0x08);
    assert_eq!(bus.reg(0x80), 0x08);
    assert!(bus.log().is_empty());
    assert!(bus.write_u8(0x42, 0x81, 1).is_ok());
}
