// The register interface: ordered reads and writes against the
// memory-mapped block, as the driver sees them.

use rust_sandbox::registers::register_address;
use rust_sandbox::registers::RegisterBlock;
use rust_sandbox::registers::UART_BASE_ADDRESS;
use rust_sandbox::registers::LINE_CONTROL_EIGHT_BIT;
use rust_sandbox::registers::OFFSET_DATA;
use rust_sandbox::registers::OFFSET_LINE_CONTROL;
use rust_sandbox::registers::OFFSET_LINE_STATUS;
use rust_sandbox::registers::STATUS_TX_IDLE;

#[test]
fn data_writes_reach_the_wire_in_order() {
    let mut r = RegisterBlock::at_reset();
    r.write(OFFSET_DATA, b'H');
    r.write(OFFSET_DATA, b'i');
    assert_eq!(r.transmitted().as_slice(), b"Hi");
}

#[test]
fn line_control_write_is_latched_not_transmitted() {
    let mut r = RegisterBlock::at_reset();
    r.write(OFFSET_LINE_CONTROL, LINE_CONTROL_EIGHT_BIT);
    assert_eq!(r.transmitted().len(), 0);
    assert_eq!(r.read(OFFSET_LINE_CONTROL), LINE_CONTROL_EIGHT_BIT);
}

#[test]
fn line_status_reports_transmitter_idle() {
    let r = RegisterBlock::at_reset();
    assert_ne!(r.read(OFFSET_LINE_STATUS) & STATUS_TX_IDLE, 0);
}

#[test]
fn register_addresses_sit_on_the_base() {
    assert_eq!(register_address(OFFSET_DATA), UART_BASE_ADDRESS);
    assert_eq!(register_address(OFFSET_LINE_STATUS), UART_BASE_ADDRESS + 5);
}

#[test]
fn receive_side_is_unused_and_reads_zero() {
    let r = RegisterBlock::at_reset();
    assert_eq!(r.read(OFFSET_DATA), 0);
}
