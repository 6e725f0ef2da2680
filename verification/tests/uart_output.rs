// The driver's output stream: every byte handed to the driver appears on
// the wire, in order, with nothing inserted, dropped, duplicated or
// reordered.

use rust_sandbox::uart::Uart;

#[test]
fn write_bytes_exact_stream() {
    let mut u = Uart::at_reset();
    u.initialize();
    u.write_bytes(b"Hello");
    assert_eq!(u.transmitted().as_slice(), b"Hello");
}

#[test]
fn write_bytes_empty_sequence() {
    let mut u = Uart::at_reset();
    u.initialize();
    u.write_bytes(b"");
    assert_eq!(u.transmitted().len(), 0);
}

#[test]
fn write_bytes_appends_in_order() {
    let mut u = Uart::at_reset();
    u.initialize();
    u.write_bytes(b"abc");
    u.write_bytes(b"def");
    assert_eq!(u.transmitted().as_slice(), b"abcdef");
}

#[test]
fn write_byte_appends_one() {
    let mut u = Uart::at_reset();
    u.initialize();
    u.write_byte(0x41);
    u.write_byte(0x0d);
    u.write_byte(0x0a);
    assert_eq!(u.transmitted().as_slice(), b"A\r\n");
}

#[test]
fn write_str_bytes_is_utf8() {
    let mut u = Uart::at_reset();
    u.initialize();
    u.write_str_bytes("caf\u{e9}");
    assert_eq!(u.transmitted().as_slice(), "caf\u{e9}".as_bytes());
}

#[test]
fn initialize_emits_nothing() {
    let mut u = Uart::at_reset();
    u.initialize();
    assert_eq!(u.transmitted().len(), 0);
}
