// The global console: one driver instance, created once, shared by every
// call site, with no divergent shadow state beside it.

use rust_sandbox::console::Console;

#[test]
fn starts_uninitialized() {
    let c = Console::at_reset();
    assert!(!c.initialized());
}

#[test]
fn global_init_creates_the_driver_silently() {
    let mut c = Console::at_reset();
    c.global_init();
    assert!(c.initialized());
    assert_eq!(c.transmitted().len(), 0);
}

#[test]
fn handles_observe_one_state() {
    let mut c = Console::at_reset();
    c.global_init();
    c.get_global().write_bytes(b"one ");
    // A later handle picks up exactly where the earlier one left the
    // single hardware state.
    c.get_global().write_bytes(b"state");
    assert_eq!(c.transmitted().as_slice(), b"one state");
    // Taking a handle changes nothing by itself.
    let _ = c.get_global();
    assert_eq!(c.transmitted().as_slice(), b"one state");
}
