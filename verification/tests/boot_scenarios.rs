// End-to-end runs of the core: the success path and the two fault paths,
// observed as the attached terminal would see them.

use rust_sandbox::boot::Core;
use rust_sandbox::fault::FaultRecord;
use rust_sandbox::fault::SourceLocation;

#[test]
fn scenario_success_two_lines_then_silence() {
    let mut core = Core::at_reset();
    core.boot_and_run();
    assert_eq!(
        core.observed_output().as_slice(),
        b"Hello World from RISC-V !\r\nMain ended. Ctrl+A X to terminate.\r\n".as_slice(),
    );
    assert!(core.is_running());
    // Nothing further is orchestrated: the stream stays as it is.
    assert_eq!(
        core.observed_output().as_slice(),
        b"Hello World from RISC-V !\r\nMain ended. Ctrl+A X to terminate.\r\n".as_slice(),
    );
}

#[test]
fn initialization_happens_before_first_output() {
    let mut core = Core::at_reset();
    assert!(!core.console_is_initialized());
    core.establish_stack();
    assert!(!core.console_is_initialized());
    core.enter_entry();
    // The console exists before anything is printed, and nothing has been
    // printed yet.
    assert!(core.console_is_initialized());
    assert_eq!(core.observed_output().len(), 0);
}

#[test]
fn scenario_fault_with_location() {
    let mut core = Core::at_reset();
    core.establish_stack();
    core.enter_entry();
    let record = FaultRecord {
        location: Some(SourceLocation { file: String::from("x"), line: 42 }),
        message: String::from("bad state"),
    };
    core.raise_fault(&record);
    assert_eq!(
        core.observed_output().as_slice(),
        b"Aborting: line 42, file x: bad state\r\n".as_slice(),
    );
    assert!(core.is_halted());
}

#[test]
fn scenario_fault_without_location() {
    let mut core = Core::at_reset();
    core.establish_stack();
    core.enter_entry();
    let record = FaultRecord { location: None, message: String::from("whatever") };
    core.raise_fault(&record);
    assert_eq!(
        core.observed_output().as_slice(),
        b"Aborting: no information available.\r\n".as_slice(),
    );
    assert!(core.is_halted());
}

#[test]
fn fault_after_main_appends_diagnostic_then_halts() {
    let mut core = Core::at_reset();
    core.boot_and_run();
    let record = FaultRecord {
        location: Some(SourceLocation { file: String::from("main.rs"), line: 7 }),
        message: String::from("stuck"),
    };
    core.raise_fault(&record);
    assert_eq!(
        core.observed_output().as_slice(),
        b"Hello World from RISC-V !\r\nMain ended. Ctrl+A X to terminate.\r\n\
          Aborting: line 7, file main.rs: stuck\r\n"
            .as_slice(),
    );
    assert!(core.is_halted());
}
