//! The boot-to-runtime handoff and the core's terminal transitions.
//!
//! A single hart moves from hardware reset to a running freestanding
//! program in fixed stages: `Reset` (power-on at the hardware-defined
//! address, no stack yet), `StackEstablished` (startup code has set the
//! stack pointer — a precondition of every function call), and
//! `EntryRunning` (control has reached the runtime entry point, which
//! initializes the console singleton and then runs the program logic).
//! `Halted` is reached only through the fault-termination protocol and is
//! terminal. No console output, and no program logic of any kind, happens
//! before the stack is established.

use vstd::prelude::*;
use vstd::string::StringSliceAdditionalSpecFns;
use crate::console::Console;
use crate::fault::fault_report_bytes;
use crate::fault::write_fault_report;
use crate::fault::FaultRecord;
use crate::uart::crlf;

verus! {

/// The stage the hart is in, from power-on to quiescence.
#[derive(Clone, Copy, Debug, PartialEq, Eq, Structural)]
pub enum BootState {
    /// Power-on at the hardware-defined address: no stack, no valid data.
    Reset,
    /// Startup code has set the stack pointer; calls are now possible.
    StackEstablished,
    /// Control is inside the runtime entry point. Terminal on the success
    /// path: the entry function may return or loop, nothing further is
    /// orchestrated.
    EntryRunning,
    /// Reached only via the fault-termination protocol; terminal.
    Halted,
}

/// The transitions the handoff admits. `Halted` has no way out.
pub open spec fn boot_step_allowed(pre: BootState, post: BootState) -> bool {
    match pre {
        BootState::Reset => post is StackEstablished,
        BootState::StackEstablished => post is EntryRunning,
        BootState::EntryRunning => post is EntryRunning || post is Halted,
        BootState::Halted => post is Halted,
    }
}

/// The first fixed line the program prints.
pub open spec fn greeting_line_bytes() -> Seq<u8> {
    ("Hello World from RISC-V !").spec_bytes() + crlf()
}

/// The second fixed line the program prints.
pub open spec fn closing_line_bytes() -> Seq<u8> {
    ("Main ended. Ctrl+A X to terminate.").spec_bytes() + crlf()
}

/// Everything the success path puts on the wire: exactly the two fixed
/// lines, each CRLF-terminated, and nothing else.
pub open spec fn main_output_bytes() -> Seq<u8> {
    greeting_line_bytes() + closing_line_bytes()
}

/// The whole core: the hart's boot stage together with the console it
/// owns.
pub struct Core {
    stage: BootState,
    console: Console,
}

impl Core {
    /// The boot stage the core is in.
    pub closed spec fn state(self) -> BootState {
        self.stage
    }

    /// The console singleton has been initialized.
    pub closed spec fn console_initialized(self) -> bool {
        self.console.is_initialized()
    }

    /// The bytes the core has put on the serial line, oldest first.
    pub closed spec fn wire(self) -> Seq<u8> {
        self.console.wire()
    }

    /// The handoff invariant: the console is consistent, nothing exists of
    /// it — and so no output — before the stack stands, and once it exists
    /// the core is in (or past) the entry point.
    pub closed spec fn wf(self) -> bool {
        &&& self.console.wf()
        &&& (self.stage is Reset || self.stage is StackEstablished)
            ==> !self.console.is_initialized()
        &&& self.console.is_initialized() ==> (self.stage is EntryRunning
            || self.stage is Halted)
    }

    /// The core as it powers on: at reset, console untouched, wire silent.
    pub fn at_reset() -> (c: Core)
        ensures
            c.wf(),
            c.state() is Reset,
            !c.console_initialized(),
            c.wire() == Seq::<u8>::empty(),
    {
        Core { stage: BootState::Reset, console: Console::at_reset() }
    }

    /// The low-level startup step: the stack pointer is set to the
    /// linker-provided top of stack. On the target this is the work of the
    /// boot assembly; it must complete before any function call, and it
    /// produces no output.
    pub fn establish_stack(&mut self)
        requires
            old(self).wf(),
            old(self).state() is Reset,
        ensures
            final(self).wf(),
            final(self).state() is StackEstablished,
            !final(self).console_initialized(),
            final(self).wire() == old(self).wire(),
            boot_step_allowed(old(self).state(), final(self).state()),
    {
        self.stage = BootState::StackEstablished;
    }

    /// Control transfers to the runtime entry point, whose first act is to
    /// initialize the console singleton — before the first output of the
    /// process, and only once. Still nothing on the wire.
    pub fn enter_entry(&mut self)
        requires
            old(self).wf(),
            old(self).state() is StackEstablished,
        ensures
            final(self).wf(),
            final(self).state() is EntryRunning,
            final(self).console_initialized(),
            final(self).wire() == old(self).wire(),
            boot_step_allowed(old(self).state(), final(self).state()),
    {
        self.stage = BootState::EntryRunning;
        self.console.global_init();
    }

    /// The program logic of the entry function: prints the greeting line
    /// and the closing line through the console singleton, in that order,
    /// and nothing else.
    pub fn run_main(&mut self)
        requires
            old(self).wf(),
            old(self).state() is EntryRunning,
            old(self).console_initialized(),
        ensures
            final(self).wf(),
            final(self).state() is EntryRunning,
            final(self).console_initialized(),
            final(self).wire() == old(self).wire() + main_output_bytes(),
            boot_step_allowed(old(self).state(), final(self).state()),
    {
        let u = self.console.get_global();
        u.write_str_bytes("Hello World from RISC-V !");
        u.write_str_bytes("\r\n");
        u.write_str_bytes("Main ended. Ctrl+A X to terminate.");
        u.write_str_bytes("\r\n");
        proof {
            assert(self.wire() =~= old(self).wire() + main_output_bytes());
        }
    }

    /// The whole success path, power-on to quiescence: establish the
    /// stack, hand off into the entry point, initialize the console, print
    /// the two fixed lines. Afterwards the wire holds exactly
    /// `main_output_bytes()` and nothing further is orchestrated.
    pub fn boot_and_run(&mut self)
        requires
            old(self).wf(),
            old(self).state() is Reset,
        ensures
            final(self).wf(),
            final(self).state() is EntryRunning,
            final(self).console_initialized(),
            final(self).wire() == main_output_bytes(),
    {
        self.establish_stack();
        self.enter_entry();
        self.run_main();
        proof {
            assert(old(self).wire() + main_output_bytes() =~= main_output_bytes());
        }
    }

    /// Permanent termination: the unconditional transition into the halted
    /// wait state. On the target the core issues a wait-for-interrupt
    /// instruction in an endless loop here; in the model `Halted` is
    /// terminal, no operation accepts a halted core, and nothing more ever
    /// reaches the wire.
    pub fn halt(&mut self)
        requires
            old(self).wf(),
            old(self).state() is EntryRunning,
        ensures
            final(self).wf(),
            final(self).state() is Halted,
            final(self).console_initialized() == old(self).console_initialized(),
            final(self).wire() == old(self).wire(),
            boot_step_allowed(old(self).state(), final(self).state()),
    {
        self.stage = BootState::Halted;
    }

    /// The fault-termination protocol, entire: emit the diagnostic block
    /// for `record` through the console singleton, then halt forever.
    /// Exactly `fault_report_bytes(record)` is appended to the wire, and
    /// it is the last output of the process: the halted state admits no
    /// transition out and no further operation.
    pub fn raise_fault(&mut self, record: &FaultRecord)
        requires
            old(self).wf(),
            old(self).state() is EntryRunning,
            old(self).console_initialized(),
        ensures
            final(self).wf(),
            final(self).state() is Halted,
            final(self).wire() == old(self).wire() + fault_report_bytes(*record),
            boot_step_allowed(old(self).state(), final(self).state()),
    {
        let u = self.console.get_global();
        write_fault_report(u, record);
        self.halt();
    }

    /// Whether the core is inside the entry point, observable at run time.
    pub fn is_running(&self) -> (r: bool)
        ensures
            r == (self.state() is EntryRunning),
    {
        match self.stage {
            BootState::EntryRunning => true,
            _ => false,
        }
    }

    /// Whether the core has halted, observable at run time.
    pub fn is_halted(&self) -> (r: bool)
        ensures
            r == (self.state() is Halted),
    {
        match self.stage {
            BootState::Halted => true,
            _ => false,
        }
    }

    /// Whether the console singleton exists yet, observable at run time.
    pub fn console_is_initialized(&self) -> (r: bool)
        ensures
            r == self.console_initialized(),
    {
        self.console.initialized()
    }

    /// Read-only view of everything on the serial line so far, as the
    /// attached terminal observes it.
    pub fn observed_output(&self) -> (r: &Vec<u8>)
        requires
            self.console_initialized(),
        ensures
            r@ == self.wire(),
    {
        self.console.transmitted()
    }
}

/// The halted wait state is terminal: the handoff's step relation admits
/// no transition out of `Halted`, so re-invoking the diagnostic print path
/// — or anything else — after the halt is unreachable by construction.
pub proof fn lemma_halted_terminal(post: BootState)
    ensures
        boot_step_allowed(BootState::Halted, post) ==> post is Halted,
{
}

} // verus!
