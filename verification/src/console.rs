//! The process-wide console: one shared handle to the one UART driver.
//!
//! The entry point, the program logic and the fault handler all need write
//! access to the same physical device, and there is no allocator and no
//! context-threading convention to pass a handle through. The console
//! therefore has an explicit two-phase lifecycle: `global_init` constructs
//! and initializes the one driver instance, exactly once, before the first
//! output of the process; `get_global` hands out the shared handle and
//! assumes `global_init` already ran — calling it earlier is a programming
//! error excluded by precondition, matching the no-fault-handling model of
//! the rest of the system. Access needs no lock: the core is strictly
//! single-threaded, so serialization holds by construction.

use vstd::prelude::*;
use vstd::pervasive::unreached;
use crate::uart::Uart;

verus! {

/// The global console: holder of the single UART driver instance.
pub struct Console {
    driver: Option<Uart>,
}

impl Console {
    /// `global_init` has run: the one driver exists.
    pub closed spec fn is_initialized(self) -> bool {
        self.driver is Some
    }

    /// The single driver instance, meaningful once initialized.
    pub closed spec fn driver_view(self) -> Uart
        recommends
            self.is_initialized(),
    {
        self.driver->Some_0
    }

    /// The bytes the console has put on the serial line, oldest first;
    /// empty while the console is uninitialized.
    pub open spec fn wire(self) -> Seq<u8> {
        if self.is_initialized() {
            self.driver_view().wire()
        } else {
            Seq::<u8>::empty()
        }
    }

    /// The console's one driver is ready and consistent with the hardware.
    pub open spec fn wf(self) -> bool {
        self.is_initialized() ==> self.driver_view().is_ready() && self.driver_view().wf()
    }

    /// The console as the process starts: no driver yet, nothing output.
    pub fn at_reset() -> (c: Console)
        ensures
            !c.is_initialized(),
            c.wf(),
            c.wire() == Seq::<u8>::empty(),
    {
        Console { driver: None }
    }

    /// Constructs and initializes the one driver instance. Must run before
    /// the first output of the process's lifetime and must not be called
    /// more than once; the precondition enforces both. Nothing appears on
    /// the wire.
    pub fn global_init(&mut self)
        requires
            !old(self).is_initialized(),
        ensures
            final(self).is_initialized(),
            final(self).wf(),
            final(self).wire() == old(self).wire(),
    {
        let mut uart = Uart::at_reset();
        uart.initialize();
        self.driver = Some(uart);
    }

    /// Whether `global_init` has run, observable at run time.
    pub fn initialized(&self) -> (r: bool)
        ensures
            r == self.is_initialized(),
    {
        self.driver.is_some()
    }

    /// Read-only view of everything the console has put on the serial
    /// line, for an observer outside the core.
    pub fn transmitted(&self) -> (r: &Vec<u8>)
        requires
            self.is_initialized(),
        ensures
            r@ == self.wire(),
    {
        match &self.driver {
            Some(u) => u.transmitted(),
            None => unreached(),
        }
    }

    /// Hands out the shared handle to the one driver. The handle observes
    /// exactly the console's single hardware state, and the console's state
    /// afterwards is exactly what the caller leaves in the handle: there is
    /// no shadow state beside it.
    pub fn get_global(&mut self) -> (r: &mut Uart)
        requires
            old(self).is_initialized(),
            old(self).wf(),
        ensures
            *r == old(self).driver_view(),
            r.is_ready(),
            r.wf(),
            r.wire() == old(self).wire(),
            final(self).is_initialized(),
            final(self).driver_view() == *final(r),
            final(self).wire() == final(r).wire(),
    {
        match &mut self.driver {
            Some(u) => u,
            None => unreached(),
        }
    }
}

/// Handles taken from an initialized console all observe one consistent
/// hardware state: `get_global` changes nothing and returns exactly the
/// console's single driver, so what any two handles taken from the same
/// console state observe is one and the same driver state — there is no
/// divergent shadow state.
pub proof fn lemma_global_handles_consistent(c: Console, h1: Uart, h2: Uart)
    requires
        c.is_initialized(),
        h1 == c.driver_view(),
        h2 == c.driver_view(),
    ensures
        h1 == h2,
        h1.wire() == c.wire(),
{
}

} // verus!
