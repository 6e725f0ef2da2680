//! The UART driver: byte- and string-oriented output over the one serial
//! device, with a one-shot hardware initialization.
//!
//! The driver owns the sole handle to the register block. All output
//! operations demand that initialization has happened first: output before
//! initialization is a programming error excluded by precondition, not a
//! runtime-checked condition. Initialization itself is one-shot — calling it
//! a second time is likewise out of contract, because whether the hardware
//! tolerates being reprogrammed is left unspecified.

use vstd::prelude::*;
use vstd::slice::slice_index_get;
use vstd::string::StringSliceAdditionalSpecFns;
use crate::registers::RegisterBlock;
use crate::registers::LINE_CONTROL_EIGHT_BIT;
use crate::registers::OFFSET_DATA;
use crate::registers::OFFSET_LINE_CONTROL;
use crate::registers::OFFSET_LINE_STATUS;
use crate::registers::STATUS_TX_IDLE;

verus! {

/// The serial line-ending: carriage return followed by line feed.
pub open spec fn crlf() -> Seq<u8> {
    ("\r\n").spec_bytes()
}

/// Driver for the one UART device.
pub struct Uart {
    regs: RegisterBlock,
    ready: bool,
}

impl Uart {
    /// The bytes this driver has put on the serial line, oldest first: the
    /// output stream an attached terminal observes.
    pub closed spec fn wire(self) -> Seq<u8> {
        self.regs.wire()
    }

    /// The one-time hardware initialization has been performed.
    pub closed spec fn is_ready(self) -> bool {
        self.ready
    }

    /// The driver's view of the hardware is consistent: once ready, the
    /// line-control register holds the configuration that initialization
    /// programmed.
    pub closed spec fn wf(self) -> bool {
        self.ready ==> self.regs.line_control() == LINE_CONTROL_EIGHT_BIT
    }

    /// A driver as it stands at power-on: hardware untouched, not yet
    /// initialized, nothing on the wire.
    pub fn at_reset() -> (u: Uart)
        ensures
            !u.is_ready(),
            u.wf(),
            u.wire() == Seq::<u8>::empty(),
    {
        Uart { regs: RegisterBlock::at_reset(), ready: false }
    }

    /// One-shot hardware initialization: programs the device into its
    /// operating line configuration and establishes the ready state. Must
    /// run exactly once, before any write; nothing appears on the wire.
    pub fn initialize(&mut self)
        requires
            !old(self).is_ready(),
        ensures
            final(self).is_ready(),
            final(self).wf(),
            final(self).wire() == old(self).wire(),
    {
        self.regs.write(OFFSET_LINE_CONTROL, LINE_CONTROL_EIGHT_BIT);
        self.ready = true;
    }

    /// Busy-polls the line status until the transmit path is idle, then
    /// writes `b` to the data register: exactly `b` is appended to the
    /// wire. The poll is a tight spin, not a yield — there is no other
    /// runnable work — and if the hardware never reported idle it would
    /// spin forever, which is the accepted fault model.
    pub fn write_byte(&mut self, b: u8)
        requires
            old(self).is_ready(),
            old(self).wf(),
        ensures
            final(self).is_ready(),
            final(self).wf(),
            final(self).wire() == old(self).wire().push(b),
    {
        let mut status: u8 = self.regs.read(OFFSET_LINE_STATUS);
        while status & STATUS_TX_IDLE == 0
            invariant
                self == old(self),
                status == STATUS_TX_IDLE,
            decreases 0int,
        {
            proof {
                assert(STATUS_TX_IDLE & STATUS_TX_IDLE != 0) by (bit_vector);
            }
            status = self.regs.read(OFFSET_LINE_STATUS);
        }
        self.regs.write(OFFSET_DATA, b);
    }

    /// Transmits every byte of `bytes`, in order: afterwards the wire holds
    /// exactly the old stream followed by `bytes` — no insertion, drop,
    /// duplication, or reordering.
    pub fn write_bytes(&mut self, bytes: &[u8])
        requires
            old(self).is_ready(),
            old(self).wf(),
        ensures
            final(self).is_ready(),
            final(self).wf(),
            final(self).wire() == old(self).wire() + bytes@,
    {
        let n: usize = bytes.len();
        let mut i: usize = 0;
        proof {
            assert(old(self).wire() + bytes@.subrange(0, 0) =~= old(self).wire());
        }
        while i < n
            invariant
                i <= n,
                n == bytes@.len(),
                self.is_ready(),
                self.wf(),
                self.wire() == old(self).wire() + bytes@.subrange(0, i as int),
            decreases n - i,
        {
            let b: u8 = *slice_index_get(bytes, i);
            self.write_byte(b);
            proof {
                assert((old(self).wire() + bytes@.subrange(0, i as int)).push(bytes@[i as int])
                    =~= old(self).wire() + bytes@.subrange(0, i + 1));
            }
            i = i + 1;
        }
        proof {
            assert(bytes@.subrange(0, n as int) =~= bytes@);
        }
    }

    /// Transmits the UTF-8 bytes of `s`, in order, exactly as
    /// `write_bytes` would.
    pub fn write_str_bytes(&mut self, s: &str)
        requires
            old(self).is_ready(),
            old(self).wf(),
        ensures
            final(self).is_ready(),
            final(self).wf(),
            final(self).wire() == old(self).wire() + s.spec_bytes(),
    {
        self.write_bytes(s.as_bytes());
    }

    /// Read-only view of the transmitted stream, for an observer outside
    /// the core (a test harness standing in for the attached terminal).
    pub fn transmitted(&self) -> (r: &Vec<u8>)
        ensures
            r@ == self.wire(),
    {
        self.regs.transmitted()
    }
}

} // verus!
