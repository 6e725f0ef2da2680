//! Typed access to the UART's memory-mapped register block.
//!
//! The block is a fixed base address plus a small set of register offsets.
//! Register state changes through hardware side effects, not ordinary data
//! flow, so the block is modelled explicitly: the hardware-visible state is a
//! struct, and every access goes through `read` / `write`, which stand for
//! single, ordered, non-cached accesses to the physical addresses. Exactly
//! one live handle to the block exists for the process lifetime; it is owned
//! by the UART driver.

use vstd::prelude::*;

verus! {

/// Physical base address of the UART register block in the target's memory
/// map. Every register lives at `UART_BASE_ADDRESS + offset`.
pub const UART_BASE_ADDRESS: usize = 0x1000_0000;

/// Offset of the data register. A write hands one byte to the transmitter;
/// a read would fetch a received byte (reception is unused, so the model
/// latches zero there).
pub const OFFSET_DATA: usize = 0;

/// Offset of the line-control register, which selects the line
/// configuration the transmitter operates with.
pub const OFFSET_LINE_CONTROL: usize = 3;

/// Offset of the read-only line-status register.
pub const OFFSET_LINE_STATUS: usize = 5;

/// Line-status bit: the transmit path is idle and can accept a byte.
pub const STATUS_TX_IDLE: u8 = 0x20;

/// Line-control value selecting an eight-bit word, the configuration the
/// driver programs once at initialization.
pub const LINE_CONTROL_EIGHT_BIT: u8 = 0x03;

/// The offsets a driver may write. The line-status register is read-only.
pub open spec fn is_writable_offset(offset: usize) -> bool {
    offset == OFFSET_DATA || offset == OFFSET_LINE_CONTROL
}

/// The offsets a driver may read.
pub open spec fn is_readable_offset(offset: usize) -> bool {
    offset == OFFSET_DATA || offset == OFFSET_LINE_CONTROL || offset == OFFSET_LINE_STATUS
}

/// The physical address of the register at `offset`: pure address
/// computation, the only arithmetic the register interface does.
pub fn register_address(offset: usize) -> (a: usize)
    requires
        is_readable_offset(offset),
    ensures
        a == UART_BASE_ADDRESS + offset,
{
    UART_BASE_ADDRESS + offset
}

/// The hardware-visible state of the UART register block.
///
/// `sent` records every byte the transmitter has put on the serial line, in
/// order: it is the output stream an attached terminal observes. `lcr` is
/// the current line-control value. The transmitter of this device drains
/// immediately, so the line status always reports the transmit path idle; on
/// slower hardware the bit can be clear for a while, which only lengthens
/// the driver's poll and changes nothing observable on the wire.
pub struct RegisterBlock {
    lcr: u8,
    sent: Vec<u8>,
}

impl RegisterBlock {
    /// The bytes the transmitter has put on the serial line, oldest first.
    pub closed spec fn wire(self) -> Seq<u8> {
        self.sent@
    }

    /// The current line-control value.
    pub closed spec fn line_control(self) -> u8 {
        self.lcr
    }

    /// What a read of `offset` returns: the last-written control value, the
    /// always-idle line status, or zero from the unused receive side.
    pub open spec fn spec_read(self, offset: usize) -> u8 {
        if offset == OFFSET_LINE_STATUS {
            STATUS_TX_IDLE
        } else if offset == OFFSET_LINE_CONTROL {
            self.line_control()
        } else {
            0
        }
    }

    /// The register block as the hardware presents it at power-on: nothing
    /// configured, nothing transmitted.
    pub fn at_reset() -> (r: RegisterBlock)
        ensures
            r.wire() == Seq::<u8>::empty(),
            r.line_control() == 0,
    {
        RegisterBlock { lcr: 0, sent: Vec::new() }
    }

    /// Read-only view of the transmitted stream, for an observer outside
    /// the core (a test harness standing in for the attached terminal).
    pub fn transmitted(&self) -> (r: &Vec<u8>)
        ensures
            r@ == self.wire(),
    {
        &self.sent
    }

    /// One ordered read of the register at `offset`. Reading an offset
    /// outside the defined set is a programming error, not a runtime-checked
    /// condition: the precondition excludes it.
    pub fn read(&self, offset: usize) -> (r: u8)
        requires
            is_readable_offset(offset),
        ensures
            r == self.spec_read(offset),
    {
        if offset == OFFSET_LINE_STATUS {
            STATUS_TX_IDLE
        } else if offset == OFFSET_LINE_CONTROL {
            self.lcr
        } else {
            0u8
        }
    }

    /// One ordered write of the register at `offset`. A write to the data
    /// register puts `value` on the wire; a write to the line-control
    /// register replaces the configuration and touches the wire not at all.
    pub fn write(&mut self, offset: usize, value: u8)
        requires
            is_writable_offset(offset),
        ensures
            offset == OFFSET_DATA ==> final(self).wire() == old(self).wire().push(value)
                && final(self).line_control() == old(self).line_control(),
            offset == OFFSET_LINE_CONTROL ==> final(self).wire() == old(self).wire()
                && final(self).line_control() == value,
    {
        if offset == OFFSET_DATA {
            self.sent.push(value);
        } else {
            self.lcr = value;
        }
    }
}

} // verus!
