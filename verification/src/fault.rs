//! The fault-termination protocol: the system's entire error-reporting
//! surface.
//!
//! When the program logic determines it cannot continue, it builds a fault
//! record — an optional source location and a human-readable message —
//! hands it to the protocol, and never gets control back in any useful
//! sense: the protocol emits one diagnostic block through the console and
//! then the core halts forever. There are no retries, no recovery, and no
//! alternate handler.

use vstd::prelude::*;
use vstd::string::StringSliceAdditionalSpecFns;
use vstd::utf8::encode_utf8;
use crate::uart::crlf;
use crate::uart::Uart;

verus! {

/// Where in the program a fault was raised.
pub struct SourceLocation {
    /// Identifier of the source file.
    pub file: String,
    /// Line number within that file.
    pub line: u32,
}

/// An unrecoverable condition, described at the point of failure and
/// consumed immediately by the termination protocol.
pub struct FaultRecord {
    /// The source location, when one is known.
    pub location: Option<SourceLocation>,
    /// The human-readable failure message.
    pub message: String,
}

/// The usual decimal numeral of `n` as ASCII bytes: no sign, no leading
/// zeros, and the single digit `0` for zero.
pub open spec fn dec_rep(n: nat) -> Seq<u8>
    decreases n,
{
    if n < 10 {
        seq![(48 + n) as u8]
    } else {
        dec_rep(n / 10).push((48 + n % 10) as u8)
    }
}

/// The diagnostic block the protocol emits for `record`: the fixed prefix,
/// then either the location and message or the fallback text, CRLF-ended.
pub open spec fn fault_report_bytes(record: FaultRecord) -> Seq<u8> {
    ("Aborting: ").spec_bytes() + match record.location {
        Some(loc) => ("line ").spec_bytes() + dec_rep(loc.line as nat) + (", file ").spec_bytes()
            + encode_utf8(loc.file@) + (": ").spec_bytes() + encode_utf8(record.message@)
            + crlf(),
        None => ("no information available.").spec_bytes() + crlf(),
    }
}

/// Appends the decimal numeral of `n` to `out`, most significant digit
/// first.
pub fn push_decimal(out: &mut Vec<u8>, n: u32)
    ensures
        final(out)@ == old(out)@ + dec_rep(n as nat),
    decreases n,
{
    if n >= 10 {
        push_decimal(out, n / 10);
    }
    out.push(48 + (n % 10) as u8);
    proof {
        if n < 10 {
            assert(old(out)@.push((48 + n % 10) as u8) =~= old(out)@ + dec_rep(n as nat));
        } else {
            assert((old(out)@ + dec_rep((n / 10) as nat)).push((48 + n % 10) as u8)
                =~= old(out)@ + dec_rep(n as nat));
        }
    }
}

/// Emits the whole diagnostic block for `record` through an initialized
/// driver: exactly `fault_report_bytes(record)` is appended to the wire.
pub fn write_fault_report(uart: &mut Uart, record: &FaultRecord)
    requires
        old(uart).is_ready(),
        old(uart).wf(),
    ensures
        final(uart).is_ready(),
        final(uart).wf(),
        final(uart).wire() == old(uart).wire() + fault_report_bytes(*record),
{
    uart.write_str_bytes("Aborting: ");
    match &record.location {
        Some(loc) => {
            uart.write_str_bytes("line ");
            let mut digits: Vec<u8> = Vec::new();
            push_decimal(&mut digits, loc.line);
            uart.write_bytes(digits.as_slice());
            uart.write_str_bytes(", file ");
            uart.write_str_bytes(loc.file.as_str());
            uart.write_str_bytes(": ");
            uart.write_str_bytes(record.message.as_str());
            uart.write_str_bytes("\r\n");
        },
        None => {
            uart.write_str_bytes("no information available.");
            uart.write_str_bytes("\r\n");
        },
    }
    proof {
        assert(uart.wire() =~= old(uart).wire() + fault_report_bytes(*record));
    }
}

} // verus!
