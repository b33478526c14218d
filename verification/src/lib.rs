//! Replay and record digital signal traces in the VCD (Value Change Dump)
//! text format, exposing every signal as a thread-shared pin value.
//!
//! A [`reader::VcdReader`] parses a VCD header, hands out read-only
//! [`pins::InputPin`] handles for declared signals, and then walks the change
//! events of the body, storing each decoded value into the shared pin cells as
//! it advances from timestamp to timestamp.  A [`writer::VcdWriterBuilder`]
//! registers output pins, emits the matching VCD header, and the finished
//! [`writer::VcdWriter`] samples every registered pin on demand, appending
//! timestamps and scalar change records to its output buffer.

use vstd::prelude::*;

pub mod pins;
pub mod text;
pub mod timescale;
pub mod reader;
pub mod writer;

verus! {

/// The failures this library can report.
///
/// I/O is not performed here: the reader is handed the trace bytes and the
/// writer builds its output in memory, so every error is a property of the
/// values involved.
#[derive(Clone, Copy, Debug, PartialEq, Eq, Structural)]
pub enum VcdError {
    /// The header is not well-formed under the supported VCD subset.
    HeaderParse,
    /// The header declares no `$timescale`, so body ticks cannot be resolved.
    MissingTimescale,
    /// A duration cannot be represented as a whole number of nanoseconds.
    TimestampConversion,
}

} // verus!
