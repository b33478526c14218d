//! Record pin states as a VCD trace.
//!
//! A [`VcdWriterBuilder`] emits the header while registering output pins,
//! each bound to a fresh shared cell; [`VcdWriterBuilder::build`] closes the
//! header and yields a [`VcdWriter`], which appends caller-supplied
//! timestamps and, on demand, one scalar change record per registered pin
//! with that pin's current state.  The whole trace is built in an in-memory
//! byte buffer whose exact contents the contracts below describe.

use crate::pins::{arc_clone, value_byte, AtomicPinState, OpenDrainPin, PinState, PushPullPin, Value};
use crate::text::{append_dec, append_id, append_str, dec_bytes, id_bytes};
use crate::timescale::{nanos_exact, spec_nanos, Duration};
use crate::VcdError;
use std::sync::Arc;
use core::sync::atomic::Ordering;
use vstd::prelude::*;
use vstd::string::StringSliceAdditionalSpecFns;

verus! {

/// The change record for the pin with identifier code `code` holding the
/// scalar value `v`: the value byte, the identifier, a line feed.
pub open spec fn spec_change(code: nat, v: Value) -> Seq<u8> {
    seq![value_byte(v)] + id_bytes(code) + "\n".spec_bytes()
}

/// One change record per registered pin, in registration order: the pin with
/// code `i` holds `vals[i]`.
pub open spec fn spec_changes(vals: Seq<Value>) -> Seq<u8>
    decreases vals.len(),
{
    if vals.len() == 0 {
        Seq::empty()
    } else {
        spec_changes(vals.drop_last()) + spec_change((vals.len() - 1) as nat, vals.last())
    }
}

proof fn lemma_changes_push(vals: Seq<Value>, v: Value)
    ensures
        spec_changes(vals.push(v)) == spec_changes(vals) + spec_change(vals.len(), v),
{
    assert(vals.push(v).drop_last() =~= vals);
    assert(vals.push(v).last() == v);
}

/// The variable declaration line for the pin with identifier code `code`
/// whose name is the byte sequence `reference`.
pub open spec fn spec_var_line(code: nat, reference: Seq<u8>) -> Seq<u8> {
    "$var wire 1 ".spec_bytes() + id_bytes(code) + " ".spec_bytes() + reference
        + " $end\n".spec_bytes()
}

/// The scope declaration line for a module whose name is the byte sequence
/// `module`.
pub open spec fn spec_scope_line(module: Seq<u8>) -> Seq<u8> {
    "$scope module ".spec_bytes() + module + " $end\n".spec_bytes()
}

/// A builder for a [`VcdWriter`].
///
/// Registration order fixes each pin's identifier code: the pin registered
/// `i`-th gets code `i`, so the first pin's identifier is `!`.
pub struct VcdWriterBuilder {
    out: Vec<u8>,
    pins: Vec<Arc<AtomicPinState>>,
}

impl VcdWriterBuilder {
    /// The bytes of the header emitted so far.
    pub closed spec fn out_bytes(&self) -> Seq<u8> {
        self.out@
    }

    /// How many pins have been registered.
    pub closed spec fn pin_count(&self) -> nat {
        self.pins@.len()
    }

    /// Creates a new builder whose scope is a module named `top`.
    pub fn new() -> (r: Self)
        ensures
            r.out_bytes() == "$timescale 1 ns $end\n".spec_bytes() + spec_scope_line("top".spec_bytes()),
            r.pin_count() == 0,
    {
        Self::new_with_module("top")
    }

    /// Creates a new builder with an explicit module name: emits the fixed
    /// `1 ns` timescale declaration and opens the named scope.
    pub fn new_with_module(module: &str) -> (r: Self)
        ensures
            r.out_bytes() == "$timescale 1 ns $end\n".spec_bytes() + spec_scope_line(module.spec_bytes()),
            r.pin_count() == 0,
    {
        let mut out: Vec<u8> = Vec::new();
        append_str(&mut out, "$timescale 1 ns $end\n");
        append_scope(&mut out, module);
        VcdWriterBuilder { out, pins: Vec::new() }
    }

    /// Adds a push-pull pin with a corresponding named VCD variable.
    ///
    /// The new pin's cell starts [`PinState::Low`] and its identifier code is
    /// the number of previously registered pins.
    pub fn add_push_pull_pin(&mut self, reference: &str) -> (r: PushPullPin)
        ensures
            final(self).out_bytes() == old(self).out_bytes() + spec_var_line(
                old(self).pin_count(),
                reference.spec_bytes(),
            ),
            final(self).pin_count() == old(self).pin_count() + 1,
    {
        let state = Arc::new(AtomicPinState::new_with_state(PinState::Low));
        let pin = PushPullPin::new(arc_clone(&state));
        self.append_var(reference);
        self.pins.push(state);
        pin
    }

    /// Adds an open-drain pin with a corresponding named VCD variable.
    ///
    /// The new pin's cell starts [`PinState::Floating`] and its identifier
    /// code is the number of previously registered pins.
    pub fn add_open_drain_pin(&mut self, reference: &str) -> (r: OpenDrainPin)
        ensures
            final(self).out_bytes() == old(self).out_bytes() + spec_var_line(
                old(self).pin_count(),
                reference.spec_bytes(),
            ),
            final(self).pin_count() == old(self).pin_count() + 1,
    {
        let state = Arc::new(AtomicPinState::new_with_state(PinState::Floating));
        let pin = OpenDrainPin::new(arc_clone(&state));
        self.append_var(reference);
        self.pins.push(state);
        pin
    }

    /// Opens a further module scope used for variables added hereafter.
    pub fn add_module(&mut self, identifier: &str)
        ensures
            final(self).out_bytes() == old(self).out_bytes() + spec_scope_line(identifier.spec_bytes()),
            final(self).pin_count() == old(self).pin_count(),
    {
        append_scope(&mut self.out, identifier);
    }

    /// Builds a VCD writer: closes the scope, ends the definitions and
    /// carries the registered pins over.  This consumes the builder.
    pub fn build(self) -> (r: VcdWriter)
        ensures
            r.out_bytes() == self.out_bytes() + "$upscope $end\n$enddefinitions $end\n".spec_bytes(),
            r.pin_count() == self.pin_count(),
    {
        let VcdWriterBuilder { mut out, pins } = self;
        append_str(&mut out, "$upscope $end\n$enddefinitions $end\n");
        VcdWriter { out, pins }
    }

    fn append_var(&mut self, reference: &str)
        ensures
            final(self).out_bytes() == old(self).out_bytes() + spec_var_line(
                old(self).pin_count(),
                reference.spec_bytes(),
            ),
            final(self).pins == old(self).pins,
    {
        let code: u64 = pin_code(self.pins.len());
        append_str(&mut self.out, "$var wire 1 ");
        append_id(&mut self.out, code);
        append_str(&mut self.out, " ");
        append_str(&mut self.out, reference);
        append_str(&mut self.out, " $end\n");
    }
}

/// A writer for VCD files: appends timestamps and pin samples to the trace
/// begun by its builder.
pub struct VcdWriter {
    out: Vec<u8>,
    pins: Vec<Arc<AtomicPinState>>,
}

impl VcdWriter {
    /// The bytes of the trace emitted so far.
    pub closed spec fn out_bytes(&self) -> Seq<u8> {
        self.out@
    }

    /// How many pins were registered with the builder.
    pub closed spec fn pin_count(&self) -> nat {
        self.pins@.len()
    }

    /// Writes a timestamp marker for the following samples.
    ///
    /// Succeeds exactly when `timestamp` is a whole number of nanoseconds
    /// that fits in a `u64`, appending `#` followed by that number; otherwise
    /// reports [`VcdError::TimestampConversion`] and leaves the trace
    /// untouched.
    pub fn timestamp(&mut self, timestamp: Duration) -> (r: Result<(), VcdError>)
        ensures
            match r {
                Ok(()) => nanos_exact(timestamp) && final(self).out_bytes() == old(self).out_bytes()
                    + "#".spec_bytes() + dec_bytes(spec_nanos(timestamp) as nat)
                    + "\n".spec_bytes(),
                Err(e) => e == VcdError::TimestampConversion && !nanos_exact(timestamp)
                    && *final(self) == *old(self),
            },
            final(self).pin_count() == old(self).pin_count(),
    {
        let ns: u64 = match timestamp.to_nanos() {
            Ok(n) => n,
            Err(e) => {
                return Err(e);
            },
        };
        append_str(&mut self.out, "#");
        append_dec(&mut self.out, ns);
        append_str(&mut self.out, "\n");
        Ok(())
    }

    /// Samples every registered pin and appends one change record for each,
    /// in registration order, holding the pin's current state.
    ///
    /// Every sample re-emits every pin's value, whether or not it changed
    /// since the previous sample.  Which values are read cannot be promised —
    /// any holder of a pin handle may store into a cell at any moment — but
    /// each is the encoding of a pin state, so the unknown value `X` is
    /// never emitted.
    pub fn sample(&mut self)
        ensures
            final(self).pin_count() == old(self).pin_count(),
            exists|vals: Seq<Value>|
                vals.len() == old(self).pin_count() && final(self).out_bytes() == old(
                    self,
                ).out_bytes() + spec_changes(vals) && (forall|i: int|
                    0 <= i < vals.len() ==> vals[i] != Value::X),
    {
        let ghost mut vals: Seq<Value> = Seq::empty();
        let mut i: usize = 0;
        while i < self.pins.len()
            invariant
                i <= self.pins@.len(),
                self.pins == old(self).pins,
                vals.len() == i,
                self.out@ == old(self).out@ + spec_changes(vals),
                forall|j: int| 0 <= j < vals.len() ==> vals[j] != Value::X,
            decreases self.pins@.len() - i,
        {
            let state: PinState = self.pins[i].load(Ordering::SeqCst);
            let value: Value = Value::from(state);
            proof {
                lemma_changes_push(vals, value);
            }
            self.out.push(value.to_byte());
            append_id(&mut self.out, pin_code(i));
            append_str(&mut self.out, "\n");
            proof {
                vals = vals.push(value);
            }
            i += 1;
        }
    }

    /// Hands the finished trace out as its bytes, consuming the writer.
    pub fn into_bytes(self) -> (r: Vec<u8>)
        ensures
            r@ == self.out_bytes(),
    {
        self.out
    }
}

/// The identifier code of the pin at index `i` of the registration list.
fn pin_code(i: usize) -> (r: u64)
    ensures
        r == i,
{
    i as u64
}

/// Appends a scope declaration line for a module named `module`.
fn append_scope(out: &mut Vec<u8>, module: &str)
    ensures
        final(out)@ == old(out)@ + spec_scope_line(module.spec_bytes()),
{
    append_str(out, "$scope module ");
    append_str(out, module);
    append_str(out, " $end\n");
}

} // verus!
