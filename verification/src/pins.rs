//! Shared three-valued pin cells and the pin handles layered over them.
//!
//! An [`AtomicPinState`] owns one [`PinState`] inside an atomic integer, so a
//! cell can be shared freely between the thread that runs a decode or encode
//! loop and any threads that hold pin handles onto the same cell.  Because any
//! holder may store at any moment, nothing can be promised about the value a
//! load returns; the contracts below instead pin down the pure mapping logic:
//! how pin states are encoded as integers, how they correspond to VCD scalar
//! values, and which state each handle variant drives.

use core::convert::Infallible;
use core::sync::atomic::{AtomicUsize, Ordering};
use std::sync::Arc;
use vstd::prelude::*;

verus! {

/// A digital pin state.
#[derive(Clone, Copy, Debug, PartialEq, Eq, Structural)]
pub enum PinState {
    /// Logical high.
    High,
    /// Logical low.
    Low,
    /// Floating potential (not connected / high impedance).
    Floating,
}

/// A VCD scalar value, the four-valued logic a change record can carry.
#[derive(Clone, Copy, Debug, PartialEq, Eq, Structural)]
pub enum Value {
    /// Logical zero, written `0`.
    V0,
    /// Logical one, written `1`.
    V1,
    /// High impedance, written `Z`.
    Z,
    /// Unknown, written `X`.
    X,
}

/// The pin state a decoded VCD scalar value maps to; `X` collapses to
/// [`PinState::Floating`].
pub open spec fn state_of_value(v: Value) -> PinState {
    match v {
        Value::V0 => PinState::Low,
        Value::V1 => PinState::High,
        Value::Z => PinState::Floating,
        Value::X => PinState::Floating,
    }
}

/// The VCD scalar value a pin state encodes to; `X` is never produced.
pub open spec fn value_of_state(s: PinState) -> Value {
    match s {
        PinState::High => Value::V1,
        PinState::Low => Value::V0,
        PinState::Floating => Value::Z,
    }
}

impl From<Value> for PinState {
    fn from(val: Value) -> (r: PinState) {
        match val {
            Value::V0 => PinState::Low,
            Value::V1 => PinState::High,
            Value::Z => PinState::Floating,
            Value::X => PinState::Floating,
        }
    }
}

impl vstd::std_specs::convert::FromSpecImpl<Value> for PinState {
    open spec fn obeys_from_spec() -> bool {
        true
    }

    open spec fn from_spec(val: Value) -> PinState {
        state_of_value(val)
    }
}

impl From<PinState> for Value {
    fn from(state: PinState) -> (r: Value) {
        match state {
            PinState::High => Value::V1,
            PinState::Low => Value::V0,
            PinState::Floating => Value::Z,
        }
    }
}

impl vstd::std_specs::convert::FromSpecImpl<PinState> for Value {
    open spec fn obeys_from_spec() -> bool {
        true
    }

    open spec fn from_spec(state: PinState) -> Value {
        value_of_state(state)
    }
}

/// Encoding a pin state as a scalar value and decoding it again restores the
/// state exactly, and encoding never produces the unknown value `X`.
pub proof fn lemma_value_round_trip(s: PinState)
    ensures
        state_of_value(value_of_state(s)) == s,
        value_of_state(s) != Value::X,
{
}

/// The byte a scalar value is written as in a change record.
pub open spec fn value_byte(v: Value) -> u8 {
    match v {
        Value::V0 => 48u8,  // '0'
        Value::V1 => 49u8,  // '1'
        Value::Z => 90u8,  // 'Z'
        Value::X => 88u8,  // 'X'
    }
}

/// The pin state a change record's leading byte stands for, if it is a
/// scalar value byte; either case of `z` and `x` is accepted, and both map
/// the line to [`PinState::Floating`].
pub open spec fn state_of_change_byte(b: u8) -> Option<PinState> {
    if b == 48 {
        Some(PinState::Low)
    } else if b == 49 {
        Some(PinState::High)
    } else if b == 90 || b == 122 {
        Some(PinState::Floating)
    } else if b == 88 || b == 120 {
        Some(PinState::Floating)
    } else {
        None
    }
}

/// Writing any pin state as a change-record byte and reading that byte back
/// restores the state exactly, and the written byte is never the unknown
/// mark `X`.
pub proof fn lemma_change_byte_round_trip(s: PinState)
    ensures
        state_of_change_byte(value_byte(value_of_state(s))) == Some(s),
        value_byte(value_of_state(s)) != 88,
        value_byte(value_of_state(s)) != 120,
{
}

impl Value {
    /// The byte this scalar value is written as.
    pub fn to_byte(&self) -> (r: u8)
        ensures
            r == value_byte(*self),
    {
        match self {
            Value::V0 => 48,
            Value::V1 => 49,
            Value::Z => 90,
            Value::X => 88,
        }
    }
}

impl PinState {
    /// The pin state a change record's leading byte stands for, if any.
    pub fn from_change_byte(b: u8) -> (r: Option<PinState>)
        ensures
            r == state_of_change_byte(b),
    {
        if b == 48 {
            Some(PinState::Low)
        } else if b == 49 {
            Some(PinState::High)
        } else if b == 90 || b == 122 {
            Some(PinState::Floating)
        } else if b == 88 || b == 120 {
            Some(PinState::Floating)
        } else {
            None
        }
    }
}

/// Relies on `Arc::clone`: the returned handle refers to the same allocation
/// as `a`, so at the specification level it is the same value.
#[verifier::external_body]
pub(crate) fn arc_clone(a: &Arc<AtomicPinState>) -> (r: Arc<AtomicPinState>)
    ensures
        r == *a,
{
    Arc::clone(a)
}

/// The integer code a pin state is held as inside an atomic cell.
pub open spec fn spec_state_code(s: PinState) -> usize {
    match s {
        PinState::High => 1usize,
        PinState::Low => 2usize,
        PinState::Floating => 3usize,
    }
}

/// The pin state a stored integer code stands for.  Codes this library never
/// stores read back as [`PinState::Floating`].
pub open spec fn spec_code_state(c: usize) -> PinState {
    if c == 1 {
        PinState::High
    } else if c == 2 {
        PinState::Low
    } else {
        PinState::Floating
    }
}

fn state_code(s: PinState) -> (r: usize)
    ensures
        r == spec_state_code(s),
{
    match s {
        PinState::High => 1,
        PinState::Low => 2,
        PinState::Floating => 3,
    }
}

fn code_state(c: usize) -> (r: PinState)
    ensures
        r == spec_code_state(c),
{
    if c == 1 {
        PinState::High
    } else if c == 2 {
        PinState::Low
    } else {
        PinState::Floating
    }
}

/// A digital [`PinState`] which can be safely shared between threads.
///
/// The state lives in an [`AtomicUsize`]; because every holder of the cell may
/// store concurrently, a load is only known to return one of the three pin
/// states, never a particular one.
#[derive(Debug)]
pub struct AtomicPinState {
    state: AtomicUsize,
}

impl AtomicPinState {
    /// Creates a new atomic pin state with a floating state.
    pub fn new() -> Self {
        Self::new_with_state(PinState::Floating)
    }

    /// Creates a new atomic pin state with a given state.
    pub fn new_with_state(state: PinState) -> Self {
        AtomicPinState { state: AtomicUsize::new(state_code(state)) }
    }

    /// Loads a state from the atomic pin state.
    ///
    /// `order` describes the memory ordering of this operation, as for
    /// [`AtomicUsize::load`].
    pub fn load(&self, order: Ordering) -> PinState {
        code_state(self.state.load(order))
    }

    /// Stores a state into the atomic pin state.
    ///
    /// `order` describes the memory ordering of this operation, as for
    /// [`AtomicUsize::store`].
    pub fn store(&self, state: PinState, order: Ordering) {
        self.state.store(state_code(state), order);
    }
}

/// A read-only pin handle that can be safely shared between threads.
///
/// Reports logical high or low by comparing the shared cell's state; a
/// floating cell answers `false` to both queries.
#[derive(Clone, Debug)]
pub struct InputPin {
    state: Arc<AtomicPinState>,
}

impl InputPin {
    /// Creates a new input pin over a shared cell.
    pub fn new(state: Arc<AtomicPinState>) -> Self {
        InputPin { state }
    }

    /// Whether the shared cell currently holds [`PinState::High`].
    pub fn try_is_high(&self) -> (r: Result<bool, Infallible>)
        ensures
            r is Ok,
    {
        Ok(self.state.load(Ordering::SeqCst) == PinState::High)
    }

    /// Whether the shared cell currently holds [`PinState::Low`].
    pub fn try_is_low(&self) -> (r: Result<bool, Infallible>)
        ensures
            r is Ok,
    {
        Ok(self.state.load(Ordering::SeqCst) == PinState::Low)
    }
}

/// An output pin handle in push-pull configuration.
///
/// Driving high stores [`PinState::High`]; driving low stores
/// [`PinState::Low`].  The "is set" queries mirror the last driven value, and
/// the read queries report the cell state like an [`InputPin`].
#[derive(Clone, Debug)]
pub struct PushPullPin {
    state: Arc<AtomicPinState>,
}

impl PushPullPin {
    /// Creates a new push-pull output pin over a shared cell.
    pub fn new(state: Arc<AtomicPinState>) -> Self {
        PushPullPin { state }
    }

    /// Drives the pin high: stores [`PinState::High`] into the shared cell.
    pub fn try_set_high(&mut self) -> (r: Result<(), Infallible>)
        ensures
            r is Ok,
    {
        Ok(self.state.store(PinState::High, Ordering::SeqCst))
    }

    /// Drives the pin low: stores [`PinState::Low`] into the shared cell.
    pub fn try_set_low(&mut self) -> (r: Result<(), Infallible>)
        ensures
            r is Ok,
    {
        Ok(self.state.store(PinState::Low, Ordering::SeqCst))
    }

    /// Whether the last driven value still held by the cell is high.
    pub fn try_is_set_high(&self) -> (r: Result<bool, Infallible>)
        ensures
            r is Ok,
    {
        Ok(self.state.load(Ordering::SeqCst) == PinState::High)
    }

    /// Whether the last driven value still held by the cell is low.
    pub fn try_is_set_low(&self) -> (r: Result<bool, Infallible>)
        ensures
            r is Ok,
    {
        Ok(self.state.load(Ordering::SeqCst) == PinState::Low)
    }

    /// Whether the shared cell currently holds [`PinState::High`].
    pub fn try_is_high(&self) -> (r: Result<bool, Infallible>)
        ensures
            r is Ok,
    {
        Ok(self.state.load(Ordering::SeqCst) == PinState::High)
    }

    /// Whether the shared cell currently holds [`PinState::Low`].
    pub fn try_is_low(&self) -> (r: Result<bool, Infallible>)
        ensures
            r is Ok,
    {
        Ok(self.state.load(Ordering::SeqCst) == PinState::Low)
    }
}

/// An output pin handle in open-drain configuration.
///
/// Driving high pulls the line to ground and stores [`PinState::Low`];
/// driving low releases the line and stores [`PinState::Floating`].  The
/// "is set" queries report against that mapping, while the read queries
/// report the cell state like an [`InputPin`].
#[derive(Clone, Debug)]
pub struct OpenDrainPin {
    state: Arc<AtomicPinState>,
}

impl OpenDrainPin {
    /// Creates a new open-drain output pin over a shared cell.
    pub fn new(state: Arc<AtomicPinState>) -> Self {
        OpenDrainPin { state }
    }

    /// Drives the pin high: pulls to ground, storing [`PinState::Low`].
    pub fn try_set_high(&mut self) -> (r: Result<(), Infallible>)
        ensures
            r is Ok,
    {
        Ok(self.state.store(PinState::Low, Ordering::SeqCst))
    }

    /// Drives the pin low: releases the line, storing [`PinState::Floating`].
    pub fn try_set_low(&mut self) -> (r: Result<(), Infallible>)
        ensures
            r is Ok,
    {
        Ok(self.state.store(PinState::Floating, Ordering::SeqCst))
    }

    /// Whether the pin was last driven high, i.e. the cell is pulled low.
    pub fn try_is_set_high(&self) -> (r: Result<bool, Infallible>)
        ensures
            r is Ok,
    {
        Ok(self.state.load(Ordering::SeqCst) == PinState::Low)
    }

    /// Whether the pin was last driven low, i.e. the cell is floating.
    pub fn try_is_set_low(&self) -> (r: Result<bool, Infallible>)
        ensures
            r is Ok,
    {
        Ok(self.state.load(Ordering::SeqCst) == PinState::Floating)
    }

    /// Whether the shared cell currently holds [`PinState::High`].
    pub fn try_is_high(&self) -> (r: Result<bool, Infallible>)
        ensures
            r is Ok,
    {
        Ok(self.state.load(Ordering::SeqCst) == PinState::High)
    }

    /// Whether the shared cell currently holds [`PinState::Low`].
    pub fn try_is_low(&self) -> (r: Result<bool, Infallible>)
        ensures
            r is Ok,
    {
        Ok(self.state.load(Ordering::SeqCst) == PinState::Low)
    }
}

} // verus!
