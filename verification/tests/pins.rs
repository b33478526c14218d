use std::sync::atomic::Ordering;
use std::sync::Arc;
use vcd_pins::pins::PinState::{Floating, High, Low};
use vcd_pins::pins::Value::{V0, V1, X, Z};
use vcd_pins::pins::{AtomicPinState, InputPin, OpenDrainPin, PushPullPin};

#[test]
fn pin_state() {
    assert_eq!(V0, Low.into());
    assert_eq!(V1, High.into());
    assert_eq!(Z, Floating.into());

    assert_eq!(Low, V0.into());
    assert_eq!(High, V1.into());
    assert_eq!(Floating, Z.into());
    assert_eq!(Floating, X.into());
}

#[test]
fn atomic_pin_state() {
    let state = AtomicPinState::new();
    assert_eq!(Floating, state.load(Ordering::SeqCst));
    // loading second time should still contain value
    assert_eq!(Floating, state.load(Ordering::SeqCst));
    state.store(High, Ordering::SeqCst);
    assert_eq!(High, state.load(Ordering::SeqCst));
    let state = AtomicPinState::new_with_state(Low);
    assert_eq!(Low, state.load(Ordering::SeqCst));
}

#[test]
fn hal_input_pin() {
    let state = Arc::new(AtomicPinState::new());
    let pin = InputPin::new(state.clone());
    assert_eq!(Ok(false), pin.try_is_high());
    assert_eq!(Ok(false), pin.try_is_low());
    state.store(High, Ordering::SeqCst);
    assert_eq!(Ok(true), pin.try_is_high());
    assert_eq!(Ok(false), pin.try_is_low());
    state.store(Low, Ordering::SeqCst);
    assert_eq!(Ok(false), pin.try_is_high());
    assert_eq!(Ok(true), pin.try_is_low());
}

#[test]
fn hal_push_pull_pin() {
    let state = Arc::new(AtomicPinState::new());
    let mut pin = PushPullPin::new(state.clone());
    assert_eq!(Floating, state.load(Ordering::SeqCst));
    assert_eq!(Ok(()), pin.try_set_high());
    assert_eq!(High, state.load(Ordering::SeqCst));
    assert_eq!(Ok(true), pin.try_is_high());
    assert_eq!(Ok(false), pin.try_is_low());
    assert_eq!(Ok(true), pin.try_is_set_high());
    assert_eq!(Ok(false), pin.try_is_set_low());
    assert_eq!(Ok(()), pin.try_set_low());
    assert_eq!(Low, state.load(Ordering::SeqCst));
    assert_eq!(Ok(false), pin.try_is_high());
    assert_eq!(Ok(true), pin.try_is_low());
    assert_eq!(Ok(false), pin.try_is_set_high());
    assert_eq!(Ok(true), pin.try_is_set_low());
}

#[test]
fn hal_open_drain_pin() {
    let state = Arc::new(AtomicPinState::new());
    let mut pin = OpenDrainPin::new(state.clone());
    assert_eq!(Floating, state.load(Ordering::SeqCst));
    assert_eq!(Ok(()), pin.try_set_high());
    assert_eq!(Low, state.load(Ordering::SeqCst));
    assert_eq!(Ok(false), pin.try_is_high());
    assert_eq!(Ok(true), pin.try_is_low());
    assert_eq!(Ok(true), pin.try_is_set_high());
    assert_eq!(Ok(false), pin.try_is_set_low());
    assert_eq!(Ok(()), pin.try_set_low());
    assert_eq!(Floating, state.load(Ordering::SeqCst));
    assert_eq!(Ok(false), pin.try_is_high());
    assert_eq!(Ok(false), pin.try_is_low());
    assert_eq!(Ok(false), pin.try_is_set_high());
    assert_eq!(Ok(true), pin.try_is_set_low());
}
