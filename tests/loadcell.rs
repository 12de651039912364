use std::cell::RefCell;
use std::collections::VecDeque;
use std::rc::Rc;

use instrument_core::hx711::{LoadCellPins, PinHistory, HX711};

/// Simulated converter lines: the data line replays `levels`, low when empty.
#[derive(Default)]
struct PinState {
    levels: VecDeque<bool>,
    clock_highs: usize,
    clock_lows: usize,
    clock_is_high: bool,
    delays: Vec<u32>,
    waits: usize,
}

#[derive(Clone)]
struct SimPins(Rc<RefCell<PinState>>);

impl LoadCellPins for SimPins {
    fn history(&self) -> PinHistory {
        unreachable!("a specification item: it is never run")
    }

    fn data_is_high(&mut self) -> bool {
        self.0.borrow_mut().levels.pop_front().unwrap_or(false)
    }

    fn clock_high(&mut self) {
        let mut s = self.0.borrow_mut();
        s.clock_highs += 1;
        s.clock_is_high = true;
    }

    fn clock_low(&mut self) {
        let mut s = self.0.borrow_mut();
        s.clock_lows += 1;
        s.clock_is_high = false;
    }

    fn delay_ms(&mut self, ms: u32) {
        self.0.borrow_mut().delays.push(ms);
    }

    fn wait_data_low(&mut self, _delay_ms: u32) {
        self.0.borrow_mut().waits += 1;
    }
}

fn pins() -> (Rc<RefCell<PinState>>, SimPins) {
    let state = Rc::new(RefCell::new(PinState::default()));
    (state.clone(), SimPins(state))
}

/// Queues the 24 data levels of one sample, most significant bit first.
fn push_sample(state: &Rc<RefCell<PinState>>, bytes_msb_first: [u8; 3]) {
    let mut s = state.borrow_mut();
    for byte in bytes_msb_first {
        for i in (0..8).rev() {
            s.levels.push_back(byte >> i & 1 == 1);
        }
    }
}

fn push_value(state: &Rc<RefCell<PinState>>, value: i32) {
    let raw = (value as u32) & 0x00FF_FFFF;
    push_sample(state, [(raw >> 16) as u8, (raw >> 8) as u8, raw as u8]);
}

#[test]
fn minimum_sample_is_sign_extended() {
    let (state, p) = pins();
    // bytes as stored low first: [0x00, 0x00, 0x80]
    push_sample(&state, [0x80, 0x00, 0x00]);
    let mut cell = HX711::new(p, 1);
    let v = cell.read();
    assert_eq!(v, -8388608);
    assert_eq!(v as u32, 0xFF80_0000);
}

#[test]
fn positive_and_negative_samples_decode() {
    let (state, p) = pins();
    push_sample(&state, [0x7F, 0xFF, 0xFF]);
    push_sample(&state, [0xFF, 0xFF, 0xFF]);
    push_sample(&state, [0x01, 0x02, 0x03]);
    let mut cell = HX711::new(p, 1);
    assert_eq!(cell.read(), 8388607);
    assert_eq!(cell.read(), -1);
    assert_eq!(cell.read(), 0x010203);
}

#[test]
fn read_waits_then_clocks_24_bits_and_gain_pulses() {
    let (state, p) = pins();
    push_sample(&state, [0, 0, 1]);
    let mut cell = HX711::new(p, 3);
    assert_eq!(cell.read(), 1);
    let s = state.borrow();
    assert_eq!(s.waits, 1);
    assert_eq!(s.clock_highs, 24 + 3);
    assert_eq!(s.clock_lows, 24 + 3);
    assert!(!s.clock_is_high);
}

fn pulses_after_set_gain(initial: u8, gain: u8) -> usize {
    let (state, p) = pins();
    push_sample(&state, [0, 0, 0]);
    let mut cell = HX711::new(p, initial);
    cell.set_gain(gain);
    cell.read();
    let highs = state.borrow().clock_highs;
    highs - 24
}

#[test]
fn gain_maps_to_trailing_pulses() {
    assert_eq!(pulses_after_set_gain(2, 128), 1);
    assert_eq!(pulses_after_set_gain(1, 64), 3);
    assert_eq!(pulses_after_set_gain(1, 32), 2);
}

#[test]
fn unknown_gain_keeps_previous_setting() {
    assert_eq!(pulses_after_set_gain(3, 100), 3);
    assert_eq!(pulses_after_set_gain(2, 0), 2);
    assert_eq!(pulses_after_set_gain(1, 255), 1);
}

#[test]
fn average_truncates_toward_zero() {
    let (state, p) = pins();
    for v in [1, 2, 2] {
        push_value(&state, v);
    }
    for v in [-1, -2, -2] {
        push_value(&state, v);
    }
    let mut cell = HX711::new(p, 1);
    assert_eq!(cell.read_average(3), 1);
    assert_eq!(cell.read_average(3), -1);
}

#[test]
fn average_of_extremes_does_not_overflow() {
    let (state, p) = pins();
    for _ in 0..4 {
        push_value(&state, 8388607);
    }
    for _ in 0..4 {
        push_value(&state, -8388608);
    }
    let mut cell = HX711::new(p, 1);
    assert_eq!(cell.read_average(4), 8388607);
    assert_eq!(cell.read_average(4), -8388608);
}

#[test]
fn tare_then_value_on_same_stream_is_zero() {
    let (state, p) = pins();
    for _ in 0..2 {
        for v in [1000, -250, 37] {
            push_value(&state, v);
        }
    }
    let mut cell = HX711::new(p, 1);
    cell.tare(3);
    assert_eq!(cell.get_offset(), 262);
    assert_eq!(cell.get_value(3), 0);
}

#[test]
fn value_subtracts_offset() {
    let (state, p) = pins();
    push_value(&state, 500);
    push_value(&state, -8388608);
    let mut cell = HX711::new(p, 1);
    cell.set_offset(200);
    assert_eq!(cell.get_value(1), 300);
    cell.set_offset(8388607);
    assert_eq!(cell.get_value(1), -16777215);
}

#[test]
fn retry_reports_ready_within_budget() {
    let (state, p) = pins();
    state.borrow_mut().levels.extend([true, true, false]);
    let mut cell = HX711::new(p, 1);
    assert!(cell.wait_ready_retry(5, 7));
    assert_eq!(state.borrow().delays, vec![7, 7]);
}

#[test]
fn retry_gives_up_after_budget() {
    let (state, p) = pins();
    state.borrow_mut().levels.extend([true, true, true]);
    let mut cell = HX711::new(p, 1);
    assert!(!cell.wait_ready_retry(2, 5));
    assert_eq!(state.borrow().delays, vec![5, 5]);
    assert!(!cell.wait_ready_retry(0, 5));
}

#[test]
fn ready_is_data_low() {
    let (state, p) = pins();
    state.borrow_mut().levels.extend([true, false]);
    let mut cell = HX711::new(p, 1);
    assert!(!cell.is_ready());
    assert!(cell.is_ready());
}

#[test]
fn power_down_leaves_clock_high_and_power_up_lowers_it() {
    let (state, p) = pins();
    let mut cell = HX711::new(p, 1);
    cell.power_down();
    assert!(state.borrow().clock_is_high);
    cell.power_up();
    assert!(!state.borrow().clock_is_high);
}
