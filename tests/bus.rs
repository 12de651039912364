use std::cell::RefCell;
use std::collections::HashMap;
use std::rc::Rc;

use instrument_core::lcd::LCD;
use instrument_core::pca9685::{PCA9685, PCA9685_Register};
use instrument_core::shared::SharedBusHandle;
use instrument_core::twi::{TwiController, TwiError, TwiPort, WireHistory};

#[derive(Clone, Copy, PartialEq, Debug)]
enum Phase {
    Idle,
    Address,
    Write { addr: u8, first: bool },
    Read { addr: u8 },
    Absent,
}

/// A simulated two-wire bus: a set of devices, each a register file.
struct SimState {
    devices: HashMap<u8, Vec<u8>>,
    pointers: HashMap<u8, usize>,
    phase: Phase,
    pending: Option<u8>,
    data: u8,
    status: u8,
    current: Option<(u8, Vec<u8>)>,
    writes: Vec<(u8, Vec<u8>)>,
    clock: Option<(u8, u8)>,
    delays: Vec<u32>,
    controls: Vec<u8>,
}

impl SimState {
    fn new(addresses: &[u8]) -> Self {
        let mut devices = HashMap::new();
        for a in addresses {
            devices.insert(*a, vec![0u8; 256]);
        }
        SimState {
            devices,
            pointers: HashMap::new(),
            phase: Phase::Idle,
            pending: None,
            data: 0,
            status: 0xF8,
            current: None,
            writes: Vec::new(),
            clock: None,
            delays: Vec::new(),
            controls: Vec::new(),
        }
    }

    fn flush(&mut self) {
        if let Some((addr, bytes)) = self.current.take() {
            if !bytes.is_empty() {
                self.writes.push((addr, bytes));
            }
        }
    }

    fn receive(&mut self) {
        if let Phase::Read { addr } = self.phase {
            let p = *self.pointers.get(&addr).unwrap_or(&0);
            self.data = self.devices[&addr][p % 256];
            self.pointers.insert(addr, p + 1);
        } else {
            self.data = 0xFF;
        }
    }
}

#[derive(Clone)]
struct SimBus(Rc<RefCell<SimState>>);

impl TwiPort for SimBus {
    fn history(&self) -> WireHistory {
        unreachable!("a specification item: it is never run")
    }

    fn set_clock(&mut self, prescaler: u8, divisor: u8) {
        self.0.borrow_mut().clock = Some((prescaler, divisor));
    }

    fn write_control(&mut self, value: u8) {
        let mut s = self.0.borrow_mut();
        s.controls.push(value);
        match value {
            0xA4 => {
                s.flush();
                s.phase = Phase::Address;
                s.status = 0x08;
            }
            0x94 => {
                s.flush();
                s.phase = Phase::Idle;
            }
            0xC4 => {
                s.receive();
                s.status = 0x50;
            }
            0x84 => match s.pending.take() {
                Some(b) => match s.phase {
                    Phase::Address => {
                        let addr = b >> 1;
                        let read = b & 1 == 1;
                        let present = s.devices.contains_key(&addr);
                        s.status = match (present, read) {
                            (true, false) => 0x18,
                            (false, false) => 0x20,
                            (true, true) => 0x40,
                            (false, true) => 0x48,
                        };
                        s.phase = if !present {
                            Phase::Absent
                        } else if read {
                            Phase::Read { addr }
                        } else {
                            s.current = Some((addr, Vec::new()));
                            Phase::Write { addr, first: true }
                        };
                    }
                    Phase::Write { addr, first } => {
                        if let Some((_, bytes)) = s.current.as_mut() {
                            bytes.push(b);
                        }
                        if first {
                            s.pointers.insert(addr, b as usize);
                            s.phase = Phase::Write { addr, first: false };
                        } else {
                            let p = *s.pointers.get(&addr).unwrap_or(&0);
                            s.devices.get_mut(&addr).unwrap()[p % 256] = b;
                            s.pointers.insert(addr, p + 1);
                        }
                        s.status = 0x28;
                    }
                    _ => {
                        s.status = 0x30;
                    }
                },
                None => {
                    s.receive();
                    s.status = 0x58;
                }
            },
            _ => {}
        }
    }

    fn wait_flag(&mut self) {}

    fn write_data(&mut self, value: u8) {
        self.0.borrow_mut().pending = Some(value);
    }

    fn read_data(&mut self) -> u8 {
        self.0.borrow().data
    }

    fn read_status(&mut self) -> u8 {
        self.0.borrow().status
    }

    fn delay_us(&mut self, us: u32) {
        self.0.borrow_mut().delays.push(us);
    }
}

fn sim(addresses: &[u8]) -> (Rc<RefCell<SimState>>, SimBus) {
    let state = Rc::new(RefCell::new(SimState::new(addresses)));
    (state.clone(), SimBus(state))
}

fn set_register(state: &Rc<RefCell<SimState>>, addr: u8, reg: usize, value: u8) {
    state.borrow_mut().devices.get_mut(&addr).unwrap()[reg] = value;
}

/// The six expander bytes that send `value` in register `mode`.
fn expected_send(value: u8, mode: u8, backlight: u8) -> Vec<u8> {
    let mut out = Vec::new();
    for nib in [value & 0xF0, (value << 4) & 0xF0] {
        let bits = (nib | 0x04 | mode) & !0x02;
        out.push(bits | backlight);
        out.push(bits | 0x04 | backlight);
        out.push((bits & !0x04) | backlight);
    }
    out
}

fn expander_bytes(state: &Rc<RefCell<SimState>>) -> Vec<u8> {
    state
        .borrow()
        .writes
        .iter()
        .filter(|(a, _)| *a == 0x27)
        .map(|(_, b)| b[0])
        .collect()
}

#[test]
fn controller_sets_bus_clock() {
    let (state, bus) = sim(&[]);
    let _twi = TwiController::new(bus);
    assert_eq!(state.borrow().clock, Some((0x00, 0x0C)));
}

#[test]
fn scan_reports_exactly_the_present_devices() {
    let present = [0x00u8, 0x27, 0x40, 0x7E];
    let (_state, bus) = sim(&present);
    let mut twi = TwiController::new(bus);
    let found = twi.ping_for_devices();
    for addr in 0..0x7Fu8 {
        assert_eq!(found[addr as usize], present.contains(&addr), "address {:#x}", addr);
    }
}

#[test]
fn scan_of_empty_bus_finds_nothing() {
    let (_state, bus) = sim(&[]);
    let mut twi = TwiController::new(bus);
    assert!(twi.ping_for_devices().iter().all(|p| !p));
}

#[test]
fn ping_tells_present_from_absent() {
    let (_state, bus) = sim(&[0x40]);
    let mut twi = TwiController::new(bus);
    assert!(twi.ping_device(0x40));
    assert!(!twi.ping_device(0x41));
}

#[test]
fn write_reg_frames_start_address_payload_stop() {
    let (state, bus) = sim(&[0x50]);
    let mut twi = TwiController::new(bus);
    twi.write_reg(0x50, &[0x10, 0xAA, 0xBB]);
    let s = state.borrow();
    assert_eq!(s.writes, vec![(0x50, vec![0x10, 0xAA, 0xBB])]);
    assert_eq!(s.controls, vec![0xA4, 0x84, 0x84, 0x84, 0x84, 0x94]);
    assert_eq!(s.devices[&0x50][0x10], 0xAA);
    assert_eq!(s.devices[&0x50][0x11], 0xBB);
}

#[test]
fn read_reg_acks_all_but_last_byte() {
    let (state, bus) = sim(&[0x50]);
    for (i, v) in [1u8, 2, 3].iter().enumerate() {
        set_register(&state, 0x50, 0x20 + i, *v);
    }
    let mut twi = TwiController::new(bus);
    let mut buf = [0u8; 3];
    twi.read_reg(0x50, 0x20, &mut buf);
    assert_eq!(buf, [1, 2, 3]);
    let s = state.borrow();
    assert_eq!(s.controls, vec![0xA4, 0x84, 0x84, 0xA4, 0x84, 0xC4, 0xC4, 0x84, 0x94]);
}

#[test]
fn read_reg_twice_without_change_is_identical() {
    let (state, bus) = sim(&[0x50]);
    for i in 0..4 {
        set_register(&state, 0x50, 0x08 + i, 0x30 + i as u8);
    }
    let mut twi = TwiController::new(bus);
    let mut first = [0u8; 4];
    let mut second = [0u8; 4];
    twi.read_reg(0x50, 0x08, &mut first);
    twi.read_reg(0x50, 0x08, &mut second);
    assert_eq!(first, second);
    assert_eq!(first, [0x30, 0x31, 0x32, 0x33]);
}

#[test]
fn acquire_fails_while_held_and_succeeds_after_release() {
    let (_state, bus) = sim(&[]);
    let mut handle = SharedBusHandle::new(TwiController::new(bus));
    assert_eq!(handle.acquire(), Ok(()));
    assert_eq!(handle.acquire(), Err(TwiError::BusBusy));
    handle.release();
    assert_eq!(handle.acquire(), Ok(()));
}

#[test]
fn pwm_init_without_device_writes_nothing() {
    let (state, bus) = sim(&[]);
    let mut handle = SharedBusHandle::new(TwiController::new(bus));
    let mut pwm = PCA9685::new(0x40);
    assert_eq!(pwm.init(&mut handle), Err(TwiError::NoConnection));
    assert!(state.borrow().writes.is_empty());
    assert_eq!(handle.acquire(), Ok(()));
}

#[test]
fn pwm_init_writes_mode_then_prescaler() {
    let (state, bus) = sim(&[0x40]);
    let mut handle = SharedBusHandle::new(TwiController::new(bus));
    let mut pwm = PCA9685::new(0x40);
    assert_eq!(pwm.init(&mut handle), Ok(()));
    assert_eq!(
        state.borrow().writes,
        vec![(0x40, vec![0x00, 0x30]), (0x40, vec![0xFE, 0x03])]
    );
}

#[test]
fn pwm_init_on_held_bus_is_busy() {
    let (state, bus) = sim(&[0x40]);
    let mut handle = SharedBusHandle::new(TwiController::new(bus));
    handle.acquire().unwrap();
    let mut pwm = PCA9685::new(0x40);
    assert_eq!(pwm.init(&mut handle), Err(TwiError::BusBusy));
    assert!(state.borrow().controls.is_empty());
}

#[test]
fn pwm_channel_packet_is_little_endian() {
    let (state, bus) = sim(&[0x40]);
    let mut handle = SharedBusHandle::new(TwiController::new(bus));
    let mut pwm = PCA9685::new(0x40);
    assert_eq!(pwm.set_motor_speed(&mut handle, 3, 0x0123, 0x0ABC), Ok(()));
    assert_eq!(
        state.borrow().writes,
        vec![(0x40, vec![0x06 + 12, 0x23, 0x01, 0xBC, 0x0A])]
    );
    assert_eq!(pwm.set_motor_speed(&mut handle, 15, 0, 4095), Ok(()));
    assert_eq!(state.borrow().writes[1], (0x40, vec![0x42, 0x00, 0x00, 0xFF, 0x0F]));
}

#[test]
fn pwm_register_values() {
    assert_eq!(PCA9685_Register::MODE1.value(), 0x00);
    assert_eq!(PCA9685_Register::LED0_ON_L.value(), 0x06);
    assert_eq!(PCA9685_Register::LED15_OFF_H.value(), 0x45);
    assert_eq!(PCA9685_Register::PRE_SCALE.value(), 0xFE);
}

#[test]
fn lcd_init_sends_power_on_sequence() {
    let (state, bus) = sim(&[0x27]);
    let mut handle = SharedBusHandle::new(TwiController::new(bus));
    let _lcd = LCD::init(&mut handle);
    let bytes = expander_bytes(&state);
    let mut expected = vec![0x04];
    for nib in [0x30u8, 0x30, 0x30, 0x20] {
        expected.push(nib | 0x08);
        expected.push(nib | 0x04 | 0x08);
        expected.push(nib | 0x08);
    }
    for cmd in [0x28u8, 0x08, 0x0C, 0x06, 0x0C, 0x18, 0x01] {
        expected.extend(expected_send(cmd, 0, 0x08));
    }
    assert_eq!(bytes, expected);
    assert_eq!(state.borrow().delays[0], 50000);
    assert_eq!(*state.borrow().delays.last().unwrap(), 30000);
}

#[test]
fn lcd_set_cursor_clamps_row_to_last_line() {
    let (state, bus) = sim(&[0x27]);
    let mut handle = SharedBusHandle::new(TwiController::new(bus));
    let mut lcd = LCD::init(&mut handle);
    let before = expander_bytes(&state).len();
    lcd.set_cursor(&mut handle, 2, 9);
    let bytes = expander_bytes(&state)[before..].to_vec();
    assert_eq!(bytes, expected_send(0x80 | (2 + 0x54), 0, 0x08));
    let before = expander_bytes(&state).len();
    lcd.set_cursor(&mut handle, 5, 1);
    let bytes = expander_bytes(&state)[before..].to_vec();
    assert_eq!(bytes, expected_send(0x80 | (5 + 0x40), 0, 0x08));
}

#[test]
fn lcd_mode_changes_read_modify_write_the_shadow_register() {
    let (state, bus) = sim(&[0x27]);
    let mut handle = SharedBusHandle::new(TwiController::new(bus));
    let mut lcd = LCD::init(&mut handle);
    let sent = |lcd: &mut LCD, f: fn(&mut LCD, &mut SharedBusHandle<SimBus>), handle: &mut SharedBusHandle<SimBus>| {
        let before = expander_bytes(&state).len();
        f(lcd, handle);
        expander_bytes(&state)[before..].to_vec()
    };
    assert_eq!(sent(&mut lcd, LCD::cursor_on, &mut handle), expected_send(0x0E, 0, 0x08));
    assert_eq!(sent(&mut lcd, LCD::blink_on, &mut handle), expected_send(0x0F, 0, 0x08));
    assert_eq!(sent(&mut lcd, LCD::display_off, &mut handle), expected_send(0x0B, 0, 0x08));
    assert_eq!(sent(&mut lcd, LCD::autoscroll, &mut handle), expected_send(0x07, 0, 0x08));
    assert_eq!(sent(&mut lcd, LCD::right_to_left, &mut handle), expected_send(0x05, 0, 0x08));
    assert_eq!(sent(&mut lcd, LCD::scroll_display_right, &mut handle), expected_send(0x1C, 0, 0x08));
    assert_eq!(sent(&mut lcd, LCD::scroll_display_left, &mut handle), expected_send(0x18, 0, 0x08));
}

#[test]
fn lcd_write_str_sends_data_bytes() {
    let (state, bus) = sim(&[0x27]);
    let mut handle = SharedBusHandle::new(TwiController::new(bus));
    let mut lcd = LCD::init(&mut handle);
    let before = expander_bytes(&state).len();
    lcd.write_str(&mut handle, "Hi");
    let mut expected = expected_send(b'H', 1, 0x08);
    expected.extend(expected_send(b'i', 1, 0x08));
    assert_eq!(expander_bytes(&state)[before..].to_vec(), expected);
}

#[test]
fn lcd_create_char_addresses_cgram_slot() {
    let (state, bus) = sim(&[0x27]);
    let mut handle = SharedBusHandle::new(TwiController::new(bus));
    let mut lcd = LCD::init(&mut handle);
    let before = expander_bytes(&state).len();
    lcd.createChar(&mut handle, 9, &[0x1F, 0x11]);
    let mut expected = expected_send(0x40 | (1 << 3), 0, 0x08);
    expected.extend(expected_send(0x1F, 1, 0x08));
    expected.extend(expected_send(0x11, 1, 0x08));
    assert_eq!(expander_bytes(&state)[before..].to_vec(), expected);
}

#[test]
fn lcd_backlight_toggles_only_the_backlight_bit() {
    let (state, bus) = sim(&[0x27]);
    let mut handle = SharedBusHandle::new(TwiController::new(bus));
    let mut lcd = LCD::init(&mut handle);
    set_register(&state, 0x27, 0, 0x5C);
    let before = expander_bytes(&state).len();
    lcd.no_backlight(&mut handle);
    let bytes = expander_bytes(&state)[before..].to_vec();
    // the pointer write of the read-back, then the rewrite without backlight
    assert_eq!(bytes, vec![0x00, 0x54]);
    lcd.write_char(&mut handle, b'A');
    let bytes = expander_bytes(&state);
    assert_eq!(bytes[bytes.len() - 6..].to_vec(), expected_send(b'A', 1, 0x00));
    set_register(&state, 0x27, 0, 0x50);
    let before = expander_bytes(&state).len();
    lcd.backlight(&mut handle);
    assert_eq!(expander_bytes(&state)[before..].to_vec(), vec![0x00, 0x58]);
}

#[test]
fn lcd_reads_assemble_two_nibbles() {
    let (state, bus) = sim(&[0x27]);
    let mut handle = SharedBusHandle::new(TwiController::new(bus));
    let mut lcd = LCD::init(&mut handle);
    set_register(&state, 0x27, 0, 0xA7);
    assert_eq!(lcd.command_read(&mut handle), 0xAA);
    assert_eq!(lcd.busy(&mut handle), 0x80);
    assert_eq!(lcd.address_counter(&mut handle), 0x2A);
    assert_eq!(lcd.data_read(&mut handle), 0xAA);
    set_register(&state, 0x27, 0, 0x3F);
    assert_eq!(lcd.read_DDRam(&mut handle, 0x05), 0x33);
    assert_eq!(lcd.read_CGRam(&mut handle, 0x05), 0x33);
}

#[test]
fn lcd_on_held_bus_sends_nothing() {
    let (state, bus) = sim(&[0x27]);
    let mut handle = SharedBusHandle::new(TwiController::new(bus));
    let mut lcd = LCD::init(&mut handle);
    let before = expander_bytes(&state).len();
    handle.acquire().unwrap();
    lcd.write_char(&mut handle, b'x');
    assert_eq!(expander_bytes(&state).len(), before);
    assert_eq!(lcd.data_read(&mut handle), 0xFF);
}
