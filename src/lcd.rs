//! Character display driven in 4-bit mode through an I2C GPIO expander.
//!
//! Every byte written to the expander carries, in its low bits, register
//! select (bit 0), read/write (bit 1), enable (bit 2) and backlight (bit 3);
//! the high nibble carries data. Shadow copies of the display's mode
//! registers are kept so that each mode change is a read-modify-write.
#![allow(non_snake_case)]
#![allow(non_upper_case_globals)]
use vstd::prelude::*;
use vstd::string::StringSliceAdditionalSpecFns;

use crate::shared::SharedBusHandle;
use crate::twi::{read_frame, write_frame, TwiPort, WireEvent};

verus! {

pub const LCD_CLEAR_DISPLAY: u8 = 0x01;
pub const LCD_RETURN_HOME: u8 = 0x02;
pub const LCD_ENTRY_MODE_SET: u8 = 0x04;
pub const LCD_INCREMENT: u8 = 0x02;
pub const LCD_SHIFT_ON: u8 = 0x01;
pub const LCD_SHIFT_OFF: u8 = 0x00;

pub const LCD_DISPLAY_ON_OFF: u8 = 0x08;
pub const LCD_DISPLAY_ON: u8 = 0x04;
pub const LCD_DISPLAY_OFF: u8 = 0x00;
pub const LCD_CURSOR_ON: u8 = 0x02;
pub const LCD_CURSOR_OFF: u8 = 0x00;
pub const LCD_BLINKING_ON: u8 = 0x01;
pub const LCD_BLINKING_OFF: u8 = 0x00;

pub const LCD_MV_CUR_SHIFT_DISPLAY: u8 = 0x10;
pub const LCD_DISPLAY_SHIFT: u8 = 0x08;
pub const LCD_SHIFT_RIGHT: u8 = 0x04;
pub const LCD_SHIFT_LEFT: u8 = 0x00;

pub const LCD_FUNCTION_SET: u8 = 0x20;
pub const LCD_INTF4BITS: u8 = 0x00;
pub const LCD_TWO_LINES: u8 = 0x08;
pub const LCD_FONT_5_7: u8 = 0x00;

pub const LCD_CG_RAM_ADDRESS: u8 = 0x40;
pub const LCD_CG_RAM_ADDRESS_MASK: u8 = 0x3F;
pub const LCD_DD_RAM_ADDRESS: u8 = 0x80;
pub const LCD_DD_RAM_ADDRESS_MASK: u8 = 0x7F;

/// Expander bit: backlight on.
pub const Bl: u8 = 0x08;
/// Expander bit: enable line (the display latches on its falling edge).
pub const En: u8 = 0x04;
/// Expander bit: read (1) or write (0).
pub const Rw: u8 = 0x02;
/// Expander bit: data register (1) or command register (0).
pub const Rs: u8 = 0x01;

pub const LCD_8BIT_INIT: u8 = 0x30;
pub const LCD_4BIT_INIT: u8 = 0x20;

pub const LCD_PCF8574_ADDR: u8 = 0x27;
/// Drives the data lines high so that the display can pull them down on a read.
pub const LCD_PCF8574_WEAK_PU: u8 = 0xF0;

pub const LCD_BUSY_FLAG_MASK: u8 = 0x80;
pub const LCD_ADDRESS_COUNTER_MASK: u8 = 0x7F;
pub const LCD_MAX_COLS: u8 = 20;
pub const LCD_MAX_ROWS: u8 = 4;

pub const LCD_LINE1: u8 = 0x00;
pub const LCD_LINE2: u8 = 0x40;
pub const LCD_LINE3: u8 = 0x14;
pub const LCD_LINE4: u8 = 0x54;

/// Enable pulse width, in microseconds (the display needs 450 ns).
pub const PULSE_US: u32 = 1;
/// Settle time after a pulse, in microseconds (the display needs 37 us).
pub const SETTLE_US: u32 = 50;
/// Time that clear and home take, in microseconds.
pub const SLOW_COMMAND_US: u32 = 30000;

/// The driver's state, as plain values.
pub struct LcdView {
    pub address: u8,
    pub function_set: u8,
    pub entrymode_set: u8,
    pub display_function: u8,
    pub display_control: u8,
    pub num_lines: u8,
    pub backlight_val: u8,
}

/// What an expander access depends on: whether the bus is held elsewhere
/// (then the access is skipped), the expander's address and the backlight bit.
pub struct Link {
    pub held: bool,
    pub address: u8,
    pub backlight: u8,
}

pub open spec fn link(held: bool, s: LcdView) -> Link {
    Link { held, address: s.address, backlight: s.backlight_val }
}

/// Start of each display line in DDRAM.
pub open spec fn line_offset(row: u8) -> u8 {
    if row == 0 {
        LCD_LINE1
    } else if row == 1 {
        LCD_LINE2
    } else if row == 2 {
        LCD_LINE3
    } else {
        LCD_LINE4
    }
}

/// The row that a cursor request lands on: rows past the last line are
/// clamped to the last line.
pub open spec fn clamped_row(row: u8, num_lines: u8) -> u8 {
    if row >= num_lines {
        (num_lines - 1) as u8
    } else {
        row
    }
}

/// A cursor request past the last line lands on the last line, and the
/// line-offset table is indexed within its four entries.
pub proof fn lemma_cursor_row_clamped(col: u8, row: u8, num_lines: u8)
    requires
        1 <= num_lines <= LCD_MAX_ROWS,
    ensures
        clamped_row(row, num_lines) < num_lines <= 4,
        row >= num_lines ==> cursor_command(col, row, num_lines) == cursor_command(
            col,
            (num_lines - 1) as u8,
            num_lines,
        ),
        row < num_lines ==> clamped_row(row, num_lines) == row,
{
}

/// One expander write, with the backlight bit added; skipped while the bus
/// is held elsewhere.
pub open spec fn pcf_write(k: Link, value: u8) -> Seq<WireEvent> {
    if k.held {
        seq![]
    } else {
        write_frame(k.address, seq![value | k.backlight])
    }
}

/// One expander read that returned `value`; skipped while the bus is held
/// elsewhere, in which case the value is all ones.
pub open spec fn pcf_read(k: Link, value: u8) -> Seq<WireEvent> {
    if k.held {
        seq![]
    } else {
        read_frame(k.address, 0, seq![value])
    }
}

/// A read that was skipped because the bus was held elsewhere yields all ones.
pub open spec fn pcf_read_value(held: bool, value: u8) -> bool {
    held ==> value == 0xFF
}

/// Enable raised, held, lowered, then the settle time.
pub open spec fn pulse_neg(k: Link, data: u8) -> Seq<WireEvent> {
    pcf_write(k, data | En) + seq![WireEvent::Delay(PULSE_US)] + pcf_write(k, data & !En)
        + seq![WireEvent::Delay(SETTLE_US)]
}

/// Enable lowered, held, raised, then the settle time.
pub open spec fn pulse_pos(k: Link, data: u8) -> Seq<WireEvent> {
    pcf_write(k, data & !En) + seq![WireEvent::Delay(PULSE_US)] + pcf_write(k, data | En)
        + seq![WireEvent::Delay(SETTLE_US)]
}

/// A nibble (with its control bits) latched into the display.
pub open spec fn nibble_frame(k: Link, bits: u8) -> Seq<WireEvent> {
    pcf_write(k, bits & !Rw) + pulse_neg(k, bits & !Rw)
}

/// A byte sent as its high nibble, then its low nibble, in register `mode`.
pub open spec fn send_frame(k: Link, value: u8, mode: u8) -> Seq<WireEvent> {
    nibble_frame(k, (value & 0xF0) | En | mode) + nibble_frame(k, ((value << 4u8) & 0xF0) | En | mode,
    )
}

/// Each byte of `bs` sent in register `mode`, in order.
pub open spec fn sends_frame(k: Link, bs: Seq<u8>, mode: u8) -> Seq<WireEvent>
    decreases bs.len(),
{
    if bs.len() == 0 {
        seq![]
    } else {
        sends_frame(k, bs.drop_last(), mode) + send_frame(k, bs.last(), mode)
    }
}

/// A nibble read: enable raised, the expander read, enable lowered.
pub open spec fn read_nibble_frame(k: Link, bits: u8, value: u8) -> Seq<WireEvent> {
    pulse_pos(k, bits | Rw) + pcf_read(k, value) + pulse_neg(k, bits | Rw)
}

/// A byte read from register `mode`, as a high and a low nibble read.
pub open spec fn receive_frame(k: Link, mode: u8, high: u8, low: u8) -> Seq<
    WireEvent,
> {
    pcf_write(k, LCD_PCF8574_WEAK_PU | mode) + read_nibble_frame(k, LCD_PCF8574_WEAK_PU | En | mode,
        high,
    ) + read_nibble_frame(k, LCD_PCF8574_WEAK_PU | En | mode, low) + pcf_write(k, En | mode,
    )
}

/// The byte that two nibble reads make: data lines are the high nibble of
/// each expander read.
pub open spec fn assemble(high: u8, low: u8) -> u8 {
    (high & 0xF0) | ((low & 0xF0) >> 4u8)
}

/// Command byte that places the cursor.
pub open spec fn cursor_command(col: u8, row: u8, num_lines: u8) -> u8 {
    LCD_DD_RAM_ADDRESS | ((col + line_offset(clamped_row(row, num_lines))) as u8)
}

/// The expander link that the driver uses once initialised.
pub open spec fn init_link(held: bool) -> Link {
    Link { held, address: LCD_PCF8574_ADDR, backlight: Bl }
}

/// The view of a freshly initialised driver: two-line 4-bit interface,
/// left-to-right entry, display on, backlight on.
pub open spec fn init_view() -> LcdView {
    LcdView {
        address: LCD_PCF8574_ADDR,
        function_set: LCD_INTF4BITS | LCD_TWO_LINES | LCD_FONT_5_7,
        entrymode_set: LCD_INCREMENT | LCD_SHIFT_OFF,
        display_function: LCD_DISPLAY_ON,
        display_control: LCD_DISPLAY_SHIFT | LCD_SHIFT_LEFT,
        num_lines: LCD_MAX_ROWS,
        backlight_val: Bl,
    }
}

/// The raw expander write that opens the power-on sequence (no backlight bit).
pub open spec fn raw_write(held: bool, value: u8) -> Seq<WireEvent> {
    if held {
        seq![]
    } else {
        write_frame(LCD_PCF8574_ADDR, seq![value])
    }
}

/// The events after the power-on sequence, from `before`: power-on delay,
/// three 8-bit init pulses and one 4-bit init pulse, then function set,
/// display control, entry mode, shift mode and clear.
pub open spec fn init_events(before: Seq<WireEvent>, held: bool) -> Seq<WireEvent> {
    let k = init_link(held);
    before + seq![WireEvent::Delay(50000)] + raw_write(held, En) + seq![WireEvent::Delay(100)]
        + nibble_frame(k, LCD_8BIT_INIT) + seq![WireEvent::Delay(4500)]
        + nibble_frame(k, LCD_8BIT_INIT) + seq![WireEvent::Delay(150)]
        + nibble_frame(k, LCD_8BIT_INIT) + seq![WireEvent::Delay(150)]
        + nibble_frame(k, LCD_4BIT_INIT) + seq![WireEvent::Delay(150)]
        + send_frame(k, LCD_FUNCTION_SET | LCD_TWO_LINES, 0)
        + send_frame(k, LCD_DISPLAY_ON_OFF, 0)
        + send_frame(k, LCD_DISPLAY_ON_OFF | LCD_DISPLAY_ON, 0)
        + send_frame(k, LCD_ENTRY_MODE_SET | LCD_INCREMENT, 0)
        + send_frame(k, LCD_DISPLAY_ON_OFF | LCD_DISPLAY_ON, 0)
        + send_frame(k, LCD_MV_CUR_SHIFT_DISPLAY | LCD_DISPLAY_SHIFT, 0)
        + send_frame(k, LCD_CLEAR_DISPLAY, 0) + seq![WireEvent::Delay(SLOW_COMMAND_US)]
}

/// A byte read from register `mode` whose nibble reads returned `high` and
/// `low`, taking the events from `before` to `after`.
pub open spec fn received(k: Link, mode: u8, before: Seq<WireEvent>, after: Seq<WireEvent>, high: u8, low: u8) -> bool {
    &&& pcf_read_value(k.held, high)
    &&& pcf_read_value(k.held, low)
    &&& after == before + receive_frame(k, mode, high, low)
}

/// Driver for the character display behind the expander.
pub struct LCD {
    address: u8,
    function_set: u8,
    entrymode_set: u8,
    display_function: u8,
    display_control: u8,
    num_lines: u8,
    backlight_val: u8,
}

impl View for LCD {
    type V = LcdView;

    closed spec fn view(&self) -> LcdView {
        LcdView {
            address: self.address,
            function_set: self.function_set,
            entrymode_set: self.entrymode_set,
            display_function: self.display_function,
            display_control: self.display_control,
            num_lines: self.num_lines,
            backlight_val: self.backlight_val,
        }
    }
}

impl LCD {
    /// At least one line and no more lines than the offset table has; the
    /// backlight value is the backlight bit or nothing.
    pub open spec fn wf(&self) -> bool {
        &&& 1 <= self@.num_lines <= LCD_MAX_ROWS
        &&& (self@.backlight_val == Bl || self@.backlight_val == 0)
    }

    /* ---------- low level: expander access ---------- */

    /// One expander write of `value` with the backlight bit added, as a
    /// transaction of its own; skipped when the bus is held elsewhere.
    pub fn write_pcf8574<P: TwiPort>(&self, i2c: &mut SharedBusHandle<P>, value: u8)
        ensures
            final(i2c).is_held() == old(i2c).is_held(),
            final(i2c).events() == old(i2c).events() + pcf_write(link(old(i2c).is_held(), self@), value),
    {
        if i2c.acquire().is_ok() {
            let packet: [u8; 1] = [value | self.backlight_val];
            i2c.write_reg(self.address, &packet);
            assert(packet@ =~= seq![value | self.backlight_val]);
            i2c.release();
        } else {
            assert(old(i2c).events() + pcf_write(link(old(i2c).is_held(), self@), value) =~= old(i2c).events());
        }
    }

    /// One expander read, as a transaction of its own; when the bus is held
    /// elsewhere nothing is sent and the result is all ones.
    pub fn read_pcf8574<P: TwiPort>(&self, i2c: &mut SharedBusHandle<P>) -> (r: u8)
        ensures
            final(i2c).is_held() == old(i2c).is_held(),
            pcf_read_value(old(i2c).is_held(), r),
            final(i2c).events() == old(i2c).events() + pcf_read(link(old(i2c).is_held(), self@), r),
    {
        if i2c.acquire().is_ok() {
            let mut result: [u8; 1] = [0x00];
            i2c.read_reg(self.address, 0x00, &mut result);
            i2c.release();
            assert(result@ =~= seq![result[0]]);
            result[0]
        } else {
            assert(old(i2c).events() + pcf_read(link(true, self@), 0xFF) =~= old(i2c).events());
            0xFF
        }
    }

    fn pulse_enable_neg<P: TwiPort>(&self, i2c: &mut SharedBusHandle<P>, data: u8)
        ensures
            final(i2c).is_held() == old(i2c).is_held(),
            final(i2c).events() == old(i2c).events() + pulse_neg(link(old(i2c).is_held(), self@), data),
    {
        self.write_pcf8574(i2c, data | En);
        i2c.delay_us(PULSE_US);
        self.write_pcf8574(i2c, data & !En);
        i2c.delay_us(SETTLE_US);
        assert(i2c.events() =~= old(i2c).events() + pulse_neg(link(old(i2c).is_held(), self@), data));
    }

    fn pulse_enable_pos<P: TwiPort>(&self, i2c: &mut SharedBusHandle<P>, data: u8)
        ensures
            final(i2c).is_held() == old(i2c).is_held(),
            final(i2c).events() == old(i2c).events() + pulse_pos(link(old(i2c).is_held(), self@), data),
    {
        self.write_pcf8574(i2c, data & !En);
        i2c.delay_us(PULSE_US);
        self.write_pcf8574(i2c, data | En);
        i2c.delay_us(SETTLE_US);
        assert(i2c.events() =~= old(i2c).events() + pulse_pos(link(old(i2c).is_held(), self@), data));
    }

    fn write_4_bits<P: TwiPort>(&self, i2c: &mut SharedBusHandle<P>, nibEnRsMode: u8)
        ensures
            final(i2c).is_held() == old(i2c).is_held(),
            final(i2c).events() == old(i2c).events() + nibble_frame(link(old(i2c).is_held(), self@), nibEnRsMode),
    {
        self.write_pcf8574(i2c, nibEnRsMode & !Rw);
        self.pulse_enable_neg(i2c, nibEnRsMode & !Rw);
        assert(i2c.events() =~= old(i2c).events() + nibble_frame(link(old(i2c).is_held(), self@), nibEnRsMode));
    }

    fn read_4_bits<P: TwiPort>(&self, i2c: &mut SharedBusHandle<P>, rs_en_mode: u8) -> (r: u8)
        ensures
            final(i2c).is_held() == old(i2c).is_held(),
            pcf_read_value(old(i2c).is_held(), r),
            final(i2c).events() == old(i2c).events() + read_nibble_frame(link(old(i2c).is_held(), self@), rs_en_mode, r),
    {
        self.pulse_enable_pos(i2c, rs_en_mode | Rw);
        let b = self.read_pcf8574(i2c);
        self.pulse_enable_neg(i2c, rs_en_mode | Rw);
        assert(i2c.events() =~= old(i2c).events() + read_nibble_frame(link(old(i2c).is_held(), self@), rs_en_mode, b));
        b
    }

    /// Sends `value` as two nibbles in register `RsMode` (0: command,
    /// `Rs`: data).
    pub fn send<P: TwiPort>(&mut self, i2c: &mut SharedBusHandle<P>, value: u8, RsMode: u8)
        ensures
            final(self)@ == old(self)@,
            final(i2c).is_held() == old(i2c).is_held(),
            final(i2c).events() == old(i2c).events() + send_frame(link(old(i2c).is_held(), old(self)@), value, RsMode),
    {
        let highnib: u8 = value & 0xF0;
        let mut lownib: u8 = value << 4;
        lownib = lownib & 0xF0;
        self.write_4_bits(i2c, highnib | En | RsMode);
        self.write_4_bits(i2c, lownib | En | RsMode);
        assert(i2c.events() =~= old(i2c).events() + send_frame(link(old(i2c).is_held(), old(self)@), value, RsMode));
    }

    /// Reads one byte from register `RsMode`, high nibble first.
    fn receive<P: TwiPort>(&self, i2c: &mut SharedBusHandle<P>, RsMode: u8) -> (r: u8)
        ensures
            final(i2c).is_held() == old(i2c).is_held(),
            exists|high: u8, low: u8|
                #[trigger] received(link(old(i2c).is_held(), self@), RsMode, old(i2c).events(), final(i2c).events(), high, low)
                    && r == assemble(high, low),
    {
        self.write_pcf8574(i2c, LCD_PCF8574_WEAK_PU | RsMode);
        let highnib = self.read_4_bits(i2c, LCD_PCF8574_WEAK_PU | En | RsMode);
        let lownib = self.read_4_bits(i2c, LCD_PCF8574_WEAK_PU | En | RsMode);
        self.write_pcf8574(i2c, En | RsMode);
        assert(i2c.events() =~= old(i2c).events() + receive_frame(link(old(i2c).is_held(), self@),
            RsMode,
            highnib,
            lownib,
        ));
        assert(received(link(old(i2c).is_held(), self@), RsMode, old(i2c).events(), i2c.events(), highnib, lownib));
        (highnib & 0xF0) | ((lownib & 0xF0) >> 4)
    }


    fn write_raw<P: TwiPort>(i2c: &mut SharedBusHandle<P>, value: u8)
        ensures
            final(i2c).is_held() == old(i2c).is_held(),
            final(i2c).events() == old(i2c).events() + raw_write(old(i2c).is_held(), value),
    {
        if i2c.acquire().is_ok() {
            let packet: [u8; 1] = [value];
            i2c.write_reg(LCD_PCF8574_ADDR, &packet);
            assert(packet@ =~= seq![value]);
            i2c.release();
        } else {
            assert(old(i2c).events() + raw_write(true, value) =~= old(i2c).events());
        }
    }

    /// Brings the display up from an unknown power-on state: after the
    /// power-on delay, three 8-bit init pulses and one 4-bit init pulse force
    /// the 4-bit interface; then function set, display control, entry mode
    /// and shift mode are programmed and the screen is cleared.
    pub fn init<P: TwiPort>(i2c: &mut SharedBusHandle<P>) -> (r: Self)
        ensures
            r.wf(),
            r@ == init_view(),
            final(i2c).is_held() == old(i2c).is_held(),
            final(i2c).events() == init_events(old(i2c).events(), old(i2c).is_held()),
    {
        let mut s = LCD {
            address: LCD_PCF8574_ADDR,
            function_set: 0x00,
            entrymode_set: 0x00,
            display_function: 0x00,
            display_control: 0x00,
            num_lines: LCD_MAX_ROWS,
            backlight_val: Bl,
        };
        let ghost held = old(i2c).is_held();
        let ghost k = init_link(held);
        let ghost e0 = i2c.events();
        i2c.delay_us(50000);
        Self::write_raw(i2c, En);
        i2c.delay_us(100);
        s.write_4_bits(i2c, LCD_8BIT_INIT);
        i2c.delay_us(4500);
        s.write_4_bits(i2c, LCD_8BIT_INIT);
        i2c.delay_us(150);
        s.write_4_bits(i2c, LCD_8BIT_INIT);
        i2c.delay_us(150);
        s.write_4_bits(i2c, LCD_4BIT_INIT);
        i2c.delay_us(150);
        s.function_set = LCD_INTF4BITS | LCD_TWO_LINES | LCD_FONT_5_7;
        s.command_write(i2c, LCD_FUNCTION_SET | s.function_set);
        s.display_function = LCD_DISPLAY_OFF | LCD_CURSOR_OFF | LCD_BLINKING_OFF;
        s.display_off(i2c);
        s.display_on(i2c);
        s.entrymode_set = LCD_INCREMENT | LCD_SHIFT_OFF;
        s.command_write(i2c, LCD_ENTRY_MODE_SET | s.entrymode_set);
        s.command_write(i2c, LCD_DISPLAY_ON_OFF | s.display_function);
        s.display_control = LCD_DISPLAY_SHIFT | LCD_SHIFT_LEFT;
        s.command_write(i2c, LCD_MV_CUR_SHIFT_DISPLAY | s.display_control);
        s.clear(i2c);
        assert(0x00u8 & !0x04u8 == 0x00u8) by (bit_vector);
        assert(0x00u8 | 0x04u8 == 0x04u8) by (bit_vector);
        assert(0x08u8 | 0x00u8 == 0x08u8) by (bit_vector);
        assert(0x20u8 | 0x08u8 == 0x28u8) by (bit_vector);
        assert(0x08u8 | 0x04u8 == 0x0Cu8) by (bit_vector);
        assert(0x04u8 | 0x02u8 == 0x06u8) by (bit_vector);
        assert(0x10u8 | 0x08u8 == 0x18u8) by (bit_vector);
        assert(0x02u8 | 0x00u8 == 0x02u8) by (bit_vector);
        assert(0x00u8 | 0x08u8 | 0x00u8 == 0x08u8) by (bit_vector);
        assert(0x00u8 | 0x00u8 | 0x00u8 == 0x00u8) by (bit_vector);
        s
    }

    /* ---------- mid level: commands and data ---------- */

    /// Writes a byte to the command register.
    pub fn command_write<P: TwiPort>(&mut self, i2c: &mut SharedBusHandle<P>, value: u8)
        ensures
            final(self)@ == old(self)@,
            final(i2c).is_held() == old(i2c).is_held(),
            final(i2c).events() == old(i2c).events() + send_frame(link(old(i2c).is_held(), old(self)@), value, 0),
    {
        self.send(i2c, value, 0);
    }

    /// Reads the command register (busy flag and address counter).
    pub fn command_read<P: TwiPort>(&mut self, i2c: &mut SharedBusHandle<P>) -> (r: u8)
        ensures
            final(self)@ == old(self)@,
            final(i2c).is_held() == old(i2c).is_held(),
            exists|high: u8, low: u8|
                #[trigger] received(link(old(i2c).is_held(), old(self)@), 0, old(i2c).events(), final(i2c).events(), high, low)
                    && r == assemble(high, low),
    {
        self.receive(i2c, 0)
    }

    /// Writes a byte to the data register.
    pub fn data_write<P: TwiPort>(&mut self, i2c: &mut SharedBusHandle<P>, value: u8)
        ensures
            final(self)@ == old(self)@,
            final(i2c).is_held() == old(i2c).is_held(),
            final(i2c).events() == old(i2c).events() + send_frame(link(old(i2c).is_held(), old(self)@), value, Rs),
    {
        self.send(i2c, value, Rs);
    }

    /// Reads the data register.
    pub fn data_read<P: TwiPort>(&mut self, i2c: &mut SharedBusHandle<P>) -> (r: u8)
        ensures
            final(self)@ == old(self)@,
            final(i2c).is_held() == old(i2c).is_held(),
            exists|high: u8, low: u8|
                #[trigger] received(link(old(i2c).is_held(), old(self)@), Rs, old(i2c).events(), final(i2c).events(), high, low)
                    && r == assemble(high, low),
    {
        self.receive(i2c, Rs)
    }

    /// The busy flag of the command register.
    pub fn busy<P: TwiPort>(&mut self, i2c: &mut SharedBusHandle<P>) -> (r: u8)
        ensures
            final(self)@ == old(self)@,
            final(i2c).is_held() == old(i2c).is_held(),
            exists|high: u8, low: u8|
                #[trigger] received(link(old(i2c).is_held(), old(self)@), 0, old(i2c).events(), final(i2c).events(), high, low)
                    && r == assemble(high, low) & LCD_BUSY_FLAG_MASK,
    {
        let v: u8 = self.command_read(i2c);
        let ghost (high, low) = choose|high: u8, low: u8|
            #[trigger] received(link(old(i2c).is_held(), old(self)@), 0, old(i2c).events(), i2c.events(), high, low) && v == assemble(high, low);
        assert(received(link(old(i2c).is_held(), old(self)@), 0, old(i2c).events(), i2c.events(), high, low));
        v & LCD_BUSY_FLAG_MASK
    }

    /// The address counter of the command register.
    pub fn address_counter<P: TwiPort>(&mut self, i2c: &mut SharedBusHandle<P>) -> (r: u8)
        ensures
            final(self)@ == old(self)@,
            final(i2c).is_held() == old(i2c).is_held(),
            exists|high: u8, low: u8|
                #[trigger] received(link(old(i2c).is_held(), old(self)@), 0, old(i2c).events(), final(i2c).events(), high, low)
                    && r == assemble(high, low) & LCD_ADDRESS_COUNTER_MASK,
    {
        let v: u8 = self.command_read(i2c);
        let ghost (high, low) = choose|high: u8, low: u8|
            #[trigger] received(link(old(i2c).is_held(), old(self)@), 0, old(i2c).events(), i2c.events(), high, low) && v == assemble(high, low);
        assert(received(link(old(i2c).is_held(), old(self)@), 0, old(i2c).events(), i2c.events(), high, low));
        v & LCD_ADDRESS_COUNTER_MASK
    }

    /// Reads the display-data RAM at `address` (7 bits).
    pub fn read_DDRam<P: TwiPort>(&mut self, i2c: &mut SharedBusHandle<P>, address: u8) -> (r: u8)
        ensures
            final(self)@ == old(self)@,
            final(i2c).is_held() == old(i2c).is_held(),
            exists|high: u8, low: u8|
                #[trigger] received(link(old(i2c).is_held(), old(self)@), Rs, old(i2c).events() + send_frame(link(old(i2c).is_held(), old(self)@), LCD_DD_RAM_ADDRESS | (address & LCD_DD_RAM_ADDRESS_MASK), 0), final(i2c).events(), high, low)
                    && r == assemble(high, low),
    {
        self.command_write(i2c, LCD_DD_RAM_ADDRESS | (address & LCD_DD_RAM_ADDRESS_MASK));
        self.data_read(i2c)
    }

    /// Reads the character-generator RAM at `address` (6 bits).
    pub fn read_CGRam<P: TwiPort>(&mut self, i2c: &mut SharedBusHandle<P>, address: u8) -> (r: u8)
        ensures
            final(self)@ == old(self)@,
            final(i2c).is_held() == old(i2c).is_held(),
            exists|high: u8, low: u8|
                #[trigger] received(link(old(i2c).is_held(), old(self)@), Rs, old(i2c).events() + send_frame(link(old(i2c).is_held(), old(self)@), LCD_CG_RAM_ADDRESS | (address & LCD_CG_RAM_ADDRESS_MASK), 0), final(i2c).events(), high, low)
                    && r == assemble(high, low),
    {
        self.command_write(i2c, LCD_CG_RAM_ADDRESS | (address & LCD_CG_RAM_ADDRESS_MASK));
        self.data_read(i2c)
    }

    /* ---------- high level ---------- */

    /// Writes one character code at the cursor.
    pub fn write_char<P: TwiPort>(&mut self, i2c: &mut SharedBusHandle<P>, message: u8)
        ensures
            final(self)@ == old(self)@,
            final(i2c).is_held() == old(i2c).is_held(),
            final(i2c).events() == old(i2c).events() + send_frame(link(old(i2c).is_held(), old(self)@), message, Rs),
    {
        self.data_write(i2c, message);
    }

    fn write_bytes<P: TwiPort>(&mut self, i2c: &mut SharedBusHandle<P>, bytes: &[u8])
        ensures
            final(self)@ == old(self)@,
            final(i2c).is_held() == old(i2c).is_held(),
            final(i2c).events() == old(i2c).events() + sends_frame(link(old(i2c).is_held(), old(self)@), bytes@, Rs),
    {
        let mut i: usize = 0;
        while i < bytes.len()
            invariant
                i <= bytes@.len(),
                self@ == old(self)@,
                i2c.is_held() == old(i2c).is_held(),
                i2c.events() == old(i2c).events() + sends_frame(link(old(i2c).is_held(), old(self)@), bytes@.take(i as int), Rs),
            decreases bytes@.len() - i,
        {
            self.data_write(i2c, bytes[i]);
            assert(bytes@.take(i + 1).drop_last() =~= bytes@.take(i as int));
            assert(i2c.events() =~= old(i2c).events() + sends_frame(link(old(i2c).is_held(), old(self)@), bytes@.take(i + 1), Rs));
            i = i + 1;
        }
        assert(bytes@.take(i as int) =~= bytes@);
    }

    /// Writes the bytes of `message` at the cursor, in order.
    pub fn write_str<P: TwiPort>(&mut self, i2c: &mut SharedBusHandle<P>, message: &str)
        ensures
            final(self)@ == old(self)@,
            final(i2c).is_held() == old(i2c).is_held(),
            final(i2c).events() == old(i2c).events() + sends_frame(link(old(i2c).is_held(), old(self)@), message.spec_bytes(), Rs),
    {
        self.write_bytes(i2c, message.as_bytes());
    }

    /// Clears the display and waits for the display to finish.
    pub fn clear<P: TwiPort>(&mut self, i2c: &mut SharedBusHandle<P>)
        ensures
            final(self)@ == old(self)@,
            final(i2c).is_held() == old(i2c).is_held(),
            final(i2c).events() == old(i2c).events() + send_frame(link(old(i2c).is_held(), old(self)@), LCD_CLEAR_DISPLAY, 0)
                + seq![WireEvent::Delay(SLOW_COMMAND_US)],
    {
        self.command_write(i2c, LCD_CLEAR_DISPLAY);
        i2c.delay_us(SLOW_COMMAND_US);
    }

    /// Returns the cursor home and waits for the display to finish.
    pub fn home<P: TwiPort>(&mut self, i2c: &mut SharedBusHandle<P>)
        ensures
            final(self)@ == old(self)@,
            final(i2c).is_held() == old(i2c).is_held(),
            final(i2c).events() == old(i2c).events() + send_frame(link(old(i2c).is_held(), old(self)@), LCD_RETURN_HOME, 0)
                + seq![WireEvent::Delay(SLOW_COMMAND_US)],
    {
        self.command_write(i2c, LCD_RETURN_HOME);
        i2c.delay_us(SLOW_COMMAND_US);
    }

    /// Places the cursor at column `col` of line `row`; a row past the last
    /// line lands on the last line.
    pub fn set_cursor<P: TwiPort>(&mut self, i2c: &mut SharedBusHandle<P>, col: u8, row: u8)
        requires
            old(self).wf(),
            col + line_offset(clamped_row(row, old(self)@.num_lines)) <= 0xFF,
        ensures
            final(self)@ == old(self)@,
            final(i2c).is_held() == old(i2c).is_held(),
            final(i2c).events() == old(i2c).events() + send_frame(link(old(i2c).is_held(), old(self)@), cursor_command(col, row, old(self)@.num_lines), 0),
    {
        let row_offsets: [u8; 4] = [LCD_LINE1, LCD_LINE2, LCD_LINE3, LCD_LINE4];
        let line: u8 = if row >= self.num_lines {
            self.num_lines - 1
        } else {
            row
        };
        assert(line < 4);
        assert(row_offsets[line as int] == line_offset(line));
        self.command_write(i2c, LCD_DD_RAM_ADDRESS | (col + row_offsets[line as usize]));
    }

    /// Turns the display off (the RAM is kept).
    pub fn display_off<P: TwiPort>(&mut self, i2c: &mut SharedBusHandle<P>)
        ensures
            final(self)@ == (LcdView { display_function: old(self)@.display_function & !LCD_DISPLAY_ON, ..old(self)@ }),
            final(i2c).is_held() == old(i2c).is_held(),
            final(i2c).events() == old(i2c).events() + send_frame(link(old(i2c).is_held(), old(self)@), LCD_DISPLAY_ON_OFF | final(self)@.display_function, 0),
    {
        let value: u8 = self.display_function & !LCD_DISPLAY_ON;
        self.command_write(i2c, LCD_DISPLAY_ON_OFF | value);
        self.display_function = value;
    }

    /// Turns the display on.
    pub fn display_on<P: TwiPort>(&mut self, i2c: &mut SharedBusHandle<P>)
        ensures
            final(self)@ == (LcdView { display_function: old(self)@.display_function | LCD_DISPLAY_ON, ..old(self)@ }),
            final(i2c).is_held() == old(i2c).is_held(),
            final(i2c).events() == old(i2c).events() + send_frame(link(old(i2c).is_held(), old(self)@), LCD_DISPLAY_ON_OFF | final(self)@.display_function, 0),
    {
        let value: u8 = self.display_function | LCD_DISPLAY_ON;
        self.command_write(i2c, LCD_DISPLAY_ON_OFF | value);
        self.display_function = value;
    }

    /// Hides the underline cursor.
    pub fn cursor_off<P: TwiPort>(&mut self, i2c: &mut SharedBusHandle<P>)
        ensures
            final(self)@ == (LcdView { display_function: old(self)@.display_function & !LCD_CURSOR_ON, ..old(self)@ }),
            final(i2c).is_held() == old(i2c).is_held(),
            final(i2c).events() == old(i2c).events() + send_frame(link(old(i2c).is_held(), old(self)@), LCD_DISPLAY_ON_OFF | final(self)@.display_function, 0),
    {
        let value: u8 = self.display_function & !LCD_CURSOR_ON;
        self.command_write(i2c, LCD_DISPLAY_ON_OFF | value);
        self.display_function = value;
    }

    /// Shows the underline cursor.
    pub fn cursor_on<P: TwiPort>(&mut self, i2c: &mut SharedBusHandle<P>)
        ensures
            final(self)@ == (LcdView { display_function: old(self)@.display_function | LCD_CURSOR_ON, ..old(self)@ }),
            final(i2c).is_held() == old(i2c).is_held(),
            final(i2c).events() == old(i2c).events() + send_frame(link(old(i2c).is_held(), old(self)@), LCD_DISPLAY_ON_OFF | final(self)@.display_function, 0),
    {
        let value: u8 = self.display_function | LCD_CURSOR_ON;
        self.command_write(i2c, LCD_DISPLAY_ON_OFF | value);
        self.display_function = value;
    }

    /// Stops the cursor blinking.
    pub fn blink_off<P: TwiPort>(&mut self, i2c: &mut SharedBusHandle<P>)
        ensures
            final(self)@ == (LcdView { display_function: old(self)@.display_function & !LCD_BLINKING_ON, ..old(self)@ }),
            final(i2c).is_held() == old(i2c).is_held(),
            final(i2c).events() == old(i2c).events() + send_frame(link(old(i2c).is_held(), old(self)@), LCD_DISPLAY_ON_OFF | final(self)@.display_function, 0),
    {
        let value: u8 = self.display_function & !LCD_BLINKING_ON;
        self.command_write(i2c, LCD_DISPLAY_ON_OFF | value);
        self.display_function = value;
    }

    /// Makes the cursor blink.
    pub fn blink_on<P: TwiPort>(&mut self, i2c: &mut SharedBusHandle<P>)
        ensures
            final(self)@ == (LcdView { display_function: old(self)@.display_function | LCD_BLINKING_ON, ..old(self)@ }),
            final(i2c).is_held() == old(i2c).is_held(),
            final(i2c).events() == old(i2c).events() + send_frame(link(old(i2c).is_held(), old(self)@), LCD_DISPLAY_ON_OFF | final(self)@.display_function, 0),
    {
        let value: u8 = self.display_function | LCD_BLINKING_ON;
        self.command_write(i2c, LCD_DISPLAY_ON_OFF | value);
        self.display_function = value;
    }

    /// Text flows left to right.
    pub fn left_to_right<P: TwiPort>(&mut self, i2c: &mut SharedBusHandle<P>)
        ensures
            final(self)@ == (LcdView { entrymode_set: old(self)@.entrymode_set | LCD_INCREMENT, ..old(self)@ }),
            final(i2c).is_held() == old(i2c).is_held(),
            final(i2c).events() == old(i2c).events() + send_frame(link(old(i2c).is_held(), old(self)@), LCD_ENTRY_MODE_SET | final(self)@.entrymode_set, 0),
    {
        let value: u8 = self.entrymode_set | LCD_INCREMENT;
        self.command_write(i2c, LCD_ENTRY_MODE_SET | value);
        self.entrymode_set = value;
    }

    /// Text flows right to left.
    pub fn right_to_left<P: TwiPort>(&mut self, i2c: &mut SharedBusHandle<P>)
        ensures
            final(self)@ == (LcdView { entrymode_set: old(self)@.entrymode_set & !LCD_INCREMENT, ..old(self)@ }),
            final(i2c).is_held() == old(i2c).is_held(),
            final(i2c).events() == old(i2c).events() + send_frame(link(old(i2c).is_held(), old(self)@), LCD_ENTRY_MODE_SET | final(self)@.entrymode_set, 0),
    {
        let value: u8 = self.entrymode_set & !LCD_INCREMENT;
        self.command_write(i2c, LCD_ENTRY_MODE_SET | value);
        self.entrymode_set = value;
    }

    /// Shifts the display on each write ('right justify').
    pub fn autoscroll<P: TwiPort>(&mut self, i2c: &mut SharedBusHandle<P>)
        ensures
            final(self)@ == (LcdView { entrymode_set: old(self)@.entrymode_set | LCD_SHIFT_ON, ..old(self)@ }),
            final(i2c).is_held() == old(i2c).is_held(),
            final(i2c).events() == old(i2c).events() + send_frame(link(old(i2c).is_held(), old(self)@), LCD_ENTRY_MODE_SET | final(self)@.entrymode_set, 0),
    {
        let value: u8 = self.entrymode_set | LCD_SHIFT_ON;
        self.command_write(i2c, LCD_ENTRY_MODE_SET | value);
        self.entrymode_set = value;
    }

    /// Moves the cursor on each write ('left justify').
    pub fn no_autoscroll<P: TwiPort>(&mut self, i2c: &mut SharedBusHandle<P>)
        ensures
            final(self)@ == (LcdView { entrymode_set: old(self)@.entrymode_set & !LCD_SHIFT_ON, ..old(self)@ }),
            final(i2c).is_held() == old(i2c).is_held(),
            final(i2c).events() == old(i2c).events() + send_frame(link(old(i2c).is_held(), old(self)@), LCD_ENTRY_MODE_SET | final(self)@.entrymode_set, 0),
    {
        let value: u8 = self.entrymode_set & !LCD_SHIFT_ON;
        self.command_write(i2c, LCD_ENTRY_MODE_SET | value);
        self.entrymode_set = value;
    }

    /// Scrolls the display one place left, without changing the RAM.
    pub fn scroll_display_left<P: TwiPort>(&mut self, i2c: &mut SharedBusHandle<P>)
        ensures
            final(self)@ == (LcdView { display_control: (old(self)@.display_control & !LCD_SHIFT_RIGHT) | LCD_DISPLAY_SHIFT, ..old(self)@ }),
            final(i2c).is_held() == old(i2c).is_held(),
            final(i2c).events() == old(i2c).events() + send_frame(link(old(i2c).is_held(), old(self)@), LCD_MV_CUR_SHIFT_DISPLAY | final(self)@.display_control, 0),
    {
        let value: u8 = (self.display_control & !LCD_SHIFT_RIGHT) | LCD_DISPLAY_SHIFT;
        self.command_write(i2c, LCD_MV_CUR_SHIFT_DISPLAY | value);
        self.display_control = value;
    }

    /// Scrolls the display one place right, without changing the RAM.
    pub fn scroll_display_right<P: TwiPort>(&mut self, i2c: &mut SharedBusHandle<P>)
        ensures
            final(self)@ == (LcdView { display_control: old(self)@.display_control | LCD_SHIFT_RIGHT | LCD_DISPLAY_SHIFT, ..old(self)@ }),
            final(i2c).is_held() == old(i2c).is_held(),
            final(i2c).events() == old(i2c).events() + send_frame(link(old(i2c).is_held(), old(self)@), LCD_MV_CUR_SHIFT_DISPLAY | final(self)@.display_control, 0),
    {
        let value: u8 = self.display_control | LCD_SHIFT_RIGHT | LCD_DISPLAY_SHIFT;
        self.command_write(i2c, LCD_MV_CUR_SHIFT_DISPLAY | value);
        self.display_control = value;
    }

    /// Uploads a custom character into one of the eight CGRAM slots
    /// (`location` modulo 8), one row per byte of `charmap`.
    pub fn createChar<P: TwiPort>(&mut self, i2c: &mut SharedBusHandle<P>, location: u8, charmap: &[u8])
        ensures
            final(self)@ == old(self)@,
            final(i2c).is_held() == old(i2c).is_held(),
            final(i2c).events() == old(i2c).events()
                + send_frame(link(old(i2c).is_held(), old(self)@), LCD_CG_RAM_ADDRESS | ((location & 0x7) << 3u8), 0)
                + sends_frame(link(old(i2c).is_held(), old(self)@), charmap@, Rs),
    {
        let location: u8 = location & 0x7;
        self.command_write(i2c, LCD_CG_RAM_ADDRESS | (location << 3));
        self.write_bytes(i2c, charmap);
    }

    /// Turns the backlight off: the expander's current output is read back and
    /// rewritten with the backlight bit cleared, so that only that bit changes.
    pub fn no_backlight<P: TwiPort>(&mut self, i2c: &mut SharedBusHandle<P>)
        ensures
            final(self)@ == (LcdView { backlight_val: old(self)@.backlight_val & !Bl, ..old(self)@ }),
            old(self).wf() ==> final(self).wf(),
            final(i2c).is_held() == old(i2c).is_held(),
            exists|current: u8|
                #[trigger] pcf_read_value(old(i2c).is_held(), current) && final(i2c).events() == old(i2c).events()
                    + pcf_read(link(old(i2c).is_held(), final(self)@), current)
                    + pcf_write(link(old(i2c).is_held(), final(self)@), current & !Bl),
    {
        let ghost before = self.backlight_val;
        assert(before == 0x08u8 || before == 0u8 ==> (before & !0x08u8 == 0u8)) by (bit_vector);
        self.backlight_val = self.backlight_val & !Bl;
        let dummy_data: u8 = self.read_pcf8574(i2c);
        self.write_pcf8574(i2c, dummy_data & !Bl);
        assert(pcf_read_value(old(i2c).is_held(), dummy_data));
    }

    /// Turns the backlight on, rewriting the expander's current output.
    pub fn backlight<P: TwiPort>(&mut self, i2c: &mut SharedBusHandle<P>)
        ensures
            final(self)@ == (LcdView { backlight_val: old(self)@.backlight_val | Bl, ..old(self)@ }),
            old(self).wf() ==> final(self).wf(),
            final(i2c).is_held() == old(i2c).is_held(),
            exists|current: u8|
                #[trigger] pcf_read_value(old(i2c).is_held(), current) && final(i2c).events() == old(i2c).events()
                    + pcf_read(link(old(i2c).is_held(), final(self)@), current)
                    + pcf_write(link(old(i2c).is_held(), final(self)@), current),
    {
        let ghost before = self.backlight_val;
        assert(before == 0x08u8 || before == 0u8 ==> (before | 0x08u8 == 0x08u8)) by (bit_vector);
        self.backlight_val = self.backlight_val | Bl;
        let dummy_data: u8 = self.read_pcf8574(i2c);
        self.write_pcf8574(i2c, dummy_data);
        assert(pcf_read_value(old(i2c).is_held(), dummy_data));
    }
}

} // verus!
