//! Serial transport settings, and the character-reading interface that a
//! serial port offers to diagnostics.
use vstd::prelude::*;

verus! {

/// Clock of the microcontroller, in hertz.
pub const CPU_HZ: u32 = 16000000;
/// Width of the baud-rate register.
pub const BAUD_REGISTER_MASK: u16 = 0x0FFF;

/// The baud-rate register value for `baudrate` in normal-speed mode:
/// `clock / (16 * baud) - 1`, cut to the register's 12 bits.
pub open spec fn baud_register(baudrate: u32) -> u16 {
    (((CPU_HZ as int) / (16 * baudrate) - 1) % 4096) as u16
}

/// The baud-rate register value for `baudrate`, which must lie between 1
/// and a sixteenth of the clock.
pub fn baud_divisor(baudrate: u32) -> (r: u16)
    requires
        0 < baudrate <= CPU_HZ / 16,
    ensures
        r == baud_register(baudrate),
        r <= BAUD_REGISTER_MASK,
{
    let divisor: u32 = 16 * baudrate;
    let quotient: u32 = CPU_HZ / divisor;
    assert(quotient >= 1) by (nonlinear_arith)
        requires
            0 < divisor <= 16000000,
            quotient == 16000000int / divisor as int,
    ;
    let ubrr: u32 = quotient - 1;
    let r: u16 = (ubrr % 4096) as u16;
    r
}

/// Character input from a serial port.
pub trait Read {
    type Error;

    fn read_char(&mut self) -> char;

    /// Reads characters into `s` until a `'\0'` or a `'\n'`, or until `s`
    /// is full.
    fn read_string(&mut self, s: &mut [char]);
}

} // verus!
