//! PWM expander driver: mode and prescaler set-up, and per-channel on/off
//! counters written as one auto-incremented packet.
use vstd::prelude::*;

use crate::shared::SharedBusHandle;
use crate::twi::{acknowledged, ping_frame, ping_status, write_frame, TwiError, TwiPort};

verus! {

/// Number of PWM channels.
pub const CHANNELS: u8 = 16;
/// MODE1 value: auto-increment and sleep, ready for a restart.
pub const MODE1_CONFIG: u8 = 0x30;
/// Prescaler value that selects the highest output frequency.
pub const PRESCALE_MAX_FREQUENCY: u8 = 0x03;

/// The device's register map.
#[allow(non_camel_case_types)]
#[derive(Clone, Copy, Debug, PartialEq, Eq, Structural)]
pub enum PCA9685_Register {
    MODE1,
    MODE2,
    SUBADR1,
    SUBADR2,
    SUBADR3,
    ALLCALLADR,
    LED0_ON_L,
    LED0_ON_H,
    LED0_OFF_L,
    LED0_OFF_H,
    LED1_ON_L,
    LED1_ON_H,
    LED1_OFF_L,
    LED1_OFF_H,
    LED2_ON_L,
    LED2_ON_H,
    LED2_OFF_L,
    LED2_OFF_H,
    LED3_ON_L,
    LED3_ON_H,
    LED3_OFF_L,
    LED3_OFF_H,
    LED4_ON_L,
    LED4_ON_H,
    LED4_OFF_L,
    LED4_OFF_H,
    LED5_ON_L,
    LED5_ON_H,
    LED5_OFF_L,
    LED5_OFF_H,
    LED6_ON_L,
    LED6_ON_H,
    LED6_OFF_L,
    LED6_OFF_H,
    LED7_ON_L,
    LED7_ON_H,
    LED7_OFF_L,
    LED7_OFF_H,
    LED8_ON_L,
    LED8_ON_H,
    LED8_OFF_L,
    LED8_OFF_H,
    LED9_ON_L,
    LED9_ON_H,
    LED9_OFF_L,
    LED9_OFF_H,
    LED10_ON_L,
    LED10_ON_H,
    LED10_OFF_L,
    LED10_OFF_H,
    LED11_ON_L,
    LED11_ON_H,
    LED11_OFF_L,
    LED11_OFF_H,
    LED12_ON_L,
    LED12_ON_H,
    LED12_OFF_L,
    LED12_OFF_H,
    LED13_ON_L,
    LED13_ON_H,
    LED13_OFF_L,
    LED13_OFF_H,
    LED14_ON_L,
    LED14_ON_H,
    LED14_OFF_L,
    LED14_OFF_H,
    LED15_ON_L,
    LED15_ON_H,
    LED15_OFF_L,
    LED15_OFF_H,
    ALL_LED_ON_L,
    ALL_LED_ON_H,
    ALL_LED_OFF_L,
    ALL_LED_OFF_H,
    PRE_SCALE,
    TESTMODE,
}

impl PCA9685_Register {
    pub open spec fn spec_value(self) -> u8 {
        match self {
        PCA9685_Register::MODE1 => 0x00,
        PCA9685_Register::MODE2 => 0x01,
        PCA9685_Register::SUBADR1 => 0x02,
        PCA9685_Register::SUBADR2 => 0x03,
        PCA9685_Register::SUBADR3 => 0x04,
        PCA9685_Register::ALLCALLADR => 0x05,
        PCA9685_Register::LED0_ON_L => 0x06,
        PCA9685_Register::LED0_ON_H => 0x07,
        PCA9685_Register::LED0_OFF_L => 0x08,
        PCA9685_Register::LED0_OFF_H => 0x09,
        PCA9685_Register::LED1_ON_L => 0x0A,
        PCA9685_Register::LED1_ON_H => 0x0B,
        PCA9685_Register::LED1_OFF_L => 0x0C,
        PCA9685_Register::LED1_OFF_H => 0x0D,
        PCA9685_Register::LED2_ON_L => 0x0E,
        PCA9685_Register::LED2_ON_H => 0x0F,
        PCA9685_Register::LED2_OFF_L => 0x10,
        PCA9685_Register::LED2_OFF_H => 0x11,
        PCA9685_Register::LED3_ON_L => 0x12,
        PCA9685_Register::LED3_ON_H => 0x13,
        PCA9685_Register::LED3_OFF_L => 0x14,
        PCA9685_Register::LED3_OFF_H => 0x15,
        PCA9685_Register::LED4_ON_L => 0x16,
        PCA9685_Register::LED4_ON_H => 0x17,
        PCA9685_Register::LED4_OFF_L => 0x18,
        PCA9685_Register::LED4_OFF_H => 0x19,
        PCA9685_Register::LED5_ON_L => 0x1A,
        PCA9685_Register::LED5_ON_H => 0x1B,
        PCA9685_Register::LED5_OFF_L => 0x1C,
        PCA9685_Register::LED5_OFF_H => 0x1D,
        PCA9685_Register::LED6_ON_L => 0x1E,
        PCA9685_Register::LED6_ON_H => 0x1F,
        PCA9685_Register::LED6_OFF_L => 0x20,
        PCA9685_Register::LED6_OFF_H => 0x21,
        PCA9685_Register::LED7_ON_L => 0x22,
        PCA9685_Register::LED7_ON_H => 0x23,
        PCA9685_Register::LED7_OFF_L => 0x24,
        PCA9685_Register::LED7_OFF_H => 0x25,
        PCA9685_Register::LED8_ON_L => 0x26,
        PCA9685_Register::LED8_ON_H => 0x27,
        PCA9685_Register::LED8_OFF_L => 0x28,
        PCA9685_Register::LED8_OFF_H => 0x29,
        PCA9685_Register::LED9_ON_L => 0x2A,
        PCA9685_Register::LED9_ON_H => 0x2B,
        PCA9685_Register::LED9_OFF_L => 0x2C,
        PCA9685_Register::LED9_OFF_H => 0x2D,
        PCA9685_Register::LED10_ON_L => 0x2E,
        PCA9685_Register::LED10_ON_H => 0x2F,
        PCA9685_Register::LED10_OFF_L => 0x30,
        PCA9685_Register::LED10_OFF_H => 0x31,
        PCA9685_Register::LED11_ON_L => 0x32,
        PCA9685_Register::LED11_ON_H => 0x33,
        PCA9685_Register::LED11_OFF_L => 0x34,
        PCA9685_Register::LED11_OFF_H => 0x35,
        PCA9685_Register::LED12_ON_L => 0x36,
        PCA9685_Register::LED12_ON_H => 0x37,
        PCA9685_Register::LED12_OFF_L => 0x38,
        PCA9685_Register::LED12_OFF_H => 0x39,
        PCA9685_Register::LED13_ON_L => 0x3A,
        PCA9685_Register::LED13_ON_H => 0x3B,
        PCA9685_Register::LED13_OFF_L => 0x3C,
        PCA9685_Register::LED13_OFF_H => 0x3D,
        PCA9685_Register::LED14_ON_L => 0x3E,
        PCA9685_Register::LED14_ON_H => 0x3F,
        PCA9685_Register::LED14_OFF_L => 0x40,
        PCA9685_Register::LED14_OFF_H => 0x41,
        PCA9685_Register::LED15_ON_L => 0x42,
        PCA9685_Register::LED15_ON_H => 0x43,
        PCA9685_Register::LED15_OFF_L => 0x44,
        PCA9685_Register::LED15_OFF_H => 0x45,
        PCA9685_Register::ALL_LED_ON_L => 0xFA,
        PCA9685_Register::ALL_LED_ON_H => 0xFB,
        PCA9685_Register::ALL_LED_OFF_L => 0xFC,
        PCA9685_Register::ALL_LED_OFF_H => 0xFD,
        PCA9685_Register::PRE_SCALE => 0xFE,
        PCA9685_Register::TESTMODE => 0xFF,
        }
    }

    /// The register's address on the device.
    pub fn value(self) -> (r: u8)
        ensures
            r == self.spec_value(),
    {
        match self {
            PCA9685_Register::MODE1 => 0x00,
            PCA9685_Register::MODE2 => 0x01,
            PCA9685_Register::SUBADR1 => 0x02,
            PCA9685_Register::SUBADR2 => 0x03,
            PCA9685_Register::SUBADR3 => 0x04,
            PCA9685_Register::ALLCALLADR => 0x05,
            PCA9685_Register::LED0_ON_L => 0x06,
            PCA9685_Register::LED0_ON_H => 0x07,
            PCA9685_Register::LED0_OFF_L => 0x08,
            PCA9685_Register::LED0_OFF_H => 0x09,
            PCA9685_Register::LED1_ON_L => 0x0A,
            PCA9685_Register::LED1_ON_H => 0x0B,
            PCA9685_Register::LED1_OFF_L => 0x0C,
            PCA9685_Register::LED1_OFF_H => 0x0D,
            PCA9685_Register::LED2_ON_L => 0x0E,
            PCA9685_Register::LED2_ON_H => 0x0F,
            PCA9685_Register::LED2_OFF_L => 0x10,
            PCA9685_Register::LED2_OFF_H => 0x11,
            PCA9685_Register::LED3_ON_L => 0x12,
            PCA9685_Register::LED3_ON_H => 0x13,
            PCA9685_Register::LED3_OFF_L => 0x14,
            PCA9685_Register::LED3_OFF_H => 0x15,
            PCA9685_Register::LED4_ON_L => 0x16,
            PCA9685_Register::LED4_ON_H => 0x17,
            PCA9685_Register::LED4_OFF_L => 0x18,
            PCA9685_Register::LED4_OFF_H => 0x19,
            PCA9685_Register::LED5_ON_L => 0x1A,
            PCA9685_Register::LED5_ON_H => 0x1B,
            PCA9685_Register::LED5_OFF_L => 0x1C,
            PCA9685_Register::LED5_OFF_H => 0x1D,
            PCA9685_Register::LED6_ON_L => 0x1E,
            PCA9685_Register::LED6_ON_H => 0x1F,
            PCA9685_Register::LED6_OFF_L => 0x20,
            PCA9685_Register::LED6_OFF_H => 0x21,
            PCA9685_Register::LED7_ON_L => 0x22,
            PCA9685_Register::LED7_ON_H => 0x23,
            PCA9685_Register::LED7_OFF_L => 0x24,
            PCA9685_Register::LED7_OFF_H => 0x25,
            PCA9685_Register::LED8_ON_L => 0x26,
            PCA9685_Register::LED8_ON_H => 0x27,
            PCA9685_Register::LED8_OFF_L => 0x28,
            PCA9685_Register::LED8_OFF_H => 0x29,
            PCA9685_Register::LED9_ON_L => 0x2A,
            PCA9685_Register::LED9_ON_H => 0x2B,
            PCA9685_Register::LED9_OFF_L => 0x2C,
            PCA9685_Register::LED9_OFF_H => 0x2D,
            PCA9685_Register::LED10_ON_L => 0x2E,
            PCA9685_Register::LED10_ON_H => 0x2F,
            PCA9685_Register::LED10_OFF_L => 0x30,
            PCA9685_Register::LED10_OFF_H => 0x31,
            PCA9685_Register::LED11_ON_L => 0x32,
            PCA9685_Register::LED11_ON_H => 0x33,
            PCA9685_Register::LED11_OFF_L => 0x34,
            PCA9685_Register::LED11_OFF_H => 0x35,
            PCA9685_Register::LED12_ON_L => 0x36,
            PCA9685_Register::LED12_ON_H => 0x37,
            PCA9685_Register::LED12_OFF_L => 0x38,
            PCA9685_Register::LED12_OFF_H => 0x39,
            PCA9685_Register::LED13_ON_L => 0x3A,
            PCA9685_Register::LED13_ON_H => 0x3B,
            PCA9685_Register::LED13_OFF_L => 0x3C,
            PCA9685_Register::LED13_OFF_H => 0x3D,
            PCA9685_Register::LED14_ON_L => 0x3E,
            PCA9685_Register::LED14_ON_H => 0x3F,
            PCA9685_Register::LED14_OFF_L => 0x40,
            PCA9685_Register::LED14_OFF_H => 0x41,
            PCA9685_Register::LED15_ON_L => 0x42,
            PCA9685_Register::LED15_ON_H => 0x43,
            PCA9685_Register::LED15_OFF_L => 0x44,
            PCA9685_Register::LED15_OFF_H => 0x45,
            PCA9685_Register::ALL_LED_ON_L => 0xFA,
            PCA9685_Register::ALL_LED_ON_H => 0xFB,
            PCA9685_Register::ALL_LED_OFF_L => 0xFC,
            PCA9685_Register::ALL_LED_OFF_H => 0xFD,
            PCA9685_Register::PRE_SCALE => 0xFE,
            PCA9685_Register::TESTMODE => 0xFF,
        }
    }
}

/// The configuration packet: MODE1, then its value.
pub open spec fn mode_packet() -> Seq<u8> {
    seq![0x00u8, MODE1_CONFIG]
}

/// The frequency packet: PRE_SCALE, then its value.
pub open spec fn prescale_packet() -> Seq<u8> {
    seq![0xFEu8, PRESCALE_MAX_FREQUENCY]
}

/// The channel packet: the channel's first register, then the on and off
/// counters, low byte first.
pub open spec fn channel_packet(led_num: u8, high_time: u16, low_time: u16) -> Seq<u8> {
    seq![
        (0x06 + 4 * led_num) as u8,
        (high_time % 256) as u8,
        (high_time / 256) as u8,
        (low_time % 256) as u8,
        (low_time / 256) as u8,
    ]
}

/// Driver for one PWM expander; it keeps only the device address.
pub struct PCA9685 {
    address: u8,
}

impl PCA9685 {
    pub closed spec fn addr(&self) -> u8 {
        self.address
    }

    pub fn new(address: u8) -> (r: Self)
        ensures
            r.addr() == address,
    {
        PCA9685 { address }
    }

    /// Pings the device; when it answers, writes the mode and prescaler
    /// registers. When it does not, nothing is written and the result is
    /// `NoConnection`. A bus held elsewhere gives `BusBusy` and no traffic.
    pub fn init<P: TwiPort>(&mut self, i2c: &mut SharedBusHandle<P>) -> (r: Result<(), TwiError>)
        ensures
            final(self).addr() == old(self).addr(),
            old(i2c).is_held() ==> r == Err::<(), TwiError>(TwiError::BusBusy) && *final(i2c) == *old(i2c),
            !old(i2c).is_held() ==> !final(i2c).is_held(),
            !old(i2c).is_held() ==> ({
                let start = old(i2c).events().len() as int;
                let status = ping_status(final(i2c).events().skip(start));
                if acknowledged(status) {
                    &&& r is Ok
                    &&& final(i2c).events() == old(i2c).events() + ping_frame(old(self).addr(), status)
                        + write_frame(old(self).addr(), mode_packet()) + write_frame(old(self).addr(), prescale_packet())
                } else {
                    &&& r == Err::<(), TwiError>(TwiError::NoConnection)
                    &&& final(i2c).events() == old(i2c).events() + ping_frame(old(self).addr(), status)
                }
            }),
    {
        if i2c.acquire().is_err() {
            return Err(TwiError::BusBusy);
        }
        let cfg_packet: [u8; 2] = [PCA9685_Register::MODE1.value(), MODE1_CONFIG];
        let freq_packet: [u8; 2] = [PCA9685_Register::PRE_SCALE.value(), PRESCALE_MAX_FREQUENCY];
        assert(cfg_packet@ =~= mode_packet());
        assert(freq_packet@ =~= prescale_packet());
        let ghost start = old(i2c).events().len() as int;
        if !i2c.ping_device(self.address) {
            i2c.release();
            return Err(TwiError::NoConnection);
        }
        let ghost pinged = i2c.events();
        i2c.write_reg(self.address, &cfg_packet);
        i2c.write_reg(self.address, &freq_packet);
        i2c.release();
        proof {
            let status = ping_status(pinged.skip(start));
            let all = i2c.events();
            let tail = write_frame(self.address, mode_packet()) + write_frame(self.address, prescale_packet());
            assert(all == pinged + tail);
            assert(pinged.len() == start + 10);
            assert(all.skip(start)[8] == pinged.skip(start)[8]);
        }
        Ok(())
    }

    /// Writes the on and off counters of channel `led_num` in one packet.
    /// A bus held elsewhere gives `BusBusy` and no traffic.
    pub fn set_motor_speed<P: TwiPort>(
        &mut self,
        i2c: &mut SharedBusHandle<P>,
        led_num: u8,
        high_time: u16,
        low_time: u16,
    ) -> (r: Result<(), TwiError>)
        requires
            led_num < CHANNELS,
        ensures
            final(self).addr() == old(self).addr(),
            old(i2c).is_held() ==> r == Err::<(), TwiError>(TwiError::BusBusy) && *final(i2c) == *old(i2c),
            !old(i2c).is_held() ==> r is Ok && !final(i2c).is_held() && final(i2c).events()
                == old(i2c).events() + write_frame(old(self).addr(), channel_packet(led_num, high_time, low_time)),
    {
        if i2c.acquire().is_err() {
            return Err(TwiError::BusBusy);
        }
        let packet: [u8; 5] = [
            PCA9685_Register::LED0_ON_L.value() + 4 * led_num,
            (high_time & 0xFF) as u8,
            (high_time >> 8) as u8,
            (low_time & 0xFF) as u8,
            (low_time >> 8) as u8,
        ];
        assert(high_time & 0xFF == high_time % 256) by (bit_vector);
        assert(high_time >> 8 == high_time / 256) by (bit_vector);
        assert(low_time & 0xFF == low_time % 256) by (bit_vector);
        assert(low_time >> 8 == low_time / 256) by (bit_vector);
        assert(packet@ =~= channel_packet(led_num, high_time, low_time));
        i2c.write_reg(self.address, &packet);
        i2c.release();
        Ok(())
    }
}

} // verus!
