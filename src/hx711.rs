//! Load-cell ADC read over a dedicated data line and clock line: 24 bits,
//! most significant first, then one to three extra clock pulses that select
//! the channel and gain of the next conversion.
use vstd::prelude::*;

verus! {

/// Clock pulses after a sample that select channel A, gain 128.
pub const GAIN_CODE_128: u8 = 1;
/// Clock pulses after a sample that select channel B, gain 32.
pub const GAIN_CODE_32: u8 = 2;
/// Clock pulses after a sample that select channel A, gain 64.
pub const GAIN_CODE_64: u8 = 3;

/// Smallest sample: the 24-bit two's-complement minimum.
pub const SAMPLE_MIN: i32 = -8388608;
/// One past the largest sample.
pub const SAMPLE_LIMIT: i32 = 8388608;

/// One step observed on the two lines, in order.
#[derive(Clone, Copy, Debug, PartialEq, Eq, Structural)]
pub enum PinEvent {
    ClockHigh,
    ClockLow,
    /// The data line was sampled: `true` when high.
    Data(bool),
    /// Pause of the given number of milliseconds.
    Delay(u32),
    /// Blocked until the data line went low, polling at the given interval.
    WaitReady(u32),
}

/// The steps taken on the two lines, in order.
pub type PinHistory = Seq<PinEvent>;

/// The two lines of the converter, and a delay source.
///
/// Each operation adds its steps to the port's `history`; the levels read
/// are whatever the data line showed, recorded as they were returned.
pub trait LoadCellPins {
    /// Every step taken on the two lines, in order.
    spec fn history(&self) -> PinHistory;

    fn data_is_high(&mut self) -> (r: bool)
        ensures
            final(self).history() == old(self).history().push(PinEvent::Data(r)),
    ;

    fn clock_high(&mut self)
        ensures
            final(self).history() == old(self).history().push(PinEvent::ClockHigh),
    ;

    fn clock_low(&mut self)
        ensures
            final(self).history() == old(self).history().push(PinEvent::ClockLow),
    ;

    fn delay_ms(&mut self, ms: u32)
        ensures
            final(self).history() == old(self).history().push(PinEvent::Delay(ms)),
    ;

    /// Polls the data line every `delay_ms` until it is low (no timeout).
    fn wait_data_low(&mut self, delay_ms: u32)
        ensures
            final(self).history() == old(self).history().push(PinEvent::WaitReady(delay_ms)),
    ;
}

/// The gain code that a physical gain selects; other gains select none.
pub open spec fn gain_code(gain: u8) -> Option<u8> {
    if gain == 128 {
        Some(GAIN_CODE_128)
    } else if gain == 64 {
        Some(GAIN_CODE_64)
    } else if gain == 32 {
        Some(GAIN_CODE_32)
    } else {
        None
    }
}

/// The number that bits make, most significant first.
pub open spec fn bits_value(bits: Seq<bool>) -> nat
    decreases bits.len(),
{
    if bits.len() == 0 {
        0
    } else {
        bits_value(bits.drop_last()) * 2 + if bits.last() {
            1nat
        } else {
            0nat
        }
    }
}

pub open spec fn two_pow(n: nat) -> nat
    decreases n,
{
    if n == 0 {
        1
    } else {
        2 * two_pow((n - 1) as nat)
    }
}

/// Clock high, data sampled, clock low, for each bit.
pub open spec fn shift_frame(bits: Seq<bool>) -> Seq<PinEvent>
    decreases bits.len(),
{
    if bits.len() == 0 {
        seq![]
    } else {
        shift_frame(bits.drop_last()) + seq![
            PinEvent::ClockHigh,
            PinEvent::Data(bits.last()),
            PinEvent::ClockLow,
        ]
    }
}

/// `n` clock pulses.
pub open spec fn pulses_frame(n: nat) -> Seq<PinEvent>
    decreases n,
{
    if n == 0 {
        seq![]
    } else {
        pulses_frame((n - 1) as nat) + seq![PinEvent::ClockHigh, PinEvent::ClockLow]
    }
}

/// `n` polls that found the device busy, each followed by a pause.
pub open spec fn busy_polls(n: nat, delay_ms: u32) -> Seq<PinEvent>
    decreases n,
{
    if n == 0 {
        seq![]
    } else {
        busy_polls((n - 1) as nat, delay_ms) + seq![PinEvent::Data(true), PinEvent::Delay(delay_ms)]
    }
}

/// A 24-bit two's-complement value widened: bit 23 copied into every
/// higher bit.
pub open spec fn sign_extend_24(raw: int) -> int {
    if raw >= 0x800000 {
        raw - 0x1000000
    } else {
        raw
    }
}

/// The sample that three bytes make, most significant byte first.
pub open spec fn sample_value(high: nat, mid: nat, low: nat) -> int {
    sign_extend_24((high * 65536 + mid * 256 + low) as int)
}

/// The events of one conversion read whose bytes were shifted in as `high`,
/// `mid` and `low`, with `gain` pulses after it.
pub open spec fn read_frame(high: Seq<bool>, mid: Seq<bool>, low: Seq<bool>, gain: u8) -> Seq<PinEvent> {
    seq![PinEvent::WaitReady(1)] + shift_frame(high) + shift_frame(mid) + shift_frame(low)
        + pulses_frame(gain as nat)
}

pub open spec fn sum_of(s: Seq<i32>) -> int
    decreases s.len(),
{
    if s.len() == 0 {
        0
    } else {
        sum_of(s.drop_last()) + s.last()
    }
}

/// Arithmetic mean, rounded toward zero.
pub open spec fn mean(s: Seq<i32>) -> int
    recommends
        s.len() > 0,
{
    if sum_of(s) >= 0 {
        sum_of(s) / (s.len() as int)
    } else {
        -((-sum_of(s)) / (s.len() as int))
    }
}

/// The value reported for the samples `s` against the zero offset `offset`.
pub open spec fn value_of(s: Seq<i32>, offset: i32) -> int {
    mean(s) - offset
}

proof fn lemma_two_pow_mono(n: nat, m: nat)
    requires
        n <= m,
    ensures
        two_pow(n) <= two_pow(m),
    decreases m,
{
    if n < m {
        lemma_two_pow_mono(n, (m - 1) as nat);
    }
}

proof fn lemma_sum_bound(s: Seq<i32>)
    requires
        forall|i: int| 0 <= i < s.len() ==> SAMPLE_MIN <= #[trigger] s[i] < SAMPLE_LIMIT,
    ensures
        s.len() * SAMPLE_MIN <= sum_of(s) <= s.len() * (SAMPLE_LIMIT - 1),
    decreases s.len(),
{
    if s.len() > 0 {
        lemma_sum_bound(s.drop_last());
        assert(s.last() == s[s.len() - 1]);
    }
}

/// Taring on a set of samples and then reading the very same samples gives
/// a value of zero.
pub proof fn lemma_tare_then_value_is_zero(tare_samples: Seq<i32>, value_samples: Seq<i32>, offset: i32)
    requires
        tare_samples.len() > 0,
        offset == mean(tare_samples),
        value_samples == tare_samples,
    ensures
        value_of(value_samples, offset) == 0,
{
}

/// Driver for the load-cell converter on its own two pins.
pub struct HX711<P: LoadCellPins> {
    pins: P,
    gain: u8,
    offset: i32,
    history: Ghost<Seq<i32>>,
}

impl<P: LoadCellPins> HX711<P> {
    /// Everything done on the two lines, as the pins record it.
    pub closed spec fn events(&self) -> Seq<PinEvent> {
        self.pins.history()
    }

    /// Every sample that `read` has returned since construction.
    pub closed spec fn samples(&self) -> Seq<i32> {
        self.history@
    }

    /// Clock pulses after each sample: 1, 2 or 3.
    pub closed spec fn gain_pulses(&self) -> u8 {
        self.gain
    }

    pub closed spec fn zero_offset(&self) -> i32 {
        self.offset
    }

    pub open spec fn wf(&self) -> bool {
        1 <= self.gain_pulses() <= 3
    }

    /// Takes the pins; `gain` is the number of pulses after each sample.
    /// The zero offset starts at 0.
    pub fn new(pins: P, gain: u8) -> (r: Self)
        requires
            1 <= gain <= 3,
        ensures
            r.wf(),
            r.gain_pulses() == gain,
            r.zero_offset() == 0,
            r.events() == pins.history(),
            r.samples() == Seq::<i32>::empty(),
    {
        HX711 { pins, gain, offset: 0, history: Ghost(Seq::empty()) }
    }

    /// Samples the data line: a low level means a conversion is ready.
    pub fn is_ready(&mut self) -> (r: bool)
        ensures
            final(self).gain_pulses() == old(self).gain_pulses(),
            final(self).zero_offset() == old(self).zero_offset(),
            final(self).samples() == old(self).samples(),
            final(self).events() == old(self).events().push(PinEvent::Data(!r)),
    {
        let high = self.pins.data_is_high();
        !high
    }

    /// Selects the gain for the next conversions: 128, 64 or 32. Any other
    /// value leaves the setting as it was.
    pub fn set_gain(&mut self, gain: u8)
        ensures
            final(self).gain_pulses() == match gain_code(gain) {
                Some(code) => code,
                None => old(self).gain_pulses(),
            },
            final(self).zero_offset() == old(self).zero_offset(),
            final(self).samples() == old(self).samples(),
            final(self).events() == old(self).events(),
    {
        match gain {
            128 => self.gain = GAIN_CODE_128,
            64 => self.gain = GAIN_CODE_64,
            32 => self.gain = GAIN_CODE_32,
            _ => {},
        }
    }

    /// Blocks until a conversion is ready, polling every `delay_ms`.
    pub fn wait_ready(&mut self, delay_ms: u32)
        ensures
            final(self).gain_pulses() == old(self).gain_pulses(),
            final(self).zero_offset() == old(self).zero_offset(),
            final(self).samples() == old(self).samples(),
            final(self).events() == old(self).events().push(PinEvent::WaitReady(delay_ms)),
    {
        self.pins.wait_data_low(delay_ms);
    }

    /// Polls up to `retries` times, pausing `delay_ms` after each busy poll;
    /// tells whether the converter became ready.
    pub fn wait_ready_retry(&mut self, retries: u16, delay_ms: u32) -> (r: bool)
        ensures
            final(self).gain_pulses() == old(self).gain_pulses(),
            final(self).zero_offset() == old(self).zero_offset(),
            final(self).samples() == old(self).samples(),
            !r ==> final(self).events() == old(self).events() + busy_polls(retries as nat, delay_ms),
            r ==> exists|n: nat|
                n < retries && #[trigger] busy_polls(n, delay_ms) + seq![PinEvent::Data(false)]
                    == final(self).events().skip(old(self).events().len() as int)
                    && final(self).events().take(old(self).events().len() as int) == old(self).events(),
    {
        let mut count: u16 = 0;
        while count < retries
            invariant
                count <= retries,
                self.gain == old(self).gain,
                self.offset == old(self).offset,
                self.history@ == old(self).history@,
                self.events() == old(self).events() + busy_polls(count as nat, delay_ms),
            decreases retries - count,
        {
            let ghost before = self.events();
            if self.is_ready() {
                assert(self.events().skip(old(self).events().len() as int) =~= busy_polls(count as nat, delay_ms)
                    + seq![PinEvent::Data(false)]);
                assert(self.events().take(old(self).events().len() as int) =~= old(self).events());
                return true;
            }
            self.pins.delay_ms(delay_ms);
            assert(self.events() =~= old(self).events() + busy_polls((count + 1) as nat, delay_ms));
            count = count + 1;
        }
        false
    }

    fn shift_in(&mut self) -> (r: u8)
        ensures
            final(self).gain == old(self).gain,
            final(self).offset == old(self).offset,
            final(self).history@ == old(self).history@,
            exists|bits: Seq<bool>|
                bits.len() == 8 && r == bits_value(bits) && final(self).events() == old(self).events()
                    + #[trigger] shift_frame(bits),
    {
        let mut value: u8 = 0;
        let ghost mut bits: Seq<bool> = Seq::empty();
        let mut i: u8 = 0;
        while i < 8
            invariant
                i <= 8,
                bits.len() == i,
                value == bits_value(bits),
                value < two_pow(i as nat),
                self.gain == old(self).gain,
                self.offset == old(self).offset,
                self.history@ == old(self).history@,
                self.events() == old(self).events() + shift_frame(bits),
            decreases 8 - i,
        {
            self.pins.clock_high();
            let high = self.pins.data_is_high();
            self.pins.clock_low();
            proof {
                lemma_two_pow_mono(i as nat, 7);
                assert(two_pow(7) == 128) by {
                    reveal_with_fuel(two_pow, 8);
                }
                let previous = bits;
                bits = bits.push(high);
                assert(bits.drop_last() =~= previous);
            }
            let bit: u8 = if high {
                1
            } else {
                0
            };
            value = value * 2 + bit;
            assert(self.events() =~= old(self).events() + shift_frame(bits));
            i = i + 1;
        }
        value
    }

    /// Reads one conversion: waits until ready, shifts in 24 bits most
    /// significant first, pulses the clock once per gain step to select the
    /// next conversion, and returns the 24-bit two's-complement sample
    /// sign-extended.
    pub fn read(&mut self) -> (r: i32)
        requires
            old(self).wf(),
        ensures
            final(self).wf(),
            final(self).gain_pulses() == old(self).gain_pulses(),
            final(self).zero_offset() == old(self).zero_offset(),
            final(self).samples() == old(self).samples().push(r),
            SAMPLE_MIN <= r < SAMPLE_LIMIT,
            exists|high: Seq<bool>, mid: Seq<bool>, low: Seq<bool>|
                high.len() == 8 && mid.len() == 8 && low.len() == 8
                    && r == sample_value(bits_value(high), bits_value(mid), bits_value(low))
                    && final(self).events() == old(self).events()
                    + #[trigger] read_frame(high, mid, low, old(self).gain_pulses()),
    {
        self.wait_ready(1);
        let ghost e1 = self.events();
        let b2 = self.shift_in();
        let ghost high = choose|bits: Seq<bool>|
            bits.len() == 8 && b2 == bits_value(bits) && self.events() == e1 + #[trigger] shift_frame(bits);
        let ghost e2 = self.events();
        let b1 = self.shift_in();
        let ghost mid = choose|bits: Seq<bool>|
            bits.len() == 8 && b1 == bits_value(bits) && self.events() == e2 + #[trigger] shift_frame(bits);
        let ghost e3 = self.events();
        let b0 = self.shift_in();
        let ghost low = choose|bits: Seq<bool>|
            bits.len() == 8 && b0 == bits_value(bits) && self.events() == e3 + #[trigger] shift_frame(bits);
        let ghost e4 = self.events();

        let mut i: u8 = 0;
        while i < self.gain
            invariant
                i <= self.gain,
                self.gain == old(self).gain,
                self.offset == old(self).offset,
                self.history@ == old(self).history@,
                self.events() == e4 + pulses_frame(i as nat),
            decreases self.gain - i,
        {
            self.pins.clock_high();
            self.pins.clock_low();
            assert(self.events() =~= e4 + pulses_frame((i + 1) as nat));
            i = i + 1;
        }
        assert(self.events() =~= old(self).events() + read_frame(high, mid, low, old(self).gain));

        let raw: i32 = (b2 as i32) * 65536 + (b1 as i32) * 256 + (b0 as i32);
        let value: i32 = if b2 & 0x80 != 0 {
            raw - 0x1000000
        } else {
            raw
        };
        assert(b2 & 0x80 != 0 <==> b2 >= 128) by (bit_vector);
        self.history = Ghost(self.history@.push(value));
        value
    }

    /// Mean of `times` consecutive reads, rounded toward zero; the sum is
    /// kept in a 64-bit accumulator.
    pub fn read_average(&mut self, times: u8) -> (r: i32)
        requires
            old(self).wf(),
            times > 0,
        ensures
            final(self).wf(),
            final(self).gain_pulses() == old(self).gain_pulses(),
            final(self).zero_offset() == old(self).zero_offset(),
            final(self).samples().len() == old(self).samples().len() + times,
            final(self).samples().take(old(self).samples().len() as int) == old(self).samples(),
            r == mean(final(self).samples().skip(old(self).samples().len() as int)),
    {
        let ghost start = old(self).samples().len() as int;
        let ghost mut window: Seq<i32> = Seq::empty();
        let mut sum: i64 = 0;
        let mut i: u8 = 0;
        while i < times
            invariant
                i <= times,
                self.wf(),
                self.gain == old(self).gain,
                self.offset == old(self).offset,
                window.len() == i,
                self.samples() == old(self).samples() + window,
                forall|j: int| 0 <= j < window.len() ==> SAMPLE_MIN <= #[trigger] window[j] < SAMPLE_LIMIT,
                sum == sum_of(window),
            decreases times - i,
        {
            proof {
                lemma_sum_bound(window);
            }
            let v = self.read();
            proof {
                let previous = window;
                window = window.push(v);
                assert(window.drop_last() =~= previous);
            }
            assert(self.samples() =~= old(self).samples() + window);
            sum = sum + v as i64;
            i = i + 1;
        }
        proof {
            lemma_sum_bound(window);
        }
        assert(self.samples().skip(start) =~= window);
        assert(self.samples().take(start) =~= old(self).samples());
        let n: i64 = times as i64;
        if sum >= 0 {
            assert(0 <= sum / n <= 8388607) by (nonlinear_arith)
                requires
                    0 <= sum <= n * 8388607,
                    n > 0,
            ;
            (sum / n) as i32
        } else {
            let magnitude: i64 = -sum;
            assert(0 <= magnitude / n <= 8388608) by (nonlinear_arith)
                requires
                    0 <= magnitude <= n * 8388608,
                    n > 0,
            ;
            -((magnitude / n) as i32)
        }
    }

    /// Mean of `times` reads, minus the zero offset.
    pub fn get_value(&mut self, times: u8) -> (r: i64)
        requires
            old(self).wf(),
            times > 0,
        ensures
            final(self).wf(),
            final(self).gain_pulses() == old(self).gain_pulses(),
            final(self).zero_offset() == old(self).zero_offset(),
            final(self).samples().len() == old(self).samples().len() + times,
            final(self).samples().take(old(self).samples().len() as int) == old(self).samples(),
            r == value_of(final(self).samples().skip(old(self).samples().len() as int), old(self).zero_offset()),
    {
        let average = self.read_average(times);
        average as i64 - self.offset as i64
    }

    /// Takes the mean of `times` reads as the zero offset.
    pub fn tare(&mut self, times: u8)
        requires
            old(self).wf(),
            times > 0,
        ensures
            final(self).wf(),
            final(self).gain_pulses() == old(self).gain_pulses(),
            final(self).samples().len() == old(self).samples().len() + times,
            final(self).samples().take(old(self).samples().len() as int) == old(self).samples(),
            final(self).zero_offset() == mean(final(self).samples().skip(old(self).samples().len() as int)),
    {
        let sum = self.read_average(times);
        self.offset = sum;
    }

    pub fn set_offset(&mut self, offset: i32)
        ensures
            final(self).zero_offset() == offset,
            final(self).gain_pulses() == old(self).gain_pulses(),
            final(self).samples() == old(self).samples(),
            final(self).events() == old(self).events(),
    {
        self.offset = offset;
    }

    pub fn get_offset(&self) -> (r: i32)
        ensures
            r == self.zero_offset(),
    {
        self.offset
    }

    /// Puts the converter to sleep: the clock line is left high.
    pub fn power_down(&mut self)
        ensures
            final(self).gain_pulses() == old(self).gain_pulses(),
            final(self).zero_offset() == old(self).zero_offset(),
            final(self).samples() == old(self).samples(),
            final(self).events() == old(self).events() + seq![PinEvent::ClockLow, PinEvent::ClockHigh],
    {
        self.pins.clock_low();
        self.pins.clock_high();
    }

    /// Wakes the converter: the clock line goes low.
    pub fn power_up(&mut self)
        ensures
            final(self).gain_pulses() == old(self).gain_pulses(),
            final(self).zero_offset() == old(self).zero_offset(),
            final(self).samples() == old(self).samples(),
            final(self).events() == old(self).events().push(PinEvent::ClockLow),
    {
        self.pins.clock_low();
    }
}

} // verus!
