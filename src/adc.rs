//! The decisions of a single-channel analog-to-digital converter driver:
//! when a sample may start, the sequencer and timer words it programs, and
//! what an end-of-conversion interrupt means. Register access is left to the
//! caller, which writes the words returned here.
use vstd::prelude::*;
use crate::return_code::ReturnCode;

verus! {

/// Highest channel that can be sampled.
pub const MAX_CHANNEL: u8 = 14;

/// Sample rate of continuous sampling, in hertz.
pub const FREQ_1KHZ: u32 = 1000;

/// Sequencer bits common to every sample: ground pad as the negative input,
/// internal negative and external positive, gain 0.5x, 12-bit, unipolar,
/// right-justified.
pub const SEQCFG_BASE: u32 = 0x0070_8070;

/// Trigger select: the internal timer, for continuous sampling.
pub const SEQCFG_TIMER_TRIGGER: u32 = 0x0000_0100;

/// Configuration bits of continuous sampling: VCC/2 reference, 300 ksps,
/// APB clock.
pub const CFG_CONTINUOUS: u32 = 0x0000_0048;

/// Largest value of the internal timer.
pub const ITIMER_MAX: u32 = 0xFFFF;

/// Smallest `k` with `n <= 2^k`.
pub open spec fn log2_ceil(n: nat) -> nat
    decreases n,
{
    if n <= 1 {
        0
    } else {
        1 + log2_ceil(((n + 1) / 2) as nat)
    }
}

/// The sequencer word that samples `channel`.
pub open spec fn seqcfg_spec(channel: u8) -> u32 {
    ((channel as u32) << 16u32) | SEQCFG_BASE
}

/// Prescaler divider of the ADC clock: the smallest power of two that
/// brings the system clock down to the sample rate, counted from a
/// division by 4, and at most 7.
pub open spec fn divider_spec(sys_freq: u32) -> u32 {
    let k = log2_ceil(((sys_freq as int + FREQ_1KHZ as int - 1) / FREQ_1KHZ as int) as nat);
    if k < 2 {
        0
    } else if k - 2 > 7 {
        7
    } else {
        (k - 2) as u32
    }
}

/// The ADC clock, which is the fastest the internal timer can trigger.
pub open spec fn max_frequency_spec(sys_freq: u32) -> u32 {
    (sys_freq / (4u32 << divider_spec(sys_freq))) as u32
}

/// The rate actually reachable for a requested one, given the ADC clock.
pub open spec fn compute_frequency_spec(max_frequency: u32, frequency: u32) -> u32 {
    if frequency == 0 {
        1
    } else if frequency > FREQ_1KHZ {
        FREQ_1KHZ
    } else {
        (max_frequency / (max_frequency / frequency)) as u32
    }
}

/// The lowest ADC clock for which a requested rate can be timed.
pub open spec fn needed_clock(frequency: u32) -> u32 {
    if frequency == 0 {
        1
    } else if frequency > FREQ_1KHZ {
        FREQ_1KHZ
    } else {
        frequency
    }
}

/// Timer period for the reachable rate, capped at the timer's width.
pub open spec fn itimer_spec(max_frequency: u32, frequency: u32) -> u32 {
    let itmc = max_frequency / compute_frequency_spec(max_frequency, frequency) - 1;
    if itmc > ITIMER_MAX {
        ITIMER_MAX
    } else {
        itmc as u32
    }
}

/// The words that set up continuous sampling.
#[derive(Clone, Copy, Debug, PartialEq, Eq, Structural)]
pub struct ContinuousConfig {
    /// Configuration register: reference, speed and prescaler.
    pub cfg: u32,
    /// Sequencer configuration register.
    pub seqcfg: u32,
    /// Internal timer period.
    pub itimer: u32,
}

/// `ceil(log2(n))` for a positive `n`.
pub fn log2_ceil_exec(n: u32) -> (r: u32)
    ensures
        r as nat == log2_ceil(n as nat),
{
    let mut m: u32 = n;
    let mut k: u32 = 0;
    while m > 1
        invariant
            log2_ceil(n as nat) == k + log2_ceil(m as nat),
            k + m <= n,
        decreases m,
    {
        assert(log2_ceil(m as nat) == 1 + log2_ceil(((m + 1) / 2) as nat));
        m = m / 2 + m % 2;
        k = k + 1;
    }
    k
}

/// State of the converter as the driver sees it.
pub struct Adc {
    enabled: bool,
    channel: u8,
    last_sample: bool,
    max_frequency: u32,
}

impl Adc {
    pub closed spec fn enabled_spec(&self) -> bool {
        self.enabled
    }

    pub closed spec fn channel_spec(&self) -> u8 {
        self.channel
    }

    /// The next conversion is the last one.
    pub closed spec fn last_sample_spec(&self) -> bool {
        self.last_sample
    }

    pub closed spec fn max_frequency_spec(&self) -> u32 {
        self.max_frequency
    }

    /// A converter that is off, on channel 0, taking single samples.
    pub fn new() -> (r: Adc)
        ensures
            !r.enabled_spec(),
            r.channel_spec() == 0,
            r.last_sample_spec(),
            r.max_frequency_spec() == 0,
    {
        Adc { enabled: false, channel: 0, last_sample: true, max_frequency: 0 }
    }

    /// The ADC clock recorded by the last continuous setup.
    pub fn max_frequency(&self) -> (r: u32)
        ensures
            r == self.max_frequency_spec(),
    {
        self.max_frequency
    }

    /// Turns the converter on. Returns whether it was off, in which case the
    /// caller runs the power-up sequence now; either way the answer to the
    /// process is `SUCCESS`.
    pub fn initialize(&mut self) -> (r: bool)
        ensures
            r == !old(self).enabled_spec(),
            final(self).enabled_spec(),
            final(self).channel_spec() == old(self).channel_spec(),
            final(self).last_sample_spec() == old(self).last_sample_spec(),
            final(self).max_frequency_spec() == old(self).max_frequency_spec(),
    {
        let was_off = !self.enabled;
        self.enabled = true;
        was_off
    }

    /// Starts a single sample of `channel`: `EOFF` before initialization,
    /// `EINVAL` for a channel above 14, else the sequencer word to write
    /// before the conversion is triggered.
    pub fn sample(&mut self, channel: u8) -> (r: Result<u32, ReturnCode>)
        ensures
            final(self).enabled_spec() == old(self).enabled_spec(),
            final(self).max_frequency_spec() == old(self).max_frequency_spec(),
            !old(self).enabled_spec() ==> r == Err::<u32, ReturnCode>(ReturnCode::EOFF)
                && final(self).channel_spec() == old(self).channel_spec()
                && final(self).last_sample_spec() == old(self).last_sample_spec(),
            old(self).enabled_spec() && channel > MAX_CHANNEL ==> r == Err::<u32, ReturnCode>(
                ReturnCode::EINVAL,
            ) && final(self).channel_spec() == old(self).channel_spec()
                && final(self).last_sample_spec() == old(self).last_sample_spec(),
            old(self).enabled_spec() && channel <= MAX_CHANNEL ==> r == Ok::<u32, ReturnCode>(
                seqcfg_spec(channel),
            ) && final(self).channel_spec() == channel && final(self).last_sample_spec(),
    {
        if !self.enabled {
            Err(ReturnCode::EOFF)
        } else if channel > MAX_CHANNEL {
            Err(ReturnCode::EINVAL)
        } else {
            self.last_sample = true;
            self.channel = channel;
            Ok(((channel as u32) << 16u32) | SEQCFG_BASE)
        }
    }

    /// A single sample cannot be cancelled.
    pub fn cancel_sample(&self) -> (r: ReturnCode)
        ensures
            r == ReturnCode::FAIL,
    {
        ReturnCode::FAIL
    }

    /// The reachable rate for a requested one: 1 for 0, the fixed rate for
    /// anything above it, else the ADC clock divided by the whole number of
    /// its periods in one requested period.
    pub fn compute_frequency(&self, frequency: u32) -> (r: u32)
        requires
            0 < frequency <= FREQ_1KHZ ==> self.max_frequency_spec() >= frequency,
        ensures
            r == compute_frequency_spec(self.max_frequency_spec(), frequency),
    {
        if frequency == 0 {
            return 1;
        }
        if frequency > FREQ_1KHZ {
            return FREQ_1KHZ;
        }
        assert(self.max_frequency / frequency >= 1) by (nonlinear_arith)
            requires
                self.max_frequency >= frequency,
                frequency > 0,
        ;
        let itmc: u32 = (self.max_frequency / frequency) - 1;
        self.max_frequency / (itmc + 1)
    }

    /// Sets up continuous sampling of `channel` at `frequency`, for a system
    /// clock of `sys_freq`. The converter is turned on first; the result's
    /// first part says whether it was off, in which case the caller runs the
    /// power-up sequence. A channel above 14 is `EINVAL`, and so is a rate
    /// that the ADC clock is too slow to time; otherwise the prescaler, ADC
    /// clock, channel and continuous mode are recorded and the words to
    /// write are returned.
    pub fn sample_continuous(&mut self, channel: u8, frequency: u32, sys_freq: u32) -> (r: (
        bool,
        Result<ContinuousConfig, ReturnCode>,
    ))
        ensures
            r.0 == !old(self).enabled_spec(),
            final(self).enabled_spec(),
            ({
                let max = max_frequency_spec(sys_freq);
                if channel > MAX_CHANNEL || max < needed_clock(frequency) {
                    &&& r.1 == Err::<ContinuousConfig, ReturnCode>(ReturnCode::EINVAL)
                    &&& final(self).channel_spec() == old(self).channel_spec()
                    &&& final(self).last_sample_spec() == old(self).last_sample_spec()
                    &&& final(self).max_frequency_spec() == old(self).max_frequency_spec()
                } else {
                    &&& r.1 == Ok::<ContinuousConfig, ReturnCode>(
                        ContinuousConfig {
                            cfg: CFG_CONTINUOUS | (divider_spec(sys_freq) << 8u32),
                            seqcfg: seqcfg_spec(channel) | SEQCFG_TIMER_TRIGGER,
                            itimer: itimer_spec(max, frequency),
                        },
                    )
                    &&& final(self).channel_spec() == channel
                    &&& !final(self).last_sample_spec()
                    &&& final(self).max_frequency_spec() == max
                }
            }),
    {
        let was_off = !self.enabled;
        self.enabled = true;
        if channel > MAX_CHANNEL {
            return (was_off, Err(ReturnCode::EINVAL));
        }
        let sys = sys_freq as u64;
        let f = FREQ_1KHZ as u64;
        let k = log2_ceil_exec(((sys + f - 1) / f) as u32);
        let divider: u32 = if k < 2 {
            0
        } else if k - 2 > 7 {
            7
        } else {
            k - 2
        };
        assert(4u32 << divider >= 4) by (bit_vector)
            requires divider <= 7;
        let max = sys_freq / (4u32 << divider);
        let needed: u32 = if frequency == 0 {
            1
        } else if frequency > FREQ_1KHZ {
            FREQ_1KHZ
        } else {
            frequency
        };
        if max < needed {
            return (was_off, Err(ReturnCode::EINVAL));
        }
        self.max_frequency = max;
        self.last_sample = false;
        self.channel = channel;
        let seqcfg = (((channel as u32) << 16u32) | SEQCFG_BASE) | SEQCFG_TIMER_TRIGGER;
        let actual = self.compute_frequency(frequency);
        assert(actual >= 1 && actual <= max) by (nonlinear_arith)
            requires
                actual == compute_frequency_spec(max, frequency),
                max >= needed_clock(frequency),
        {
            if frequency != 0 && frequency <= FREQ_1KHZ {
                let q = max / frequency;
                assert(q >= 1);
                assert(max / q <= max);
                assert(max / q >= 1);
            }
        }
        assert(max / actual >= 1) by (nonlinear_arith)
            requires
                actual >= 1,
                actual <= max,
        ;
        let itmc: u32 = max / actual - 1;
        let itimer = if itmc > ITIMER_MAX {
            ITIMER_MAX
        } else {
            itmc
        };
        let cfg = CFG_CONTINUOUS | (divider << 8u32);
        (was_off, Ok(ContinuousConfig { cfg, seqcfg, itimer }))
    }

    /// Stops continuous sampling after the next conversion.
    pub fn cancel_sampling(&mut self) -> (r: ReturnCode)
        ensures
            r == ReturnCode::SUCCESS,
            final(self).last_sample_spec(),
            final(self).enabled_spec() == old(self).enabled_spec(),
            final(self).channel_spec() == old(self).channel_spec(),
            final(self).max_frequency_spec() == old(self).max_frequency_spec(),
    {
        self.last_sample = true;
        ReturnCode::SUCCESS
    }

    /// Reads the status register of an interrupt. `None` unless it is an
    /// end of conversion; then the caller clears it, disables the
    /// end-of-conversion interrupt where the result says so (this was the
    /// last sample), and hands the converted value to the client.
    pub fn handle_interrupt(&self, status: u32) -> (r: Option<bool>)
        ensures
            status % 2 == 1 ==> r == Some(self.last_sample_spec()),
            status % 2 == 0 ==> r is None,
    {
        assert((status & 1) == status % 2) by (bit_vector);
        if status & 0x01 == 0x01 {
            Some(self.last_sample)
        } else {
            None
        }
    }
}

/// The converted value held in the last-converted-value register.
pub fn sample_value(lcv: u32) -> (r: u16)
    ensures
        r == lcv % 0x1_0000,
{
    assert((lcv & 0xffff) == lcv % 0x1_0000) by (bit_vector);
    (lcv & 0xffff) as u16
}

} // verus!
