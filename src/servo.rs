//! Servo calibration: from an abstract rotation `0..=255` to a PWM duty value.

use vstd::prelude::*;

verus! {

/// Timing of a servo's control signal, in microseconds.
#[derive(Debug, Clone, Copy, PartialEq, Eq, Structural)]
pub struct Config {
    /// Time between pulses.
    pub pwm_period_us: u64,
    /// Pulse width at rotation 0.
    pub min_pulse_width_us: u64,
    /// Pulse width at rotation 255.
    pub max_pulse_width_us: u64,
}

/// A calibration that yields no usable duty value.
#[derive(Debug, Clone, Copy, PartialEq, Eq, Structural)]
pub enum ConfigError {
    /// The period is shorter than one tick per duty step, so a tick lasts zero
    /// microseconds.
    ZeroTickWidth,
    /// The maximum pulse is shorter, in ticks, than the minimum pulse.
    InvertedRange,
    /// The duty value does not fit the peripheral's 16-bit duty register.
    DutyOutOfRange,
}

impl Config {
    /// SG90 micro servo: 20 ms period, 0.5 to 2.5 ms pulses.
    pub fn sg90() -> (c: Config)
        ensures
            c == (Config { pwm_period_us: 20_000, min_pulse_width_us: 500, max_pulse_width_us: 2_500 }),
    {
        Config { pwm_period_us: 20_000, min_pulse_width_us: 500, max_pulse_width_us: 2_500 }
    }

    /// MG995 metal-gear servo: 20 ms period, 0.5 to 2.5 ms pulses.
    pub fn mg995() -> (c: Config)
        ensures
            c == (Config { pwm_period_us: 20_000, min_pulse_width_us: 500, max_pulse_width_us: 2_500 }),
    {
        Config { pwm_period_us: 20_000, min_pulse_width_us: 500, max_pulse_width_us: 2_500 }
    }
}

/// Microseconds per duty tick when the peripheral counts `max_duty + 1` ticks per period.
pub open spec fn tick_width(c: Config, max_duty: u16) -> int {
    c.pwm_period_us as int / (max_duty + 1)
}

/// Duty ticks of the pulse for rotation 0.
pub open spec fn min_duty(c: Config, max_duty: u16) -> int {
    c.min_pulse_width_us as int / tick_width(c, max_duty)
}

/// Duty ticks of the pulse for rotation 255.
pub open spec fn max_duty_ticks(c: Config, max_duty: u16) -> int {
    c.max_pulse_width_us as int / tick_width(c, max_duty)
}

/// Duty for `rotation`: linear from [`min_duty`] to [`max_duty_ticks`], truncating.
pub open spec fn duty(c: Config, max_duty: u16, rotation: u8) -> int {
    min_duty(c, max_duty) + (max_duty_ticks(c, max_duty) - min_duty(c, max_duty)) * rotation / 255
}

/// The duty value that puts a servo with calibration `config` at `rotation`, on a
/// peripheral whose largest duty value is `max_duty`.
pub fn duty_for_rotation(config: &Config, max_duty: u16, rotation: u8) -> (r: Result<u16, ConfigError>)
    ensures
        tick_width(*config, max_duty) == 0 <==> r == Err::<u16, ConfigError>(ConfigError::ZeroTickWidth),
        tick_width(*config, max_duty) > 0 && max_duty_ticks(*config, max_duty) < min_duty(*config, max_duty)
            <==> r == Err::<u16, ConfigError>(ConfigError::InvertedRange),
        tick_width(*config, max_duty) > 0 && max_duty_ticks(*config, max_duty) >= min_duty(*config, max_duty)
            && duty(*config, max_duty, rotation) > u16::MAX
            <==> r == Err::<u16, ConfigError>(ConfigError::DutyOutOfRange),
        r is Ok <==> tick_width(*config, max_duty) > 0 && max_duty_ticks(*config, max_duty) >= min_duty(*config, max_duty)
            && duty(*config, max_duty, rotation) <= u16::MAX,
        r matches Ok(d) ==> d == duty(*config, max_duty, rotation),
{
    let tick: u128 = config.pwm_period_us as u128 / (max_duty as u128 + 1);
    if tick == 0 {
        return Err(ConfigError::ZeroTickWidth);
    }
    let low: u128 = config.min_pulse_width_us as u128 / tick;
    let high: u128 = config.max_pulse_width_us as u128 / tick;
    if high < low {
        return Err(ConfigError::InvertedRange);
    }
    proof {
        vstd::arithmetic::div_mod::lemma_div_is_ordered_by_denominator(config.max_pulse_width_us as int, 1, tick as int);
        assert((high - low) * rotation <= (high - low) * 255) by (nonlinear_arith)
            requires high >= low, rotation <= 255;
    }
    let desired: u128 = low + (high - low) * rotation as u128 / 255;
    if desired > u16::MAX as u128 {
        Err(ConfigError::DutyOutOfRange)
    } else {
        Ok(desired as u16)
    }
}

/// Rotation 0 gives the minimum duty, rotation 255 the maximum, and a larger rotation
/// never gives a smaller duty.
pub proof fn lemma_duty_mapping(c: Config, max_duty: u16, low: u8, high: u8)
    requires
        tick_width(c, max_duty) > 0,
        min_duty(c, max_duty) <= max_duty_ticks(c, max_duty),
        low <= high,
    ensures
        duty(c, max_duty, 0) == min_duty(c, max_duty),
        duty(c, max_duty, 255) == max_duty_ticks(c, max_duty),
        duty(c, max_duty, low) <= duty(c, max_duty, high),
{
    let span = max_duty_ticks(c, max_duty) - min_duty(c, max_duty);
    assert(span * 0 == 0);
    vstd::arithmetic::div_mod::lemma_div_multiples_vanish(span, 255);
    assert(span * 255 == 255 * span) by (nonlinear_arith);
    assert(span * low <= span * high) by (nonlinear_arith)
        requires span >= 0, low <= high;
    vstd::arithmetic::div_mod::lemma_div_is_ordered(span * low, span * high, 255);
}

} // verus!
