use vstd::prelude::*;
use crate::errors::Error;

verus! {

/// The caller's immutable request: target sample rate, channel count, and
/// buffer/period durations. The driver treats the durations as hints and
/// rounds them; only the negotiated frame counts are authoritative.
#[derive(Clone, Copy, Debug, PartialEq, Eq, Structural)]
pub struct DeviceConfig {
    /// The target amount of time to store buffered audio for. The sound
    /// driver will use something close to this number, but it might not be
    /// exact.
    pub buffer_target_us: u32,
    /// The number of channels for playback. Channel data is always
    /// interleaved.
    pub channels: u32,
    /// The target amount of time to process before asking the application
    /// for more data. The sound driver will use something close to this
    /// number, but it might not be exact.
    pub period_target_us: u32,
    /// The constant sample rate in hz to output audio at
    pub sample_rate: u32,
}

/// The capability space a driver reports before any constraint is applied:
/// the ranges it can honor for channel count, sample rate, and buffer and
/// period sizes (in frames).
#[derive(Clone, Copy, Debug, PartialEq, Eq, Structural)]
pub struct HardwareCapability {
    pub channels_min: u32,
    pub channels_max: u32,
    pub rate_min: u32,
    pub rate_max: u32,
    pub buffer_frames_min: u64,
    pub buffer_frames_max: u64,
    pub period_frames_min: u64,
    pub period_frames_max: u64,
}

impl HardwareCapability {
    /// A capability space is well formed when every range is non-empty and
    /// every lower bound is positive: a device that supports zero channels,
    /// a zero rate or a zero-frame buffer cannot play anything.
    pub open spec fn wf(&self) -> bool {
        &&& 1 <= self.channels_min && self.channels_min <= self.channels_max
        &&& 1 <= self.rate_min && self.rate_min <= self.rate_max
        &&& 1 <= self.buffer_frames_min && self.buffer_frames_min <= self.buffer_frames_max
        &&& 1 <= self.period_frames_min && self.period_frames_min <= self.period_frames_max
    }
}

/// The sizes the driver actually chose, in frames — the units it honors.
/// Derived once from a `DeviceConfig` and the hardware capability; immutable
/// thereafter.
#[derive(Clone, Copy, Debug, PartialEq, Eq, Structural)]
pub struct NegotiatedParameters {
    /// Ring buffer size in frames.
    pub buffer_size: u64,
    /// Period size in frames: the block the driver processes between
    /// readiness checks.
    pub period_size: u64,
    /// The actual rate chosen by the driver, not the requested one.
    pub sample_rate: u32,
    /// Channel count, unchanged from the request.
    pub channels: u32,
}

/// Software-level thresholds derived from the negotiated sizes: playback
/// starts only once a whole number of periods fills the buffer, and the
/// driver reports readiness once at least one period of space is free.
#[derive(Clone, Copy, Debug, PartialEq, Eq, Structural)]
pub struct SoftwareParams {
    pub start_threshold: u64,
    pub avail_min: u64,
}

/// A value forced into a closed range (the model of the driver rounding a
/// request to the nearest value it supports).
pub open spec fn clamped(x: int, lo: int, hi: int) -> int {
    if x < lo {
        lo
    } else if x > hi {
        hi
    } else {
        x
    }
}

/// How many whole frames a duration in microseconds spans at a sample rate.
pub open spec fn frames_for_duration(us: u32, rate: u32) -> int {
    (us * rate) / 1_000_000
}

pub open spec fn negotiated_rate(c: DeviceConfig, cap: HardwareCapability) -> int {
    clamped(c.sample_rate as int, cap.rate_min as int, cap.rate_max as int)
}

pub open spec fn negotiated_buffer_frames(c: DeviceConfig, cap: HardwareCapability) -> int {
    clamped(
        frames_for_duration(c.buffer_target_us, negotiated_rate(c, cap) as u32),
        cap.buffer_frames_min as int,
        cap.buffer_frames_max as int,
    )
}

pub open spec fn negotiated_period_frames(c: DeviceConfig, cap: HardwareCapability) -> int {
    let p = clamped(
        frames_for_duration(c.period_target_us, negotiated_rate(c, cap) as u32),
        cap.period_frames_min as int,
        cap.period_frames_max as int,
    );
    if p > negotiated_buffer_frames(c, cap) {
        negotiated_buffer_frames(c, cap)
    } else {
        p
    }
}

/// The whole negotiation as a function of the request and the capability
/// space alone: the request is rejected exactly when the channel count falls
/// outside the supported range; otherwise the rate and both sizes are the
/// driver's rounding of the requested values.
pub open spec fn negotiate_spec(c: DeviceConfig, cap: HardwareCapability) -> Result<
    NegotiatedParameters,
    Error,
> {
    if c.channels < cap.channels_min || c.channels > cap.channels_max {
        Err(Error::UnsupportedParameterError(0))
    } else {
        Ok(
            NegotiatedParameters {
                buffer_size: negotiated_buffer_frames(c, cap) as u64,
                period_size: negotiated_period_frames(c, cap) as u64,
                sample_rate: negotiated_rate(c, cap) as u32,
                channels: c.channels,
            },
        )
    }
}

/// Playback begins once `floor(buffer_size / period_size)` whole periods are
/// queued; this is that amount in frames.
pub open spec fn start_threshold_spec(p: NegotiatedParameters) -> int {
    (p.buffer_size as int / p.period_size as int) * (p.period_size as int)
}

/// Translate a request into the concrete sizes the driver would choose.
///
/// The result is a function of the two arguments alone, so negotiation is
/// deterministic: the same request against the same capability space always
/// yields the same parameters.
pub fn negotiate(config: &DeviceConfig, cap: &HardwareCapability) -> (r: Result<
    NegotiatedParameters,
    Error,
>)
    requires
        cap.wf(),
    ensures
        r == negotiate_spec(*config, *cap),
{
    if config.channels < cap.channels_min || config.channels > cap.channels_max {
        return Err(Error::UnsupportedParameterError(0));
    }
    let rate: u32 = if config.sample_rate < cap.rate_min {
        cap.rate_min
    } else if config.sample_rate > cap.rate_max {
        cap.rate_max
    } else {
        config.sample_rate
    };

    let buffer_frames: u64 = clamped_frames(
        config.buffer_target_us,
        rate,
        cap.buffer_frames_min,
        cap.buffer_frames_max,
    );
    let mut period_frames: u64 = clamped_frames(
        config.period_target_us,
        rate,
        cap.period_frames_min,
        cap.period_frames_max,
    );
    if period_frames > buffer_frames {
        period_frames = buffer_frames;
    }

    Ok(
        NegotiatedParameters {
            buffer_size: buffer_frames,
            period_size: period_frames,
            sample_rate: rate,
            channels: config.channels,
        },
    )
}

/// The frame count for a duration at a rate, forced into the given range.
fn clamped_frames(us: u32, rate: u32, lo: u64, hi: u64) -> (r: u64)
    requires
        lo <= hi,
    ensures
        r == clamped(frames_for_duration(us, rate), lo as int, hi as int),
{
    proof {
        assert((us as int) * (rate as int) <= 0xffff_ffff * 0xffff_ffff) by (nonlinear_arith)
            requires
                us <= 0xffff_ffffu32,
                rate <= 0xffff_ffffu32,
        ;
    }
    let raw: u64 = (us as u64) * (rate as u64) / 1_000_000;
    if raw < lo {
        lo
    } else if raw > hi {
        hi
    } else {
        raw
    }
}

/// Derive the software thresholds from the negotiated sizes.
pub fn software_thresholds(p: &NegotiatedParameters) -> (sw: SoftwareParams)
    requires
        p.period_size >= 1,
    ensures
        sw.start_threshold == start_threshold_spec(*p),
        sw.avail_min == p.period_size,
{
    proof {
        assert((p.buffer_size as int / p.period_size as int) * (p.period_size as int)
            <= p.buffer_size as int) by (nonlinear_arith)
            requires
                p.period_size >= 1,
        ;
    }
    SoftwareParams {
        start_threshold: (p.buffer_size / p.period_size) * p.period_size,
        avail_min: p.period_size,
    }
}

/// Negotiation determinism and consistency. The negotiated sizes are a
/// function of the request and the capability space alone (they are defined
/// by `negotiate_spec`, which `negotiate` returns exactly); the request is
/// rejected precisely when the channel count is unsupported; and a granted
/// request carries non-zero sizes whose start threshold is a whole positive
/// number of periods fitting inside the buffer.
pub proof fn lemma_negotiation_consistent(c: DeviceConfig, cap: HardwareCapability)
    requires
        cap.wf(),
    ensures
        negotiate_spec(c, cap) is Err <==> (c.channels < cap.channels_min || c.channels
            > cap.channels_max),
        negotiate_spec(c, cap) matches Err(e) ==> e == Error::UnsupportedParameterError(0),
        negotiate_spec(c, cap) matches Ok(p) ==> {
            &&& 1 <= p.period_size <= p.buffer_size
            &&& 1 <= p.sample_rate
            &&& p.channels == c.channels
            &&& start_threshold_spec(p) == (p.buffer_size as int / p.period_size as int)
                * (p.period_size as int)
            &&& p.period_size <= start_threshold_spec(p) <= p.buffer_size
            &&& start_threshold_spec(p) % (p.period_size as int) == 0
        },
{
    if negotiate_spec(c, cap) is Ok {
        let p = negotiate_spec(c, cap)->Ok_0;
        let b = p.buffer_size as int;
        let q = p.period_size as int;
        assert(1 <= q <= b);
        assert(q <= (b / q) * q <= b && ((b / q) * q) % q == 0) by (nonlinear_arith)
            requires
                1 <= q <= b,
        ;
    }
}

} // verus!
