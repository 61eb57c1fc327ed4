use vstd::prelude::*;

use crate::config::SPEED_OF_SOUND_NM_PER_NS;
use crate::error::{EchoPhase, Fault, HwError};

verus! {

/// Shortest distance the single-shot reading accepts: 2 cm, in nanometres.
pub const MIN_RANGE_NM: u64 = 20_000_000;

/// Longest distance the single-shot reading accepts: 400 cm, in nanometres.
pub const MAX_RANGE_NM: u64 = 4_000_000_000;

/// Nanoseconds from `start` to `now`; zero if the clock reads earlier.
pub open spec fn elapsed_spec(start: u64, now: u64) -> int {
    if now >= start {
        now - start
    } else {
        0
    }
}

fn elapsed(start: u64, now: u64) -> (r: u64)
    ensures
        r == elapsed_spec(start, now),
{
    if now >= start {
        now - start
    } else {
        0
    }
}

/// Milliseconds as nanoseconds, saturating at `u64::MAX`.
pub fn ms_to_ns(ms: u64) -> (r: u64)
    ensures
        ms * 1_000_000 <= u64::MAX ==> r == ms * 1_000_000,
        ms * 1_000_000 > u64::MAX ==> r == u64::MAX,
{
    if ms <= u64::MAX / 1_000_000 {
        ms * 1_000_000
    } else {
        u64::MAX
    }
}

/// What one look at the echo line tells.
#[derive(Clone, Copy, Debug, PartialEq, Eq, Structural)]
pub enum EchoReading {
    /// Keep polling.
    Pending,
    /// The echo pulse ended; it was high this many nanoseconds.
    Width(u64),
    /// The line did not change within the timeout.
    TimedOut(EchoPhase),
}

/// Timing of one echo pulse, fed by polls of the echo line and a clock.
///
/// It first waits for the line to rise, then measures how long it stays
/// high; each wait gives up once more than `timeout_ns` has passed.
#[derive(Clone, Copy, Debug, PartialEq, Eq, Structural)]
pub struct EchoTimer {
    pub phase: EchoPhase,
    /// When the current wait began.
    pub phase_start_ns: u64,
    pub timeout_ns: u64,
}

impl EchoTimer {
    /// Starts waiting for the echo to rise at `now_ns`.
    pub fn new(timeout_ns: u64, now_ns: u64) -> (r: EchoTimer)
        ensures
            r == (EchoTimer { phase: EchoPhase::Rise, phase_start_ns: now_ns, timeout_ns }),
    {
        EchoTimer { phase: EchoPhase::Rise, phase_start_ns: now_ns, timeout_ns }
    }

    /// Takes one sample of the echo line, read at `now_ns`.
    pub fn observe(&mut self, echo_high: bool, now_ns: u64) -> (r: EchoReading)
        ensures
            ({
                let waited = elapsed_spec(old(self).phase_start_ns, now_ns);
                let timeout = old(self).timeout_ns as int;
                match old(self).phase {
                    EchoPhase::Rise => if echo_high {
                        r == EchoReading::Pending && *final(self) == (EchoTimer {
                            phase: EchoPhase::Fall,
                            phase_start_ns: now_ns,
                            timeout_ns: old(self).timeout_ns,
                        })
                    } else {
                        *final(self) == *old(self) && r == if waited > timeout {
                            EchoReading::TimedOut(EchoPhase::Rise)
                        } else {
                            EchoReading::Pending
                        }
                    },
                    EchoPhase::Fall => *final(self) == *old(self) && r == if !echo_high {
                        EchoReading::Width(waited as u64)
                    } else if waited > timeout {
                        EchoReading::TimedOut(EchoPhase::Fall)
                    } else {
                        EchoReading::Pending
                    },
                }
            }),
    {
        let waited = elapsed(self.phase_start_ns, now_ns);
        match self.phase {
            EchoPhase::Rise => {
                if echo_high {
                    self.phase = EchoPhase::Fall;
                    self.phase_start_ns = now_ns;
                    EchoReading::Pending
                } else if waited > self.timeout_ns {
                    EchoReading::TimedOut(EchoPhase::Rise)
                } else {
                    EchoReading::Pending
                }
            },
            EchoPhase::Fall => {
                if !echo_high {
                    EchoReading::Width(waited)
                } else if waited > self.timeout_ns {
                    EchoReading::TimedOut(EchoPhase::Fall)
                } else {
                    EchoReading::Pending
                }
            },
        }
    }
}

/// Distance in nanometres for an echo pulse: its width in whole microseconds
/// times the speed of sound (0.0343 cm, i.e. 343000 nm, per microsecond),
/// halved for the round trip.
pub open spec fn echo_distance_nm(width_ns: int) -> int {
    (width_ns / 1000) * (SPEED_OF_SOUND_NM_PER_NS * 1000) / 2
}

/// Result of a single-shot reading for a pulse of `width_ns`.
pub open spec fn single_shot_distance_spec(width_ns: int) -> Result<u64, HwError> {
    let d = echo_distance_nm(width_ns);
    if MIN_RANGE_NM <= d <= MAX_RANGE_NM {
        Ok(d as u64)
    } else {
        Err(HwError::HardwareFault(Fault::OutOfRange))
    }
}

/// Single-shot reading: the distance of one echo pulse, in nanometres.
/// A distance outside `[2 cm, 400 cm]` is not plausible and is rejected.
pub fn single_shot_distance(width_ns: u64) -> (r: Result<u64, HwError>)
    ensures
        r == single_shot_distance_spec(width_ns as int),
{
    let width_us: u128 = (width_ns / 1000) as u128;
    assert(width_us * 343000 <= 0x1_0000_0000_0000_0000_0000_0000_0000) by (nonlinear_arith)
        requires
            width_us <= 0xFFFF_FFFF_FFFF_FFFF,
    ;
    let distance: u128 = width_us * (SPEED_OF_SOUND_NM_PER_NS * 1000) / 2;
    if distance < MIN_RANGE_NM as u128 || distance > MAX_RANGE_NM as u128 {
        Err(HwError::HardwareFault(Fault::OutOfRange))
    } else {
        Ok(distance as u64)
    }
}

/// Outcome of a single-shot reading once its echo wait has ended: the
/// distance for a measured pulse, a timeout naming the phase that ran out.
pub fn single_shot_result(reading: EchoReading) -> (r: Result<u64, HwError>)
    requires
        !(reading is Pending),
    ensures
        reading matches EchoReading::Width(w) ==> r == single_shot_distance_spec(w as int),
        reading matches EchoReading::TimedOut(phase) ==> r == Err::<u64, HwError>(
            HwError::HardwareTimeout(phase),
        ),
{
    match reading {
        EchoReading::Width(width_ns) => single_shot_distance(width_ns),
        EchoReading::TimedOut(phase) => Err(HwError::HardwareTimeout(phase)),
        EchoReading::Pending => Err(HwError::HardwareTimeout(EchoPhase::Rise)),
    }
}

/// Mean distance of accepted samples, in nanometres: the mean pulse width
/// times the speed of sound, halved; zero when no sample was accepted.
pub open spec fn mean_distance_nm(total_ns: int, count: int) -> int {
    if count == 0 {
        0
    } else {
        total_ns * SPEED_OF_SOUND_NM_PER_NS / (2 * count)
    }
}

/// What a pulse adds to the total once the calibration offset is taken off;
/// a pulse shorter than the offset adds nothing.
pub open spec fn corrected_width(width_ns: int, offset_ns: int) -> int {
    if width_ns >= offset_ns {
        width_ns - offset_ns
    } else {
        0
    }
}

/// Multi-sample reading: up to `samples` echo pulses are timed until
/// `timeout_ns` has passed since the start; each pulse shorter than the
/// timeout is accepted, less the calibration offset, and the reading is the
/// distance of their mean width.
#[derive(Clone, Copy, Debug, PartialEq, Eq, Structural)]
pub struct MultiSampleRanging {
    pub samples: u32,
    pub timeout_ns: u64,
    pub offset_ns: u64,
    pub started_ns: u64,
    /// Samples accepted so far.
    pub count: u32,
    /// Sum of the accepted samples' corrected widths.
    pub total_ns: u128,
}

impl MultiSampleRanging {
    pub open spec fn wf(self) -> bool {
        &&& self.count <= self.samples
        &&& self.total_ns <= self.count as int * self.timeout_ns as int
    }

    /// Starts a reading at `now_ns`.
    pub fn new(timeout_ms: u64, samples: u32, offset_ns: u64, now_ns: u64) -> (r:
        MultiSampleRanging)
        ensures
            r.wf(),
            r.samples == samples,
            timeout_ms * 1_000_000 <= u64::MAX ==> r.timeout_ns == timeout_ms * 1_000_000,
            timeout_ms * 1_000_000 > u64::MAX ==> r.timeout_ns == u64::MAX,
            r.offset_ns == offset_ns,
            r.started_ns == now_ns,
            r.count == 0,
            r.total_ns == 0,
    {
        MultiSampleRanging {
            samples,
            timeout_ns: ms_to_ns(timeout_ms),
            offset_ns,
            started_ns: now_ns,
            count: 0,
            total_ns: 0,
        }
    }

    /// Whether another pulse should be timed at `now_ns`: fewer than
    /// `samples` accepted and the timeout not yet reached.
    pub fn wants_sample(&self, now_ns: u64) -> (r: bool)
        ensures
            r == (self.count < self.samples && elapsed_spec(self.started_ns, now_ns)
                < self.timeout_ns),
    {
        self.count < self.samples && elapsed(self.started_ns, now_ns) < self.timeout_ns
    }

    /// The timer for the next pulse, started at `now_ns`.
    pub fn echo_timer(&self, now_ns: u64) -> (r: EchoTimer)
        ensures
            r == (EchoTimer { phase: EchoPhase::Rise, phase_start_ns: now_ns, timeout_ns: self.timeout_ns }),
    {
        EchoTimer::new(self.timeout_ns, now_ns)
    }

    /// Records how a pulse ended; returns whether it was accepted. A pulse is
    /// accepted when it has a width below the timeout and fewer than
    /// `samples` have been accepted.
    pub fn record(&mut self, reading: EchoReading) -> (accepted: bool)
        requires
            old(self).wf(),
        ensures
            final(self).wf(),
            accepted == (reading matches EchoReading::Width(w) && w < old(self).timeout_ns
                && old(self).count < old(self).samples),
            accepted ==> *final(self) == (MultiSampleRanging {
                count: (old(self).count + 1) as u32,
                total_ns: (old(self).total_ns + corrected_width(
                    reading->Width_0 as int,
                    old(self).offset_ns as int,
                )) as u128,
                ..*old(self)
            }),
            !accepted ==> *final(self) == *old(self),
    {
        match reading {
            EchoReading::Width(w) => {
                if w < self.timeout_ns && self.count < self.samples {
                    let corrected: u64 = if w >= self.offset_ns {
                        w - self.offset_ns
                    } else {
                        0
                    };
                    let ghost c = self.count as int;
                    let ghost t = self.timeout_ns as int;
                    assert((c + 1) * t == c * t + t) by (nonlinear_arith);
                    assert((c + 1) * t <= 0xFFFF_FFFF * 0xFFFF_FFFF_FFFF_FFFF) by (nonlinear_arith)
                        requires
                            c + 1 <= 0xFFFF_FFFF,
                            0 <= t <= 0xFFFF_FFFF_FFFF_FFFF,
                    ;
                    self.total_ns = self.total_ns + corrected as u128;
                    self.count = self.count + 1;
                    true
                } else {
                    false
                }
            },
            _ => false,
        }
    }

    /// The reading: the distance of the mean accepted width, in nanometres;
    /// zero when no pulse was accepted, which is not an error.
    pub fn distance_nm(&self) -> (r: u128)
        requires
            self.wf(),
        ensures
            r == mean_distance_nm(self.total_ns as int, self.count as int),
    {
        if self.count > 0 {
            let ghost c = self.count as int;
            let ghost t = self.timeout_ns as int;
            assert(c * t <= 0xFFFF_FFFF * 0xFFFF_FFFF_FFFF_FFFF) by (nonlinear_arith)
                requires
                    0 <= c <= 0xFFFF_FFFF,
                    0 <= t <= 0xFFFF_FFFF_FFFF_FFFF,
            ;
            self.total_ns * SPEED_OF_SOUND_NM_PER_NS / (2 * self.count as u128)
        } else {
            0
        }
    }
}

} // verus!
