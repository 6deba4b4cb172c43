//! The parameters of one scan, and the frequencies that it tunes.
//!
//! A scan walks the band in steps of half the bandwidth, so that adjacent
//! captures overlap by half and no gap opens at their edges. It starts one
//! bandwidth below the band and goes on while the frequency is no more than
//! two bandwidths above it.

use vstd::prelude::*;
use crate::error::ValidationError;
use crate::sizing::capture_len;

verus! {

/// What one scan is asked to do. All frequencies are in Hz.
#[derive(Clone, Copy, Debug, PartialEq, Eq, Structural)]
pub struct ScanParameters {
    /// The lower end of the band.
    pub from: u32,
    /// The upper end of the band.
    pub to: u32,
    /// The width of the band that one capture covers.
    pub bandwidth: usize,
    /// How long the receiver stays on one frequency, in milliseconds.
    pub dwell_ms: usize,
    /// Complex samples a second.
    pub samplerate: usize,
}

impl ScanParameters {
    /// By how much the frequency advances from one capture to the next.
    pub open spec fn step(self) -> int {
        self.bandwidth as int / 2
    }

    /// The first frequency of the scan.
    pub open spec fn first(self) -> int {
        self.from - self.bandwidth
    }

    /// The frequency beyond which the scan does not go.
    pub open spec fn limit(self) -> int {
        self.to + 2 * self.bandwidth
    }

    /// The frequency of capture number `k`, counted from 0.
    pub open spec fn tuned(self, k: int) -> int {
        self.first() + k * self.step()
    }

    /// How many times the frequency advances by one step from the first
    /// frequency without passing the limit.
    pub open spec fn steps(self) -> int {
        if self.first() <= self.limit() {
            (self.limit() - self.first()) / self.step()
        } else {
            0
        }
    }

    /// How many captures the scan makes: one at the first frequency and one
    /// after every step, or none if the first frequency is beyond the limit.
    pub open spec fn captures(self) -> int {
        if self.first() <= self.limit() {
            self.steps() + 1
        } else {
            0
        }
    }

    /// The length in bytes of every capture of the scan.
    pub open spec fn capture_bytes(self) -> int {
        crate::sizing::capture_bytes(self.dwell_ms as int, self.samplerate as int)
    }

    /// What is wrong with these parameters, if anything. A scan needs a step
    /// of at least 1 Hz; a sample rate, a bandwidth and frequencies that the
    /// tuner can be given, which takes them as unsigned 32-bit numbers; and a
    /// capture that the receiver can deliver in one read.
    pub open spec fn check(self) -> Result<(), ValidationError> {
        if self.bandwidth < 2 {
            Err(ValidationError::ZeroStep)
        } else if self.bandwidth > u32::MAX || self.samplerate > u32::MAX || self.first() < 0
            || self.limit() > u32::MAX || self.capture_bytes() > crate::sizing::MAX_CAPTURE_BYTES {
            Err(ValidationError::OutOfRange)
        } else {
            Ok(())
        }
    }

    /// Whether a scan can be made with these parameters.
    pub open spec fn well_formed(self) -> bool {
        self.check() is Ok
    }

    /// Finds what is wrong with these parameters, if anything.
    pub fn validate(&self) -> (outcome: Result<(), ValidationError>)
        ensures
            outcome == self.check(),
    {
        if self.bandwidth < 2 {
            return Err(ValidationError::ZeroStep);
        }
        if self.bandwidth > 0xffff_ffff || self.samplerate > 0xffff_ffff {
            return Err(ValidationError::OutOfRange);
        }
        let bandwidth: u64 = self.bandwidth as u64;
        if (self.from as u64) < bandwidth || self.to as u64 + 2 * bandwidth > 0xffff_ffff {
            return Err(ValidationError::OutOfRange);
        }
        match capture_len(self.dwell_ms, self.samplerate) {
            Some(_) => Ok(()),
            None => Err(ValidationError::OutOfRange),
        }
    }

    /// The step of the scan.
    pub fn step_hz(&self) -> (step: usize)
        ensures
            step == self.step(),
    {
        self.bandwidth / 2
    }

    /// The number of captures that the scan makes.
    pub fn capture_count(&self) -> (count: u64)
        requires
            self.well_formed(),
        ensures
            count == self.captures(),
    {
        let bandwidth: u64 = self.bandwidth as u64;
        let first: u64 = self.from as u64 - bandwidth;
        let limit: u64 = self.to as u64 + 2 * bandwidth;
        if first <= limit {
            (limit - first) / (bandwidth / 2) + 1
        } else {
            0
        }
    }

    /// The number of steps that the scan takes.
    pub fn step_count(&self) -> (count: u64)
        requires
            self.well_formed(),
        ensures
            count == self.steps(),
    {
        let bandwidth: u64 = self.bandwidth as u64;
        let first: u64 = self.from as u64 - bandwidth;
        let limit: u64 = self.to as u64 + 2 * bandwidth;
        if first <= limit {
            (limit - first) / (bandwidth / 2)
        } else {
            0
        }
    }

    /// The frequency of capture number `k`.
    pub fn frequency(&self, k: u64) -> (hz: u32)
        requires
            self.well_formed(),
            k < self.captures(),
        ensures
            hz == self.tuned(k as int),
            hz <= self.limit(),
    {
        proof {
            self.lemma_tuned_within_limit(k as int);
        }
        let bandwidth: u64 = self.bandwidth as u64;
        let first: u64 = self.from as u64 - bandwidth;
        assert(0 <= k * (bandwidth / 2) <= 0xffff_ffff) by (nonlinear_arith)
            requires
                self.tuned(k as int) <= 0xffff_ffff,
                self.tuned(k as int) == first + k * (bandwidth / 2),
                0 <= first,
                0 <= k,
                0 <= bandwidth / 2,
        ;
        (first + k * (bandwidth / 2)) as u32
    }

    /// The scan tunes exactly the frequencies that do not pass the limit:
    /// capture number `k` exists if and only if its frequency is no more than
    /// the limit. Each frequency lies one step above the one before.
    pub proof fn lemma_tuned_within_limit(self, k: int)
        requires
            self.step() >= 1,
            0 <= k,
        ensures
            k < self.captures() <==> self.tuned(k) <= self.limit(),
            self.tuned(k + 1) == self.tuned(k) + self.step(),
    {
        let step = self.step();
        let span = self.limit() - self.first();
        assert((k + 1) * step == k * step + step) by (nonlinear_arith);
        if span >= 0 {
            assert(k <= span / step <==> k * step <= span) by (nonlinear_arith)
                requires
                    step >= 1,
                    span >= 0,
                    0 <= k,
            ;
        } else {
            assert(k * step >= 0) by (nonlinear_arith)
                requires
                    step >= 1,
                    0 <= k,
            ;
        }
    }
}

} // verus!
