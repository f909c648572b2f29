//! Fade envelopes: the time-driven ramps that move the master gain of a
//! playing cue in and out.
use vstd::prelude::*;
use vstd::arithmetic::div_mod::{lemma_div_by_multiple, lemma_div_is_ordered};
use vstd::arithmetic::mul::lemma_mul_inequality;

use crate::gain::master_in_range;

verus! {

/// The gain reached after `elapsed` of a `window` long ramp from `start` to
/// `end`: linear in between, rounded toward `start`, and `end` once the
/// window has gone by.
pub open spec fn lerp_spec(elapsed: int, window: int, start: int, end: int) -> int {
    if elapsed >= window {
        end
    } else if start <= end {
        start + (end - start) * elapsed / window
    } else {
        start - (start - end) * elapsed / window
    }
}

/// Interpolates between `start` and `end` over a window of `fade_ms`
/// milliseconds, `elapsed_ms` into it.
pub fn interpolate_value(elapsed_ms: u64, fade_ms: u64, start: i32, end: i32) -> (r: i32)
    requires
        master_in_range(start as int),
        master_in_range(end as int),
    ensures
        r == lerp_spec(elapsed_ms as int, fade_ms as int, start as int, end as int),
        master_in_range(r as int),
{
    if elapsed_ms >= fade_ms {
        return end;
    }
    let e = elapsed_ms as u128;
    let w = fade_ms as u128;
    if start <= end {
        let span = (end - start) as u128;
        proof {
            lemma_product_fits(span as int, e as int);
            lemma_mul_inequality(elapsed_ms as int, fade_ms as int, span as int);
            lemma_div_is_ordered((span * e) as int, (span * w) as int, w as int);
            lemma_div_by_multiple(span as int, w as int);
        }
        let step = span * e / w;
        start + step as i32
    } else {
        let span = (start - end) as u128;
        proof {
            lemma_product_fits(span as int, e as int);
            lemma_mul_inequality(elapsed_ms as int, fade_ms as int, span as int);
            lemma_div_is_ordered((span * e) as int, (span * w) as int, w as int);
            lemma_div_by_multiple(span as int, w as int);
        }
        let step = span * e / w;
        start - step as i32
    }
}

proof fn lemma_product_fits(span: int, e: int)
    requires
        0 <= span <= 400,
        0 <= e <= u64::MAX,
    ensures
        0 <= span * e <= 400 * u64::MAX,
{
    assert(0 <= span * e <= 400 * u64::MAX) by (nonlinear_arith)
        requires
            0 <= span <= 400,
            0 <= e <= u64::MAX,
    ;
}

/// Within a window, the interpolation stays between its two ends and moves
/// monotonically from `start` toward `end`; it equals `start` at the
/// beginning of the window and `end` at its close.
pub proof fn lemma_interpolation_monotonic(e1: int, e2: int, window: int, start: int, end: int)
    requires
        0 <= e1 <= e2 <= window,
        0 < window,
        master_in_range(start),
        master_in_range(end),
    ensures
        lerp_spec(0, window, start, end) == start,
        lerp_spec(window, window, start, end) == end,
        start <= end ==> start <= lerp_spec(e1, window, start, end) <= lerp_spec(e2, window, start, end) <= end,
        end < start ==> start >= lerp_spec(e1, window, start, end) >= lerp_spec(e2, window, start, end) >= end,
{
    let span = if start <= end { end - start } else { start - end };
    lemma_mul_inequality(e1, e2, span);
    lemma_mul_inequality(e2, window, span);
    lemma_div_is_ordered(span * e1, span * e2, window);
    lemma_div_is_ordered(span * e2, span * window, window);
    lemma_div_by_multiple(span, window);
    assert(span * 0 == 0) by (nonlinear_arith);
    assert(0 <= span * e1) by (nonlinear_arith)
        requires 0 <= span, 0 <= e1;
    lemma_div_is_ordered(0, span * e1, window);
}

/// Whether a fade raises the gain at the start of a cue or lowers it at the end.
#[derive(Clone, Copy, Debug, PartialEq, Eq, Structural)]
pub enum FadeDirection {
    In,
    Out,
}

/// One tick of a fade: the master gain to send, if any, and whether the ramp
/// is over.
#[derive(Clone, Copy, Debug, PartialEq, Eq, Structural)]
pub struct FadeStep {
    pub emit: Option<i32>,
    pub finished: bool,
}

/// A ramp of the master gain bound to one playing cue.
#[derive(Clone, Copy, Debug, PartialEq, Eq, Structural)]
pub struct FadeJob {
    pub direction: FadeDirection,
    /// Master gain at full level.
    pub target: i32,
    pub window_ms: u64,
    pub song_ms: u64,
}

/// Where a fade-out begins: `window` before the end of the cue, or at the
/// very start when the window is longer than the cue.
pub open spec fn fade_out_start_spec(song: int, window: int) -> int {
    if window > song {
        0
    } else {
        song - window
    }
}

/// Gain sent by a fade-in `elapsed` into its window.
pub open spec fn fade_in_gain(elapsed: int, window: int, target: int) -> int {
    lerp_spec(elapsed, window, 0, target)
}

/// Gain sent by a fade-out `elapsed` after the cue started: full level
/// `window` before the end, down to silence at the end.
pub open spec fn fade_out_gain(elapsed: int, window: int, song: int, target: int) -> int {
    lerp_spec(if elapsed >= song { 0 } else { song - elapsed }, window, 0, target)
}

impl FadeJob {
    pub open spec fn wf(&self) -> bool {
        master_in_range(self.target as int)
    }

    /// What a tick of this job does `elapsed` after the cue started.
    pub open spec fn step_spec(&self, elapsed: int) -> FadeStep {
        match self.direction {
            FadeDirection::In => FadeStep {
                emit: Some(fade_in_gain(elapsed, self.window_ms as int, self.target as int) as i32),
                finished: elapsed >= self.window_ms,
            },
            FadeDirection::Out => FadeStep {
                emit: if elapsed >= fade_out_start_spec(self.song_ms as int, self.window_ms as int) {
                    Some(
                        fade_out_gain(
                            elapsed,
                            self.window_ms as int,
                            self.song_ms as int,
                            self.target as int,
                        ) as i32,
                    )
                } else {
                    None
                },
                finished: elapsed >= self.song_ms,
            },
        }
    }

    /// A fade-in that raises the master gain from silence to `target`.
    pub fn fade_in(target: i32, window_ms: u64, song_ms: u64) -> (r: FadeJob)
        requires
            master_in_range(target as int),
        ensures
            r.wf(),
            r == (FadeJob { direction: FadeDirection::In, target, window_ms, song_ms }),
    {
        FadeJob { direction: FadeDirection::In, target, window_ms, song_ms }
    }

    /// A fade-out that lowers the master gain from `target` to silence at
    /// the end of the cue.
    pub fn fade_out(target: i32, window_ms: u64, song_ms: u64) -> (r: FadeJob)
        requires
            master_in_range(target as int),
        ensures
            r.wf(),
            r == (FadeJob { direction: FadeDirection::Out, target, window_ms, song_ms }),
    {
        FadeJob { direction: FadeDirection::Out, target, window_ms, song_ms }
    }

    /// Milliseconds after the cue started at which a fade-out begins.
    pub fn out_start(&self) -> (r: u64)
        ensures
            r == fade_out_start_spec(self.song_ms as int, self.window_ms as int),
    {
        if self.window_ms > self.song_ms {
            0
        } else {
            self.song_ms - self.window_ms
        }
    }

    /// Decides one tick, `elapsed_ms` after the cue started.
    pub fn step(&self, elapsed_ms: u64) -> (r: FadeStep)
        requires
            self.wf(),
        ensures
            r == self.step_spec(elapsed_ms as int),
            r.emit matches Some(g) ==> master_in_range(g as int),
    {
        match self.direction {
            FadeDirection::In => {
                let g = interpolate_value(elapsed_ms, self.window_ms, 0, self.target);
                FadeStep { emit: Some(g), finished: elapsed_ms >= self.window_ms }
            },
            FadeDirection::Out => {
                let emit = if elapsed_ms >= self.out_start() {
                    let remaining = if elapsed_ms >= self.song_ms {
                        0
                    } else {
                        self.song_ms - elapsed_ms
                    };
                    Some(interpolate_value(remaining, self.window_ms, 0, self.target))
                } else {
                    None
                };
                FadeStep { emit, finished: elapsed_ms >= self.song_ms }
            },
        }
    }
}

} // verus!
