//! Fade and reveal ramps.
//!
//! Every animated layer carries an alpha value in thousandths (opaque at
//! `ALPHA_ONE`) and a body label additionally carries a reveal ratio in
//! millionths (fully shown at `REVEAL_ONE`).  A ramp advances by
//! `delta_ms * rate`, clamped at its bound; when the frame carries a pointer
//! activation the caller passes `instant = true` and the instant rate is
//! substituted, large enough to finish any ramp within one ordinary frame.

use vstd::prelude::*;

verus! {

/// Alpha value of a fully opaque layer, in thousandths.
pub const ALPHA_ONE: u32 = 1000;

/// Base fade rate: thousandths of alpha per millisecond (2.0 alpha per second).
pub const FADE_RATE: u32 = 2;

/// Fade rate substituted when the frame carries an activation.
pub const INSTANT_FADE_RATE: u32 = 10000;

/// Reveal ratio of a fully shown text, in millionths.
pub const REVEAL_ONE: u32 = 1000000;

/// Base reveal rate: millionths of ratio, times glyph count, per millisecond
/// (10 glyphs per second).
pub const REVEAL_RATE: u32 = 10000;

/// Reveal rate substituted when the frame carries an activation.
pub const INSTANT_REVEAL_RATE: u32 = 10000000;

/// Rate a fade ramp runs at this frame.
pub open spec fn fade_rate_for(rate: u32, instant: bool) -> u32 {
    if instant {
        INSTANT_FADE_RATE
    } else {
        rate
    }
}

/// Rate a reveal ramp runs at this frame.
pub open spec fn reveal_rate_for(rate: u32, instant: bool) -> u32 {
    if instant {
        INSTANT_REVEAL_RATE
    } else {
        rate
    }
}

/// A value grown by `inc` and clamped at `bound`.
pub open spec fn grown_to(current: int, inc: int, bound: int) -> int {
    if current + inc >= bound {
        bound
    } else {
        current + inc
    }
}

/// A value shrunk by `dec` and clamped at zero.
pub open spec fn shrunk_to_zero(current: int, dec: int) -> int {
    if current - dec <= 0 {
        0
    } else {
        current - dec
    }
}

/// Alpha after one fade-in step: `min(ALPHA_ONE, current + delta_ms * rate)`.
pub open spec fn alpha_faded_in(current: u32, delta_ms: u32, rate: u32) -> int {
    grown_to(current as int, delta_ms * rate, ALPHA_ONE as int)
}

/// Alpha after one fade-out step: `max(0, current - delta_ms * rate)`.
pub open spec fn alpha_faded_out(current: u32, delta_ms: u32, rate: u32) -> int {
    shrunk_to_zero(current as int, delta_ms * rate)
}

/// Reveal ratio after one step: the rate is divided by the glyph count so a
/// fixed glyphs-per-second pace is independent of the text's length.
pub open spec fn reveal_advanced(current: u32, delta_ms: u32, rate: u32, glyphs: u32) -> int
    recommends
        glyphs > 0,
{
    grown_to(current as int, (delta_ms * rate) / (glyphs as int), REVEAL_ONE as int)
}

/// One fade-in step of a layer's alpha.
pub fn advance_alpha_in(current: u32, delta_ms: u32, rate: u32, instant: bool) -> (next: u32)
    requires
        current <= ALPHA_ONE,
    ensures
        next == alpha_faded_in(current, delta_ms, fade_rate_for(rate, instant)),
{
    let step_rate: u32 = if instant {
        INSTANT_FADE_RATE
    } else {
        rate
    };
    proof {
        vstd::arithmetic::mul::lemma_mul_upper_bound(
            delta_ms as int,
            u32::MAX as int,
            step_rate as int,
            u32::MAX as int,
        );
    }
    let grown: u64 = current as u64 + delta_ms as u64 * step_rate as u64;
    if grown >= ALPHA_ONE as u64 {
        ALPHA_ONE
    } else {
        grown as u32
    }
}

/// One fade-out step of a layer's alpha.
pub fn advance_alpha_out(current: u32, delta_ms: u32, rate: u32, instant: bool) -> (next: u32)
    requires
        current <= ALPHA_ONE,
    ensures
        next == alpha_faded_out(current, delta_ms, fade_rate_for(rate, instant)),
{
    let step_rate: u32 = if instant {
        INSTANT_FADE_RATE
    } else {
        rate
    };
    proof {
        vstd::arithmetic::mul::lemma_mul_upper_bound(
            delta_ms as int,
            u32::MAX as int,
            step_rate as int,
            u32::MAX as int,
        );
    }
    let shrink: u64 = delta_ms as u64 * step_rate as u64;
    if shrink >= current as u64 {
        0
    } else {
        current - shrink as u32
    }
}

/// One reveal step of a text's ratio.
pub fn advance_reveal(current: u32, delta_ms: u32, rate: u32, instant: bool, glyphs: u32) -> (next:
    u32)
    requires
        current <= REVEAL_ONE,
        glyphs > 0,
    ensures
        next == reveal_advanced(current, delta_ms, reveal_rate_for(rate, instant), glyphs),
{
    let step_rate: u32 = if instant {
        INSTANT_REVEAL_RATE
    } else {
        rate
    };
    proof {
        vstd::arithmetic::mul::lemma_mul_upper_bound(
            delta_ms as int,
            u32::MAX as int,
            step_rate as int,
            u32::MAX as int,
        );
    }
    let grown: u64 = current as u64 + (delta_ms as u64 * step_rate as u64) / glyphs as u64;
    if grown >= REVEAL_ONE as u64 {
        REVEAL_ONE
    } else {
        grown as u32
    }
}

/// Law: a fade-in step stays inside `[0, ALPHA_ONE]` and never moves the
/// alpha away from its target.
pub proof fn lemma_alpha_in_step(current: u32, delta_ms: u32, rate: u32)
    requires
        current <= ALPHA_ONE,
    ensures
        0 <= alpha_faded_in(current, delta_ms, rate) <= ALPHA_ONE,
        alpha_faded_in(current, delta_ms, rate) >= current,
{
    vstd::arithmetic::mul::lemma_mul_nonnegative(delta_ms as int, rate as int);
}

/// Law: a fade-out step stays inside `[0, ALPHA_ONE]` and never moves the
/// alpha away from its target.
pub proof fn lemma_alpha_out_step(current: u32, delta_ms: u32, rate: u32)
    requires
        current <= ALPHA_ONE,
    ensures
        0 <= alpha_faded_out(current, delta_ms, rate) <= ALPHA_ONE,
        alpha_faded_out(current, delta_ms, rate) <= current,
{
    vstd::arithmetic::mul::lemma_mul_nonnegative(delta_ms as int, rate as int);
}

/// Law: a reveal step stays inside `[0, REVEAL_ONE]` and never moves the
/// ratio backwards.
pub proof fn lemma_reveal_step(current: u32, delta_ms: u32, rate: u32, glyphs: u32)
    requires
        current <= REVEAL_ONE,
        glyphs > 0,
    ensures
        0 <= reveal_advanced(current, delta_ms, rate, glyphs) <= REVEAL_ONE,
        reveal_advanced(current, delta_ms, rate, glyphs) >= current,
{
    vstd::arithmetic::mul::lemma_mul_nonnegative(delta_ms as int, rate as int);
    vstd::arithmetic::div_mod::lemma_div_pos_is_pos(delta_ms * rate, glyphs as int);
}

/// The value of a growing ramp after `frames` equal steps.
pub open spec fn grown_after_frames(start: int, inc: int, bound: int, frames: nat) -> int
    decreases frames,
{
    if frames == 0 {
        start
    } else {
        grown_to(grown_after_frames(start, inc, bound, (frames - 1) as nat), inc, bound)
    }
}

/// A growing ramp after `frames` equal steps equals a single step of
/// `frames` times the increment.
pub proof fn lemma_grown_after_frames(start: int, inc: int, bound: int, frames: nat)
    requires
        0 <= start <= bound,
        0 <= inc,
    ensures
        grown_after_frames(start, inc, bound, frames) == grown_to(start, frames * inc, bound),
    decreases frames,
{
    if frames == 0 {
        assert(frames * inc == 0);
    } else {
        lemma_grown_after_frames(start, inc, bound, (frames - 1) as nat);
        assert(frames * inc == (frames - 1) * inc + inc) by (nonlinear_arith);
        vstd::arithmetic::mul::lemma_mul_nonnegative((frames - 1) as int, inc);
    }
}

/// Law: any ramp with a positive per-frame increment reaches its bound in
/// finitely many frames; `frames * inc >= bound - start` frames are enough.
pub proof fn lemma_ramp_completes(start: int, inc: int, bound: int, frames: nat)
    requires
        0 <= start <= bound,
        0 <= inc,
        frames * inc >= bound - start,
    ensures
        grown_after_frames(start, inc, bound, frames) == bound,
{
    lemma_grown_after_frames(start, inc, bound, frames);
}

/// The value of a shrinking ramp after `frames` equal steps.
pub open spec fn shrunk_after_frames(start: int, dec: int, frames: nat) -> int
    decreases frames,
{
    if frames == 0 {
        start
    } else {
        shrunk_to_zero(shrunk_after_frames(start, dec, (frames - 1) as nat), dec)
    }
}

/// A shrinking ramp after `frames` equal steps equals a single step of
/// `frames` times the decrement.
pub proof fn lemma_shrunk_after_frames(start: int, dec: int, frames: nat)
    requires
        0 <= start,
        0 <= dec,
    ensures
        shrunk_after_frames(start, dec, frames) == shrunk_to_zero(start, frames * dec),
    decreases frames,
{
    if frames == 0 {
        assert(frames * dec == 0);
    } else {
        lemma_shrunk_after_frames(start, dec, (frames - 1) as nat);
        assert(frames * dec == (frames - 1) * dec + dec) by (nonlinear_arith);
        vstd::arithmetic::mul::lemma_mul_nonnegative((frames - 1) as int, dec);
    }
}

/// Law: any fade-out with a positive per-frame decrement reaches zero in
/// finitely many frames; `frames * dec >= start` frames are enough.
pub proof fn lemma_fade_out_completes(start: int, dec: int, frames: nat)
    requires
        0 <= start,
        0 <= dec,
        frames * dec >= start,
    ensures
        shrunk_after_frames(start, dec, frames) == 0,
{
    lemma_shrunk_after_frames(start, dec, frames);
}

/// Law: a body of `glyphs` visible characters is fully revealed once one
/// frame accumulates `glyphs * REVEAL_ONE / REVEAL_RATE` milliseconds, which
/// is the glyph count divided by the glyphs-per-second pace.
pub proof fn lemma_reveal_completes(current: u32, delta_ms: u32, glyphs: u32)
    requires
        glyphs > 0,
        current <= REVEAL_ONE,
        delta_ms * REVEAL_RATE >= glyphs * REVEAL_ONE,
    ensures
        reveal_advanced(current, delta_ms, REVEAL_RATE, glyphs) == REVEAL_ONE,
{
    vstd::arithmetic::div_mod::lemma_div_is_ordered(
        (glyphs * REVEAL_ONE) as int,
        (delta_ms * REVEAL_RATE) as int,
        glyphs as int,
    );
    vstd::arithmetic::div_mod::lemma_div_by_multiple(REVEAL_ONE as int, glyphs as int);
    assert(glyphs * REVEAL_ONE == REVEAL_ONE * glyphs) by (nonlinear_arith);
}

} // verus!
