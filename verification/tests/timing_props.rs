use avg_playback::timing::{
    advance_alpha_in, advance_alpha_out, advance_reveal, ALPHA_ONE, REVEAL_ONE,
};

const FADE: u32 = 2;
const REVEAL: u32 = 10000;

#[test]
fn alpha_fade_in_partial_step() {
    // 100 ms at the base rate of 2.0 alpha per second moves 0 to 0.2.
    assert_eq!(advance_alpha_in(0, 100, FADE, false), 200);
}

#[test]
fn alpha_fade_in_clamps_at_one() {
    assert_eq!(advance_alpha_in(900, 100, FADE, false), ALPHA_ONE);
    assert_eq!(advance_alpha_in(ALPHA_ONE, 1000, FADE, false), ALPHA_ONE);
}

#[test]
fn alpha_fade_in_monotonic_samples() {
    let mut a = 0u32;
    let mut previous = 0u32;
    for _ in 0..20 {
        a = advance_alpha_in(a, 37, FADE, false);
        assert!(a >= previous);
        assert!(a <= ALPHA_ONE);
        previous = a;
    }
}

#[test]
fn alpha_fade_in_reaches_bound_in_finite_frames() {
    // Any positive per-frame step finishes: 1 ms frames at the base rate.
    let mut a = 0u32;
    let mut frames = 0u32;
    while a < ALPHA_ONE {
        a = advance_alpha_in(a, 1, FADE, false);
        frames += 1;
        assert!(frames <= 500);
    }
    assert_eq!(a, ALPHA_ONE);
    assert_eq!(frames, 500);
}

#[test]
fn alpha_fade_in_instant_rate_finishes_in_one_frame() {
    assert_eq!(advance_alpha_in(0, 1, FADE, true), ALPHA_ONE);
}

#[test]
fn alpha_fade_out_partial_and_clamped() {
    assert_eq!(advance_alpha_out(ALPHA_ONE, 100, FADE, false), 800);
    assert_eq!(advance_alpha_out(100, 100, FADE, false), 0);
    assert_eq!(advance_alpha_out(0, 1000, FADE, false), 0);
}

#[test]
fn alpha_fade_out_monotonic_samples() {
    let mut a = ALPHA_ONE;
    let mut previous = ALPHA_ONE;
    for _ in 0..20 {
        a = advance_alpha_out(a, 41, FADE, false);
        assert!(a <= previous);
        previous = a;
    }
}

#[test]
fn reveal_full_after_glyphs_over_rate_seconds() {
    // 5 glyphs at 10 glyphs per second: fully revealed after 0.5 s.
    assert_eq!(advance_reveal(0, 500, REVEAL, false, 5), REVEAL_ONE);
    // One millisecond short of that stays just under the bound.
    assert!(advance_reveal(0, 499, REVEAL, false, 5) < REVEAL_ONE);
}

#[test]
fn reveal_accumulates_over_frames() {
    // Five frames of 100 ms each reveal a 5-glyph body completely.
    let mut r = 0u32;
    for _ in 0..5 {
        r = advance_reveal(r, 100, REVEAL, false, 5);
    }
    assert_eq!(r, REVEAL_ONE);
}

#[test]
fn reveal_rate_is_independent_of_length() {
    // Twice the glyphs, half the per-frame progress.
    let short = advance_reveal(0, 100, REVEAL, false, 5);
    let long = advance_reveal(0, 100, REVEAL, false, 10);
    assert_eq!(short, 2 * long);
}

#[test]
fn reveal_instant_rate_finishes_in_one_frame() {
    assert_eq!(advance_reveal(0, 1, REVEAL, true, 9), REVEAL_ONE);
}
