//! Screen-space interpolation used by the renderer collaborator. The field
//! geometry is floating-point and lives outside the library; these checks
//! pin the interpolation formulas the renderer relies on.

/// Linear interpolation from `a` towards `b`.
fn lerp(a: f64, b: f64, t: f64) -> f64 {
    a + (b - a) * t
}

/// Where `v` sits between `a` and `b`, as a fraction.
fn inv_lerp(a: f64, b: f64, v: f64) -> f64 {
    (v - a) / (b - a)
}

fn screen_pos_to_lerp_time() -> f64 {
    inv_lerp(-64., 720., 64.)
}

fn lerp_time_to_screen_pos() -> f64 {
    lerp(-64., 720., screen_pos_to_lerp_time()).round()
}

fn ms_time_from_screen_height_time_on_screen_and_position() -> f64 {
    let start_position = 720.;
    let end_position = -64.;
    let time_on_screen = 3000.;
    let judge_position = 64.;

    let normalized_note_progress = inv_lerp(end_position, start_position, judge_position);
    let ms: f64 = normalized_note_progress * time_on_screen;
    ms.round()
}

#[test]
fn test_screen_space_to_judgement_zero() {
    assert!(screen_pos_to_lerp_time() - 0.163_265_306_122_448_97 <= f64::EPSILON);
}

#[test]
fn test_screen_lerp_time_to_screen_space() {
    assert!((lerp_time_to_screen_pos() - 64.).abs() < f64::EPSILON);
}

#[test]
fn test_ms_time_from_screen_height_time_on_screen_and_position() {
    assert!(
        (ms_time_from_screen_height_time_on_screen_and_position() - 490.0).abs() < f64::EPSILON
    );
}
