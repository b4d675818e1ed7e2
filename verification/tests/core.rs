use polyrhythmic_spiral::engine::ArcFrame;
use polyrhythmic_spiral::engine::Engine;
use polyrhythmic_spiral::engine::EngineConfig;
use polyrhythmic_spiral::gradient::gen_color_gradient;
use polyrhythmic_spiral::gradient::GradientError;
use polyrhythmic_spiral::gradient::Rgb;
use polyrhythmic_spiral::gradient::Rgba;
use polyrhythmic_spiral::impact::ImpactScheduler;
use polyrhythmic_spiral::phase::phase;
use polyrhythmic_spiral::tones::exact_frequency_milli_hz;
use polyrhythmic_spiral::tones::gen_tone_bank;
use polyrhythmic_spiral::velocity::arc_velocity;
use polyrhythmic_spiral::velocity::base_velocity;

// Micro-radians per half turn: pi scaled by a million, truncated.
const HALF_TURN: u64 = 3_141_592;

#[test]
fn base_velocity_of_reference_window() {
    // 75 loops over a 900-second window: 2 * pi * 75 / 900 = 0.5236 rad/s.
    let v = base_velocity(HALF_TURN, 75, 900);
    assert_eq!(v, 523_598);
    let rad_per_s = v as f64 / 1_000_000.0;
    assert!((rad_per_s - 0.5236).abs() < 1e-3);
}

#[test]
fn phase_starts_at_baseline() {
    // At t = 0 the raw phase is the half-turn offset itself: the arc sits on
    // the baseline, at angle pi, so the rendered point is at
    // (center - radius, center).
    let v = base_velocity(HALF_TURN, 75, 900);
    let p = phase(0, v, HALF_TURN);
    assert_eq!(p, HALF_TURN);
    let angle = p as f64 / 1_000_000.0;
    assert!((angle.cos() - (-1.0)).abs() < 1e-3);
    assert!(angle.sin().abs() < 1e-3);
}

#[test]
fn velocities_strictly_decrease_with_index() {
    let base: u64 = 523_598;
    let detune: u64 = 3_000;
    let mut prev = arc_velocity(base, detune, 0);
    assert_eq!(prev, base);
    for i in 1..32u64 {
        let v = arc_velocity(base, detune, i);
        assert!(v < prev);
        assert!(v > 0);
        prev = v;
    }
}

#[test]
fn phase_stays_in_upper_half_of_revolution() {
    for t in [0u64, 1, 7, 900, 12_345, 1_000_000, 987_654_321] {
        for v in [1u64, 3, 523_598, 1_000_000] {
            let p = phase(t, v, HALF_TURN);
            assert!(HALF_TURN <= p && p <= 2 * HALF_TURN);
        }
    }
}

#[test]
fn phase_mirror_consistency() {
    // With half turn 1000 and unit velocity, elapsed times 300 and 1700 wrap
    // to the mirror angles 1300 and 700, and both reflect to the same phase.
    let h: u64 = 1000;
    assert_eq!(phase(300, 1, h), 1300);
    assert_eq!(phase(1700, 1, h), 1300);
    // A full revolution reflects to the top of the range, not to zero.
    assert_eq!(phase(1000, 1, h), 2000);
}

#[test]
fn phase_is_idempotent_on_identical_inputs() {
    let first = phase(987_654, 523_598, HALF_TURN);
    let second = phase(987_654, 523_598, HALF_TURN);
    assert_eq!(first, second);
}

const WHITE: Rgb = Rgb { red: 255, green: 255, blue: 255 };
// 0.384, 0.529, 0.875 scaled into the 0-255 range with truncation.
const BLUE: Rgb = Rgb { red: 97, green: 134, blue: 223 };
const PINK: Rgb = Rgb { red: 217, green: 161, blue: 212 };
const CREAM: Rgb = Rgb { red: 255, green: 235, blue: 201 };

fn opaque(c: Rgb) -> Rgba {
    Rgba { red: c.red, green: c.green, blue: c.blue, alpha: 255 }
}

#[test]
fn gradient_two_stops_endpoints_and_midpoint() {
    // stops = [white, blue], 8 arcs: one segment of length 8, 9 samples,
    // running from exactly white to exactly blue through a gray-blue middle.
    let stops = vec![WHITE, BLUE];
    let colors = gen_color_gradient(8, &stops).unwrap();
    assert_eq!(colors.len(), 9);
    assert_eq!(colors[0], opaque(WHITE));
    assert_eq!(colors[8], opaque(BLUE));
    assert_eq!(colors[4], Rgba { red: 176, green: 194, blue: 239, alpha: 255 });
}

#[test]
fn gradient_five_stops_hits_every_waypoint() {
    // 5 waypoints and 32 arcs: 4 segments of ceil(32 / 4) = 8, 9 samples
    // each. Every waypoint appears exactly at its segment boundaries; the
    // interior ones are emitted by both adjacent segments.
    let stops = vec![WHITE, BLUE, PINK, CREAM, WHITE];
    let colors = gen_color_gradient(32, &stops).unwrap();
    assert_eq!(colors.len(), 36);
    assert_eq!(colors[0], opaque(WHITE));
    assert_eq!(colors[8], opaque(BLUE));
    assert_eq!(colors[9], opaque(BLUE));
    assert_eq!(colors[17], opaque(PINK));
    assert_eq!(colors[18], opaque(PINK));
    assert_eq!(colors[26], opaque(CREAM));
    assert_eq!(colors[27], opaque(CREAM));
    assert_eq!(colors[35], opaque(WHITE));
}

#[test]
fn gradient_rejects_too_few_stops() {
    assert_eq!(gen_color_gradient(8, &vec![]), Err(GradientError::TooFewStops));
    assert_eq!(gen_color_gradient(8, &vec![WHITE]), Err(GradientError::TooFewStops));
}

#[test]
fn gradient_is_idempotent_on_identical_inputs() {
    let stops = vec![WHITE, BLUE, PINK];
    let first = gen_color_gradient(16, &stops).unwrap();
    let second = gen_color_gradient(16, &stops).unwrap();
    assert_eq!(first, second);
}

#[test]
fn tone_bank_doubles_after_one_octave() {
    // Base frequency 220 Hz and 13 arcs: tone 12 is one whole octave up,
    // at exactly 440 Hz.
    let bank = gen_tone_bank(13, 220_000, 150, 50, 500);
    assert_eq!(bank.len(), 24);
    assert_eq!(bank[12].semitone, 12);
    assert_eq!(exact_frequency_milli_hz(&bank[12]), Some(440_000));
    assert_eq!(exact_frequency_milli_hz(&bank[0]), Some(220_000));
    let hz = 220.0_f32 * 2.0_f32.powf(12.0 / 12.0);
    assert!((hz - 440.0).abs() < 1e-3);
}

#[test]
fn tone_bank_ascends_one_semitone_per_arc() {
    let bank = gen_tone_bank(32, 220_000, 150, 50, 500);
    assert_eq!(bank.len(), 36);
    let ratio = 2.0_f64.powf(1.0 / 12.0);
    for k in 0..bank.len() {
        assert_eq!(bank[k].semitone, k);
        assert_eq!(bank[k].duration_ms, 150);
        assert_eq!(bank[k].fade_in_ms, 50);
        assert_eq!(bank[k].amplitude_milli, 500);
        if k > 0 {
            assert_eq!(bank[k].semitone, bank[k - 1].semitone + 1);
            let f_prev = 220.0_f64 * ratio.powi((k - 1) as i32);
            let f_cur = 220.0_f64 * ratio.powi(k as i32);
            assert!((f_cur / f_prev - ratio).abs() < 1e-9);
        }
    }
}

#[test]
fn single_arc_impacts_at_half_period() {
    // One arc at 1 rad/s, angle in micro-radians, time in milliseconds, so
    // the velocity is 1000 micro-radians per millisecond. The first impact
    // after the start falls at t = pi (3141.592... ms, so at the 3142 ms
    // tick), the second at t = 2 * pi (the 6284 ms tick): the increment is
    // exactly pi / velocity.
    let config =
        EngineConfig { arcs: 1, half_turn: HALF_TURN, base_velocity: 1000, detune: 1 };
    let mut engine = Engine::new(config);

    // Impact thresholds start at zero: the arc fires on the very first frame.
    let first = engine.frame(0);
    assert_eq!(first.len(), 1);
    assert!(first[0].fire);
    assert_eq!(first[0].phase, HALF_TURN);

    assert!(!engine.frame(3141)[0].fire);
    assert!(engine.frame(3142)[0].fire);
    assert!((3142.0_f64 / 1000.0 - std::f64::consts::PI).abs() < 1e-3);

    assert!(!engine.frame(6283)[0].fire);
    assert!(engine.frame(6284)[0].fire);
    assert!((6284.0_f64 / 1000.0 - 2.0 * std::f64::consts::PI).abs() < 1e-3);
}

#[test]
fn scheduler_advances_by_fixed_increment() {
    let mut scheduler = ImpactScheduler::new(2);
    assert_eq!(scheduler.len(), 2);
    assert_eq!(scheduler.next_sweep_of(0), 0);

    // Each trigger advances the threshold by exactly one half turn; a check
    // below the threshold leaves it untouched.
    assert!(scheduler.check(0, 0, HALF_TURN));
    assert_eq!(scheduler.next_sweep_of(0), HALF_TURN as u128);
    assert!(!scheduler.check(0, (HALF_TURN - 1) as u128, HALF_TURN));
    assert_eq!(scheduler.next_sweep_of(0), HALF_TURN as u128);
    assert!(scheduler.check(0, HALF_TURN as u128, HALF_TURN));
    assert_eq!(scheduler.next_sweep_of(0), 2 * HALF_TURN as u128);

    // The other arc's threshold is independent and untouched.
    assert_eq!(scheduler.next_sweep_of(1), 0);
}

#[test]
fn full_configuration_first_frame() {
    // The full 32-arc configuration: every arc fires on the first frame and
    // starts at the baseline; afterwards the faster (lower-index) arcs fire
    // again no later than the slower ones.
    let config = EngineConfig {
        arcs: 32,
        half_turn: HALF_TURN,
        base_velocity: 523_598,
        detune: 3_000,
    };
    let mut engine = Engine::new(config);
    let first: Vec<ArcFrame> = engine.frame(0);
    assert_eq!(first.len(), 32);
    for arc in &first {
        assert!(arc.fire);
        assert_eq!(arc.phase, HALF_TURN);
    }
    for i in 0..32 {
        assert_eq!(engine.next_sweep_of(i), HALF_TURN as u128);
    }
    // At t = 7000 time units, arc 0 has swept farther than arc 31.
    let later = engine.frame(7000);
    let v0 = engine.velocity(0);
    let v31 = engine.velocity(31);
    assert!(v0 > v31);
    assert_eq!(v0, 523_598);
    assert_eq!(v31, 523_598 - 31 * 3_000);
    assert!(later[0].fire);
}

#[test]
fn engine_reports_its_configuration() {
    let config =
        EngineConfig { arcs: 3, half_turn: HALF_TURN, base_velocity: 9_000, detune: 5 };
    let engine = Engine::new(config);
    assert_eq!(engine.config(), config);
}
