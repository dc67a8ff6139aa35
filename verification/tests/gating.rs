use bot_lib::gating::{
    is_cooldown_blocked, is_missed, Draw, HitRate, DEFAULT_COOLDOWN, NEVER, UNIT_BITS,
};

fn rate(value: f64) -> HitRate {
    HitRate::from_bits(value.to_bits()).unwrap()
}

fn draw(value: f64) -> Draw {
    Draw::from_bits(value.to_bits()).unwrap()
}

#[test]
fn unit_bits_is_the_pattern_of_one() {
    assert_eq!(UNIT_BITS, 1.0f64.to_bits());
    assert_eq!(UNIT_BITS, 0x3FF0_0000_0000_0000);
    assert_eq!(HitRate::always().bits(), 1.0f64.to_bits());
    assert_eq!(HitRate::never().bits(), 0.0f64.to_bits());
}

#[test]
fn hit_rate_is_a_number_from_zero_to_one() {
    assert!(HitRate::from_bits(0.0f64.to_bits()).is_some());
    assert!(HitRate::from_bits(0.25f64.to_bits()).is_some());
    assert!(HitRate::from_bits(1.0f64.to_bits()).is_some());
    assert!(HitRate::from_bits(1.0000000000000002f64.to_bits()).is_none());
    assert!(HitRate::from_bits(1.5f64.to_bits()).is_none());
    assert!(HitRate::from_bits((-0.5f64).to_bits()).is_none());
    assert!(HitRate::from_bits(f64::NAN.to_bits()).is_none());
    assert!(HitRate::from_bits(f64::INFINITY.to_bits()).is_none());
    assert_eq!(rate(0.25).bits(), 0.25f64.to_bits());
}

#[test]
fn draw_is_a_number_below_one() {
    assert!(Draw::from_bits(0.0f64.to_bits()).is_some());
    assert!(Draw::from_bits(0.9999999999999999f64.to_bits()).is_some());
    assert!(Draw::from_bits(1.0f64.to_bits()).is_none());
    assert!(Draw::from_bits((-0.1f64).to_bits()).is_none());
    assert_eq!(draw(0.75).bits(), 0.75f64.to_bits());
}

#[test]
fn patterns_are_ordered_as_the_numbers_are() {
    let samples = [0.0f64, 1e-300, 0.1, 0.25, 0.3333, 0.5, 0.75, 0.9999999999999999];
    for a in samples {
        for b in samples {
            assert_eq!(is_missed(draw(a), rate(b)), a > b);
        }
        assert!(!is_missed(draw(a), rate(1.0)));
    }
}

#[test]
fn cooldown_blocks_until_more_than_the_cooldown_has_passed() {
    assert!(is_cooldown_blocked(0, 44_999, 45));
    assert!(is_cooldown_blocked(0, 45_000, 45));
    assert!(!is_cooldown_blocked(0, 45_001, 45));
    assert!(is_cooldown_blocked(1_000, 500, 45));
    assert!(!is_cooldown_blocked(1_000, 1_001, 0));
    assert!(is_cooldown_blocked(1_000, 1_000, 0));
    assert!(!is_cooldown_blocked(1_000, 1_000, -1));
}

#[test]
fn a_response_that_was_never_given_is_not_blocked() {
    assert_eq!(NEVER, i64::MIN);
    assert!(!is_cooldown_blocked(NEVER, 0, DEFAULT_COOLDOWN));
    assert!(!is_cooldown_blocked(NEVER, i64::MIN + 45_001, 45));
    assert!(is_cooldown_blocked(NEVER, i64::MIN + 45_000, 45));
    assert!(!is_cooldown_blocked(NEVER, i64::MAX, 3_600));
    assert!(is_cooldown_blocked(i64::MAX, i64::MIN, 0));
}

#[test]
fn the_greatest_cooldown_blocks_without_overflow() {
    assert!(is_cooldown_blocked(NEVER, i64::MAX, i64::MAX));
    assert!(!is_cooldown_blocked(NEVER, i64::MAX, i64::MIN));
    assert_eq!(DEFAULT_COOLDOWN, 45);
}
