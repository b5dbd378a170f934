//! Integer helpers and the size-tier table.

use asteroids::asteroid::AsteroidSize;
use asteroids::math::{isqrt, mul_div_trunc};

/// Floor square roots around the perfect squares and at the extremes.
#[test]
fn isqrt_values() {
    assert_eq!(isqrt(0), 0);
    assert_eq!(isqrt(1), 1);
    assert_eq!(isqrt(15), 3);
    assert_eq!(isqrt(16), 4);
    assert_eq!(isqrt(24_999_999), 4_999);
    assert_eq!(isqrt(25_000_000), 5_000);
    assert_eq!(isqrt(u64::MAX), 4_294_967_295);
}

/// The truncating scale rounds toward zero on both signs.
#[test]
fn mul_div_trunc_rounds_toward_zero() {
    assert_eq!(mul_div_trunc(7, 99, 100), 6);
    assert_eq!(mul_div_trunc(-7, 99, 100), -6);
    assert_eq!(mul_div_trunc(100, 99, 100), 99);
    assert_eq!(mul_div_trunc(-100, 99, 100), -99);
    assert_eq!(mul_div_trunc(0, 99, 100), 0);
}

/// The tier table: radii in fixed-point thousandths (55, 35, 15, 7.5
/// world units), ordinals, and the one-smaller step.
#[test]
fn tier_table() {
    assert_eq!(AsteroidSize::Large.scale(), 55_000);
    assert_eq!(AsteroidSize::Medium.scale(), 35_000);
    assert_eq!(AsteroidSize::Small.scale(), 15_000);
    assert_eq!(AsteroidSize::Tiny.scale(), 7_500);

    assert_eq!(AsteroidSize::Large.tier(), 3);
    assert_eq!(AsteroidSize::Tiny.tier(), 0);
    assert_eq!(AsteroidSize::from_tier(2), AsteroidSize::Medium);
    assert_eq!(AsteroidSize::from_tier(9), AsteroidSize::Large);

    assert_eq!(AsteroidSize::Large.smaller(), Some(AsteroidSize::Medium));
    assert_eq!(AsteroidSize::Medium.smaller(), Some(AsteroidSize::Small));
    assert_eq!(AsteroidSize::Small.smaller(), Some(AsteroidSize::Tiny));
    assert_eq!(AsteroidSize::Tiny.smaller(), None);
}
