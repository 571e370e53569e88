//! Behavior of the unit-tagged quantity types and the named constants.

use ballistics::{
    air_density_sea_level, speed_of_sound_sea_level, standard_gravity, standard_pressure,
    standard_temperature, BulletMass, Distance, GyroscopicStability, Scalar, Temperature, Velocity,
    AIR_DENSITY_SEA_LEVEL_BITS, AIR_DENSITY_SEA_LEVEL_NANOS, SPEED_OF_SOUND_SEA_LEVEL_BITS,
    SPEED_OF_SOUND_SEA_LEVEL_NANOS, STANDARD_GRAVITY_BITS, STANDARD_GRAVITY_NANOS,
    STANDARD_PRESSURE_BITS, STANDARD_PRESSURE_NANOS, STANDARD_TEMPERATURE_BITS,
    STANDARD_TEMPERATURE_NANOS,
};

#[test]
fn round_trip_preserves_every_scalar() {
    let scalars = [
        Scalar::Finite { negative: false, nanos: 0 },
        Scalar::Finite { negative: true, nanos: 0 },
        Scalar::Finite { negative: false, nanos: 2_800_000_000_000 },
        Scalar::Finite { negative: true, nanos: 12_500_000_000 },
        Scalar::Infinite { negative: false },
        Scalar::Infinite { negative: true },
        Scalar::NotANumber,
    ];
    for s in scalars {
        assert_eq!(Velocity::from_scalar(s).scalar(), s);
    }
}

#[test]
fn finite_constructor_builds_the_signed_magnitude() {
    let q = Distance::finite(true, 300_000_000_000);
    assert_eq!(q.scalar(), Scalar::Finite { negative: true, nanos: 300_000_000_000 });
}

#[test]
fn negative_values_are_accepted_without_validation() {
    let m = BulletMass::finite(true, 150_000_000_000);
    assert_eq!(m.scalar(), Scalar::Finite { negative: true, nanos: 150_000_000_000 });
}

#[test]
fn equality_compares_the_underlying_value_only() {
    let a = Distance::finite(false, 300_000_000_000);
    let b = Distance::finite(false, 300_000_000_000);
    let c = Distance::finite(false, 301_000_000_000);
    assert_eq!(a, b);
    assert_ne!(a, c);
}

#[test]
fn construction_is_pure() {
    // Two calls with identical inputs yield identical quantities.
    let s = Scalar::Finite { negative: false, nanos: 2_100_000_000 };
    let first = GyroscopicStability::from_scalar(s);
    let second = GyroscopicStability::from_scalar(s);
    assert_eq!(first, second);
}

#[test]
fn constant_nanos_match_their_documented_values() {
    assert_eq!(STANDARD_GRAVITY_NANOS, 32_174_000_000);
    assert_eq!(SPEED_OF_SOUND_SEA_LEVEL_NANOS, 1_116_280_000_000);
    assert_eq!(AIR_DENSITY_SEA_LEVEL_NANOS, 76_500_000);
    assert_eq!(STANDARD_PRESSURE_NANOS, 29_920_000_000);
    assert_eq!(STANDARD_TEMPERATURE_NANOS, 59_000_000_000);
}

#[test]
fn constant_bit_patterns_match_their_documented_values() {
    assert_eq!(STANDARD_GRAVITY_BITS, 32.174f64.to_bits());
    assert_eq!(SPEED_OF_SOUND_SEA_LEVEL_BITS, 1116.28f64.to_bits());
    assert_eq!(AIR_DENSITY_SEA_LEVEL_BITS, 0.0765f64.to_bits());
    assert_eq!(STANDARD_PRESSURE_BITS, 29.92f64.to_bits());
    assert_eq!(STANDARD_TEMPERATURE_BITS, 59.0f64.to_bits());
}

#[test]
fn constant_accessors_return_the_documented_quantities() {
    assert_eq!(
        standard_gravity().scalar(),
        Scalar::Finite { negative: false, nanos: STANDARD_GRAVITY_NANOS },
    );
    assert_eq!(
        speed_of_sound_sea_level().scalar(),
        Scalar::Finite { negative: false, nanos: SPEED_OF_SOUND_SEA_LEVEL_NANOS },
    );
    assert_eq!(
        air_density_sea_level().scalar(),
        Scalar::Finite { negative: false, nanos: AIR_DENSITY_SEA_LEVEL_NANOS },
    );
    assert_eq!(
        standard_pressure().scalar(),
        Scalar::Finite { negative: false, nanos: STANDARD_PRESSURE_NANOS },
    );
    assert_eq!(
        standard_temperature().scalar(),
        Scalar::Finite { negative: false, nanos: STANDARD_TEMPERATURE_NANOS },
    );
}
