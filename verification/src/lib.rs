//! Closed-form exterior-ballistics formulas over strongly typed quantities.
//!
//! This crate derives secondary ballistic quantities (kinetic energy,
//! gyroscopic stability, ballistic coefficient, wind deflection, aerodynamic
//! jump, and so on) from measured or assumed physical quantities. Each
//! quantity is a distinct unit-tagged scalar type, so that a function
//! requiring one kind of quantity can never accept another, and each formula
//! is a pure function whose contract equates its result with a specification
//! function of its inputs alone.
//!
//! A quantity carries an exact fixed-point [`Scalar`] — a signed count of
//! nanos (billionths) — extended with the special values of the formulas'
//! error channel: a signed zero, a signed infinity and a not-a-number. No
//! input is validated; a degenerate input (a zero divisor, a negative
//! operand under a square root) flows through that channel exactly as the
//! scalar arithmetic specifies, and proved lemmas pin the outcomes down. A
//! companion surface for IEEE-754 doubles can carry any computed value here
//! by converting it to a scalar, and the bit-pattern classification
//! functions give it a proved detector for the same channel on raw double
//! bit patterns.

mod classify;
mod constants;
mod equations;
mod scalar;

pub use classify::{
    classify_bits, is_finite_bits, is_infinite_bits, is_nan_bits, is_sign_negative_bits,
    lemma_class_partition, spec_is_finite, spec_is_infinite, spec_is_nan, spec_is_sign_negative,
    ValueClass, EXPONENT_MASK, FRACTION_MASK, SIGN_MASK,
};
pub use constants::{
    air_density_sea_level, speed_of_sound_sea_level, standard_gravity, standard_pressure,
    standard_temperature, AerodynamicJump, AirDensity, ApertureSightCalibration,
    BallisticCoefficient, BulletDiameter, BulletLength, BulletMass, Distance, DragCoefficient,
    FormFactor, Gravity, GyroscopicStability, KineticEnergy, LagTime, Pressure, RiflingTwist,
    SightCalibration, SpeedOfSound, Temperature, TimeOfFlight, Velocity, VelocityProjection,
    WindDeflection, WindSpeed, AIR_DENSITY_SEA_LEVEL_BITS, AIR_DENSITY_SEA_LEVEL_NANOS,
    SPEED_OF_SOUND_SEA_LEVEL_BITS, SPEED_OF_SOUND_SEA_LEVEL_NANOS, STANDARD_GRAVITY_BITS,
    STANDARD_GRAVITY_NANOS, STANDARD_PRESSURE_BITS, STANDARD_PRESSURE_NANOS,
    STANDARD_TEMPERATURE_BITS, STANDARD_TEMPERATURE_NANOS,
};
pub use equations::{
    lemma_aperture_sight_calibration_zero_radius, lemma_atmospheric_correction_standard_no_op,
    lemma_ballistic_coefficient_sectional, lemma_form_factor_identity,
    lemma_lag_time_zero_muzzle, lemma_velocity_correction_is_identity,
    lemma_velocity_projection_negative_ratio, spec_aerodynamic_jump,
    spec_aperture_sight_calibration, spec_atmospheric_correction, spec_ballistic_coefficient,
    spec_form_factor, spec_gyroscopic_stability, spec_kinetic_energy, spec_lag_time,
    spec_reference_ratio_pow_zero, spec_speed_of_sound, spec_velocity_correction,
    spec_velocity_projection, spec_wind_deflection,
};
pub use scalar::{
    lemma_div_self, lemma_mul_one, one, pos, spec_add, spec_div, spec_isqrt, spec_mul, spec_neg,
    spec_sqrt, spec_sub, Scalar, NANO,
};
