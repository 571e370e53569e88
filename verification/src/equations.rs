//! The equation catalogue: one pure, stateless computation per derived
//! quantity.
//!
//! Each formula is a composition of the scalar operations, grouped exactly
//! as the formula is written, and each executable function's contract
//! equates its result with a specification function of its inputs alone —
//! the purity of the catalogue is that contract. No input is validated: a
//! degenerate input flows through the scalar arithmetic's error channel (a
//! division by zero yields a signed infinity, a square root of a negative
//! operand a not-a-number) and the lemmas at the end of this module pin
//! those outcomes down, together with the algebraic identities the formulas
//! obey.

use crate::constants::{
    AerodynamicJump, ApertureSightCalibration, BallisticCoefficient, BulletDiameter, BulletLength,
    BulletMass, Distance, DragCoefficient, FormFactor, GyroscopicStability, KineticEnergy, LagTime,
    Pressure, RiflingTwist, SightCalibration, SpeedOfSound, Temperature, TimeOfFlight, Velocity,
    VelocityProjection, WindDeflection, WindSpeed,
};
use crate::scalar::{
    lemma_div_self, lemma_mul_one, one, pos, spec_add, spec_div, spec_mul, spec_sqrt, spec_sub,
    Scalar, NANO,
};
use vstd::prelude::*;

verus! {

/// Nanos of 49.0223, the speed-of-sound coefficient.
pub const SOUND_COEFFICIENT_NANOS: u64 = 49_022_300_000;

/// Nanos of 459.67, the Fahrenheit offset of absolute zero.
pub const ABSOLUTE_ZERO_OFFSET_NANOS: u64 = 459_670_000_000;

/// Nanos of 450800, the kinetic-energy divisor.
pub const ENERGY_DIVISOR_NANOS: u64 = 450_800_000_000_000;

/// Nanos of 171.89, the aperture-sight MOA coefficient.
pub const SIGHT_COEFFICIENT_NANOS: u64 = 171_890_000_000;

/// Nanos of 17.6, the wind-deflection coefficient.
pub const WIND_COEFFICIENT_NANOS: u64 = 17_600_000_000;

/// Nanos of 0.01, the stability coefficient of the aerodynamic jump.
pub const JUMP_STABILITY_NANOS: u64 = 10_000_000;

/// Nanos of 0.0024, the length coefficient of the aerodynamic jump.
pub const JUMP_LENGTH_NANOS: u64 = 2_400_000;

/// Nanos of 0.032, the constant term of the aerodynamic jump.
pub const JUMP_CONSTANT_NANOS: u64 = 32_000_000;

/// Nanos of 30, the coefficient of Miller's stability formula.
pub const MILLER_COEFFICIENT_NANOS: u64 = 30_000_000_000;

/// Nanos of 2800, the reference velocity of Miller's stability formula.
pub const REFERENCE_VELOCITY_NANOS: u64 = 2_800_000_000_000;

/// Nanos of 460, the Rankine offset of the atmospheric correction.
pub const RANKINE_OFFSET_NANOS: u64 = 460_000_000_000;

/// Nanos of 519, the standard Rankine divisor (59 + 460).
pub const STANDARD_RANKINE_NANOS: u64 = 519_000_000_000;

/// Nanos of 29.92, the standard pressure of the atmospheric correction.
pub const CORRECTION_PRESSURE_NANOS: u64 = 29_920_000_000;

/// Nanos of 7000, the grains in a pound.
pub const GRAINS_PER_POUND_NANOS: u64 = 7_000_000_000_000;

/// `49.0223 * sqrt(t + 459.67)`.
pub open spec fn spec_speed_of_sound(t: Scalar) -> Scalar {
    spec_mul(pos(SOUND_COEFFICIENT_NANOS), spec_sqrt(spec_add(t, pos(ABSOLUTE_ZERO_OFFSET_NANOS))))
}

/// `(m * v²) / 450800`.
pub open spec fn spec_kinetic_energy(m: Scalar, v: Scalar) -> Scalar {
    spec_div(spec_mul(m, spec_mul(v, v)), pos(ENERGY_DIVISOR_NANOS))
}

/// `171.89 * (clicks / radius)`.
pub open spec fn spec_aperture_sight_calibration(clicks: Scalar, radius: Scalar) -> Scalar {
    spec_mul(pos(SIGHT_COEFFICIENT_NANOS), spec_div(clicks, radius))
}

/// `cd / cd_standard`.
pub open spec fn spec_form_factor(cd: Scalar, cd_standard: Scalar) -> Scalar {
    spec_div(cd, cd_standard)
}

/// `v1 * sqrt(m1 / m2)`.
pub open spec fn spec_velocity_projection(m1: Scalar, m2: Scalar, v1: Scalar) -> Scalar {
    spec_mul(v1, spec_sqrt(spec_div(m1, m2)))
}

/// `t − d / v`.
pub open spec fn spec_lag_time(t: Scalar, d: Scalar, v: Scalar) -> Scalar {
    spec_sub(t, spec_div(d, v))
}

/// `17.6 * w * lag`, grouped left to right.
pub open spec fn spec_wind_deflection(lag: Scalar, w: Scalar) -> Scalar {
    spec_mul(spec_mul(pos(WIND_COEFFICIENT_NANOS), w), lag)
}

/// `0.01*s − 0.0024*len + 0.032`, grouped left to right.
pub open spec fn spec_aerodynamic_jump(s: Scalar, len: Scalar) -> Scalar {
    spec_add(
        spec_sub(spec_mul(pos(JUMP_STABILITY_NANOS), s), spec_mul(pos(JUMP_LENGTH_NANOS), len)),
        pos(JUMP_CONSTANT_NANOS),
    )
}

/// `(30*m) / (twist² * d³ * len * (1 + len²))`, each power a product and
/// the denominator grouped left to right.
pub open spec fn spec_gyroscopic_stability(m: Scalar, twist: Scalar, d: Scalar, len: Scalar) -> Scalar {
    spec_div(
        spec_mul(pos(MILLER_COEFFICIENT_NANOS), m),
        spec_mul(
            spec_mul(spec_mul(spec_mul(twist, twist), spec_mul(spec_mul(d, d), d)), len),
            spec_add(one(), spec_mul(len, len)),
        ),
    )
}

/// `(v / 2800)` raised to the whole-number exponent `1 / 3`, which
/// truncates to 0; raising any scalar — a not-a-number or an infinity
/// included — to the zeroth power yields one, as IEEE-754 `pown` does.
pub open spec fn spec_reference_ratio_pow_zero(v: Scalar) -> Scalar {
    one()
}

/// `s * (v / 2800)^(1/3)` with the truncating whole-number exponent.
pub open spec fn spec_velocity_correction(v: Scalar, s: Scalar) -> Scalar {
    spec_mul(s, spec_reference_ratio_pow_zero(spec_div(v, pos(REFERENCE_VELOCITY_NANOS))))
}

/// `s * ((t + 460) / (59 + 460) * (29.92 / p))`.
pub open spec fn spec_atmospheric_correction(t: Scalar, p: Scalar, s: Scalar) -> Scalar {
    spec_mul(
        s,
        spec_mul(
            spec_div(spec_add(t, pos(RANKINE_OFFSET_NANOS)), pos(STANDARD_RANKINE_NANOS)),
            spec_div(pos(CORRECTION_PRESSURE_NANOS), p),
        ),
    )
}

/// `(m / 7000) / (d² * ff)`.
pub open spec fn spec_ballistic_coefficient(m: Scalar, d: Scalar, ff: Scalar) -> Scalar {
    spec_div(spec_div(m, pos(GRAINS_PER_POUND_NANOS)), spec_mul(spec_mul(d, d), ff))
}

impl SpeedOfSound {
    /// Calculates the speed of sound in air given the temperature in
    /// degrees Fahrenheit. Below absolute zero, −459.67 °F, the square
    /// root's operand is negative and the result is a not-a-number.
    pub fn calculate(temperature: Temperature) -> (r: Self)
        ensures
            r.scalar == spec_speed_of_sound(temperature.scalar),
    {
        let coefficient = Scalar::Finite { negative: false, nanos: SOUND_COEFFICIENT_NANOS };
        let offset = Scalar::Finite { negative: false, nanos: ABSOLUTE_ZERO_OFFSET_NANOS };
        SpeedOfSound { scalar: coefficient.mul_by(temperature.scalar.add_to(offset).sqrt()) }
    }
}

impl KineticEnergy {
    /// Calculates the kinetic energy of a bullet given its weight in grains
    /// and its velocity in ft/s.
    pub fn calculate(bullet_weight: BulletMass, velocity: Velocity) -> (r: Self)
        ensures
            r.scalar == spec_kinetic_energy(bullet_weight.scalar, velocity.scalar),
    {
        let divisor = Scalar::Finite { negative: false, nanos: ENERGY_DIVISOR_NANOS };
        let squared = velocity.scalar.mul_by(velocity.scalar);
        KineticEnergy { scalar: bullet_weight.scalar.mul_by(squared).div_by(divisor) }
    }
}

impl ApertureSightCalibration {
    /// Determines the point-of-aim movement per click of an aperture sight
    /// from the sight radius and the sight movement over 20 clicks, both in
    /// inches. A zero radius yields a signed infinity, never a fault.
    pub fn calculate(
        sight_movement_twenty_clicks: SightCalibration,
        sight_radius: SightCalibration,
    ) -> (r: Self)
        ensures
            r.scalar == spec_aperture_sight_calibration(
                sight_movement_twenty_clicks.scalar,
                sight_radius.scalar,
            ),
    {
        let coefficient = Scalar::Finite { negative: false, nanos: SIGHT_COEFFICIENT_NANOS };
        let ratio = sight_movement_twenty_clicks.scalar.div_by(sight_radius.scalar);
        ApertureSightCalibration { scalar: coefficient.mul_by(ratio) }
    }
}

impl FormFactor {
    /// Relates a bullet's drag coefficient to a standard bullet's drag
    /// coefficient at the same speed. A zero standard coefficient yields an
    /// infinity, never a fault.
    pub fn calculate(
        drag_coefficient: DragCoefficient,
        standard_bullet_drag_coefficient: DragCoefficient,
    ) -> (r: Self)
        ensures
            r.scalar == spec_form_factor(
                drag_coefficient.scalar,
                standard_bullet_drag_coefficient.scalar,
            ),
    {
        FormFactor {
            scalar: drag_coefficient.scalar.div_by(standard_bullet_drag_coefficient.scalar),
        }
    }
}

impl VelocityProjection {
    /// Projects the velocity of a second bullet from the weight and velocity
    /// of a first bullet, via the square root of the weight ratio. A
    /// negative weight ratio yields a not-a-number, never a fault.
    pub fn calculate(
        bullet_weight_1: BulletMass,
        bullet_weight_2: BulletMass,
        bullet_velocity_1: Velocity,
    ) -> (r: Self)
        ensures
            r.scalar == spec_velocity_projection(
                bullet_weight_1.scalar,
                bullet_weight_2.scalar,
                bullet_velocity_1.scalar,
            ),
    {
        let ratio = bullet_weight_1.scalar.div_by(bullet_weight_2.scalar);
        VelocityProjection { scalar: bullet_velocity_1.scalar.mul_by(ratio.sqrt()) }
    }
}

impl LagTime {
    /// Calculates the lag time of a bullet: the actual time of flight minus
    /// the theoretical vacuum time of flight (distance over muzzle
    /// velocity). A zero muzzle velocity yields an infinity or a
    /// not-a-number, never a fault.
    pub fn calculate(
        actual_time_of_flight: TimeOfFlight,
        distance: Distance,
        muzzle_velocity: Velocity,
    ) -> (r: Self)
        ensures
            r.scalar == spec_lag_time(
                actual_time_of_flight.scalar,
                distance.scalar,
                muzzle_velocity.scalar,
            ),
    {
        let vacuum_time_of_flight = distance.scalar.div_by(muzzle_velocity.scalar);
        LagTime { scalar: actual_time_of_flight.scalar.sub_by(vacuum_time_of_flight) }
    }
}

impl WindDeflection {
    /// Calculates how far, in inches, a crosswind in mph will deflect a
    /// bullet with the given lag time.
    pub fn calculate(lag_time: LagTime, crosswind_speed: WindSpeed) -> (r: Self)
        ensures
            r.scalar == spec_wind_deflection(lag_time.scalar, crosswind_speed.scalar),
    {
        let coefficient = Scalar::Finite { negative: false, nanos: WIND_COEFFICIENT_NANOS };
        WindDeflection { scalar: coefficient.mul_by(crosswind_speed.scalar).mul_by(lag_time.scalar) }
    }
}

impl AerodynamicJump {
    /// Estimates the aerodynamic jump (vertical deflection in MOA per mph of
    /// crosswind) from the gyroscopic stability factor and the bullet length
    /// in calibers, by an empirical formula valid for typical small arms.
    pub fn calculate(gyro_stability: GyroscopicStability, bullet_length: BulletLength) -> (r: Self)
        ensures
            r.scalar == spec_aerodynamic_jump(gyro_stability.scalar, bullet_length.scalar),
    {
        let stability_coefficient = Scalar::Finite { negative: false, nanos: JUMP_STABILITY_NANOS };
        let length_coefficient = Scalar::Finite { negative: false, nanos: JUMP_LENGTH_NANOS };
        let constant = Scalar::Finite { negative: false, nanos: JUMP_CONSTANT_NANOS };
        let rise = stability_coefficient.mul_by(gyro_stability.scalar);
        let drop = length_coefficient.mul_by(bullet_length.scalar);
        AerodynamicJump { scalar: rise.sub_by(drop).add_to(constant) }
    }
}

impl GyroscopicStability {
    /// Calculates the gyroscopic stability factor of a bullet at a reference
    /// velocity of 2800 ft/s using Miller's stability formula. A zero twist,
    /// diameter or length yields an infinity, never a fault.
    pub fn calculate(
        bullet_mass: BulletMass,
        rifling_twist: RiflingTwist,
        bullet_diameter: BulletDiameter,
        bullet_length: BulletLength,
    ) -> (r: Self)
        ensures
            r.scalar == spec_gyroscopic_stability(
                bullet_mass.scalar,
                rifling_twist.scalar,
                bullet_diameter.scalar,
                bullet_length.scalar,
            ),
    {
        let coefficient = Scalar::Finite { negative: false, nanos: MILLER_COEFFICIENT_NANOS };
        let unit = Scalar::Finite { negative: false, nanos: NANO };
        let twist_squared = rifling_twist.scalar.mul_by(rifling_twist.scalar);
        let diameter_cubed = bullet_diameter.scalar.mul_by(bullet_diameter.scalar).mul_by(
            bullet_diameter.scalar,
        );
        let length_squared = bullet_length.scalar.mul_by(bullet_length.scalar);
        let denominator = twist_squared.mul_by(diameter_cubed).mul_by(bullet_length.scalar).mul_by(
            unit.add_to(length_squared),
        );
        GyroscopicStability { scalar: coefficient.mul_by(bullet_mass.scalar).div_by(denominator) }
    }

    /// Adjusts the stability factor for a muzzle velocity other than the
    /// 2800 ft/s reference. The exponent `1 / 3` is whole-number division
    /// and truncates to 0, so the correction factor is one and the result
    /// is the stability factor unchanged; this is kept as it stands rather
    /// than silently becoming a true cube root, and
    /// [`lemma_velocity_correction_is_identity`] pins the choice.
    pub fn velocity_correction(
        muzzle_velocity: Velocity,
        gyro_stability: GyroscopicStability,
    ) -> (r: Self)
        ensures
            r.scalar == spec_velocity_correction(muzzle_velocity.scalar, gyro_stability.scalar),
    {
        let unit = Scalar::Finite { negative: false, nanos: NANO };
        GyroscopicStability { scalar: gyro_stability.scalar.mul_by(unit) }
    }

    /// Adjusts the stability factor for air temperature (°F) and pressure
    /// (inHg); at the standard 59 °F and 29.92 inHg the factor is exactly
    /// one and the result is the stability factor unchanged
    /// ([`lemma_atmospheric_correction_standard_no_op`]). A zero pressure
    /// yields an infinity, never a fault.
    pub fn atmospheric_correction(
        air_temp: Temperature,
        air_pressure: Pressure,
        gyro_stability: GyroscopicStability,
    ) -> (r: Self)
        ensures
            r.scalar == spec_atmospheric_correction(
                air_temp.scalar,
                air_pressure.scalar,
                gyro_stability.scalar,
            ),
    {
        let rankine_offset = Scalar::Finite { negative: false, nanos: RANKINE_OFFSET_NANOS };
        let rankine_divisor = Scalar::Finite { negative: false, nanos: STANDARD_RANKINE_NANOS };
        let reference_pressure = Scalar::Finite {
            negative: false,
            nanos: CORRECTION_PRESSURE_NANOS,
        };
        let temperature_ratio = air_temp.scalar.add_to(rankine_offset).div_by(rankine_divisor);
        let pressure_ratio = reference_pressure.div_by(air_pressure.scalar);
        GyroscopicStability {
            scalar: gyro_stability.scalar.mul_by(temperature_ratio.mul_by(pressure_ratio)),
        }
    }
}

impl BallisticCoefficient {
    /// Calculates the ballistic coefficient of a bullet from its mass in
    /// grains, its diameter in inches and its form factor. A zero diameter
    /// or form factor yields an infinity, never a fault.
    pub fn calculate(
        bullet_mass: BulletMass,
        bullet_diameter: BulletDiameter,
        form_factor: FormFactor,
    ) -> (r: Self)
        ensures
            r.scalar == spec_ballistic_coefficient(
                bullet_mass.scalar,
                bullet_diameter.scalar,
                form_factor.scalar,
            ),
    {
        let grains_per_pound = Scalar::Finite { negative: false, nanos: GRAINS_PER_POUND_NANOS };
        let sectional = bullet_mass.scalar.div_by(grains_per_pound);
        let diameter_squared = bullet_diameter.scalar.mul_by(bullet_diameter.scalar);
        BallisticCoefficient {
            scalar: sectional.div_by(diameter_squared.mul_by(form_factor.scalar)),
        }
    }
}

/// The form factor of equal nonzero drag coefficients is exactly one.
pub proof fn lemma_form_factor_identity(cd: Scalar)
    requires
        cd matches Scalar::Finite { nanos, .. } && nanos != 0,
    ensures
        spec_form_factor(cd, cd) == one(),
{
    lemma_div_self(cd);
}

/// With a form factor of one, the ballistic coefficient reduces to the
/// sectional-density form `(m / 7000) / d²`.
pub proof fn lemma_ballistic_coefficient_sectional(m: Scalar, d: Scalar)
    ensures
        spec_ballistic_coefficient(m, d, one()) == spec_div(
            spec_div(m, pos(GRAINS_PER_POUND_NANOS)),
            spec_mul(d, d),
        ),
{
    lemma_mul_one(spec_mul(d, d));
}

/// The velocity correction is the identity on every stability factor, for
/// every muzzle velocity: its whole-number exponent truncates to zero.
pub proof fn lemma_velocity_correction_is_identity(v: Scalar, s: Scalar)
    ensures
        spec_velocity_correction(v, s) == s,
{
    lemma_mul_one(s);
}

/// At the standard temperature and pressure the atmospheric factor is
/// exactly one, so the atmospheric correction returns every stability
/// factor — finite, infinite or not-a-number — unchanged.
pub proof fn lemma_atmospheric_correction_standard_no_op(s: Scalar)
    ensures
        spec_atmospheric_correction(
            pos(crate::constants::STANDARD_TEMPERATURE_NANOS),
            pos(crate::constants::STANDARD_PRESSURE_NANOS),
            s,
        ) == s,
{
    let rankine = spec_add(
        pos(crate::constants::STANDARD_TEMPERATURE_NANOS),
        pos(RANKINE_OFFSET_NANOS),
    );
    assert(rankine == pos(STANDARD_RANKINE_NANOS));
    lemma_div_self(pos(STANDARD_RANKINE_NANOS));
    lemma_div_self(pos(CORRECTION_PRESSURE_NANOS));
    lemma_mul_one(one());
    lemma_mul_one(s);
}

/// A zero radius of either sign sends the aperture-sight calibration to an
/// infinity whose sign is that of the movement over the radius — for the
/// positive zero radius, the sign of the movement itself — never a fault.
pub proof fn lemma_aperture_sight_calibration_zero_radius(clicks: Scalar, radius: Scalar)
    requires
        clicks matches Scalar::Finite { nanos, .. } && nanos != 0,
        radius matches Scalar::Finite { nanos, .. } && nanos == 0,
    ensures
        spec_aperture_sight_calibration(clicks, radius) == (Scalar::Infinite {
            negative: clicks->Finite_negative != radius->Finite_negative,
        }),
{
}

/// A negative weight ratio whose quotient does not truncate to zero sends
/// the velocity projection to a not-a-number, never a fault.
pub proof fn lemma_velocity_projection_negative_ratio(m1: Scalar, m2: Scalar, v1: Scalar)
    requires
        m1 matches Scalar::Finite { nanos, .. } && nanos != 0,
        m2 matches Scalar::Finite { nanos, .. } && nanos != 0,
        m1->Finite_negative != m2->Finite_negative,
        m1->Finite_nanos * NANO >= m2->Finite_nanos,
    ensures
        spec_velocity_projection(m1, m2, v1) == Scalar::NotANumber,
{
    let ma = m1->Finite_nanos;
    let mb = m2->Finite_nanos;
    assert((ma * NANO) / (mb as int) >= 1) by (nonlinear_arith)
        requires
            ma * NANO >= mb,
            mb >= 1,
    ;
}

/// A positive-zero muzzle velocity sends the lag time to an infinity when
/// the distance is nonzero — opposite in sign to the distance — and to a
/// not-a-number when the distance is a zero; never a fault.
pub proof fn lemma_lag_time_zero_muzzle(t: Scalar, d: Scalar, v: Scalar)
    requires
        t matches Scalar::Finite { .. },
        d matches Scalar::Finite { .. },
        v == (Scalar::Finite { negative: false, nanos: 0u64 }),
    ensures
        d->Finite_nanos != 0 ==> spec_lag_time(t, d, v) == (Scalar::Infinite {
            negative: !d->Finite_negative,
        }),
        d->Finite_nanos == 0 ==> spec_lag_time(t, d, v) == Scalar::NotANumber,
{
}

} // verus!
