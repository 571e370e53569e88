//! The equation catalogue: exact values, edge cases, and the correction
//! scenarios.

use ballistics::{
    standard_pressure, standard_temperature, AerodynamicJump, ApertureSightCalibration,
    BallisticCoefficient, BulletDiameter, BulletLength, BulletMass, Distance, DragCoefficient,
    FormFactor, GyroscopicStability, KineticEnergy, LagTime, RiflingTwist, Scalar,
    SightCalibration, SpeedOfSound, Temperature, TimeOfFlight, Velocity, VelocityProjection,
    WindDeflection, WindSpeed, NANO,
};

fn finite(negative: bool, nanos: u64) -> Scalar {
    Scalar::Finite { negative, nanos }
}

#[test]
fn speed_of_sound_at_standard_temperature() {
    // 49.0223 * sqrt(59 + 459.67) = 1116.449922405..., truncated to nanos.
    let r = SpeedOfSound::calculate(Temperature::finite(false, 59_000_000_000));
    assert_eq!(r.scalar(), finite(false, 1_116_449_922_405));
}

#[test]
fn speed_of_sound_below_absolute_zero_is_nan() {
    // -500 °F is below absolute zero: the square root's operand is negative.
    let r = SpeedOfSound::calculate(Temperature::finite(true, 500_000_000_000));
    assert_eq!(r.scalar(), Scalar::NotANumber);
}

#[test]
fn kinetic_energy_exact_value() {
    // 150 * 2800^2 / 450800 = 2608.695652173913..., truncated to nanos.
    let r = KineticEnergy::calculate(
        BulletMass::finite(false, 150_000_000_000),
        Velocity::finite(false, 2_800_000_000_000),
    );
    assert_eq!(r.scalar(), finite(false, 2_608_695_652_173));
}

#[test]
fn form_factor_of_equal_inputs_is_one() {
    let half = DragCoefficient::finite(false, 500_000_000);
    assert_eq!(FormFactor::calculate(half, half).scalar(), finite(false, NANO));
    let third = DragCoefficient::finite(false, 333_333_333);
    assert_eq!(FormFactor::calculate(third, third).scalar(), finite(false, NANO));
}

#[test]
fn ballistic_coefficient_reduces_to_sectional_density() {
    // With a form factor of one: (150 / 7000) / 0.308^2 = 0.225887...,
    // truncated to nanos at each step.
    let r = BallisticCoefficient::calculate(
        BulletMass::finite(false, 150_000_000_000),
        BulletDiameter::finite(false, 308_000_000),
        FormFactor::finite(false, NANO),
    );
    assert_eq!(r.scalar(), finite(false, 225_887_280));
}

#[test]
fn aperture_sight_calibration_with_zero_radius_is_signed_infinity() {
    let radius = SightCalibration::finite(false, 0);
    let up = ApertureSightCalibration::calculate(SightCalibration::finite(false, 60_000_000), radius);
    assert_eq!(up.scalar(), Scalar::Infinite { negative: false });
    let down =
        ApertureSightCalibration::calculate(SightCalibration::finite(true, 60_000_000), radius);
    assert_eq!(down.scalar(), Scalar::Infinite { negative: true });
}

#[test]
fn velocity_projection_with_negative_mass_ratio_is_nan() {
    let r = VelocityProjection::calculate(
        BulletMass::finite(true, 150_000_000_000),
        BulletMass::finite(false, 150_000_000_000),
        Velocity::finite(false, 2_800_000_000_000),
    );
    assert_eq!(r.scalar(), Scalar::NotANumber);
}

#[test]
fn lag_time_with_zero_muzzle_velocity_is_infinite_or_nan() {
    let t = TimeOfFlight::finite(false, 1_200_000_000);
    let muzzle = Velocity::finite(false, 0);
    let far = LagTime::calculate(t, Distance::finite(false, 300_000_000_000), muzzle);
    assert_eq!(far.scalar(), Scalar::Infinite { negative: true });
    let nowhere = LagTime::calculate(t, Distance::finite(false, 0), muzzle);
    assert_eq!(nowhere.scalar(), Scalar::NotANumber);
}

#[test]
fn wind_deflection_exact_value() {
    // 17.6 * 10 mph * 0.2 s = 35.2 in, exact on the nano grid.
    let r = WindDeflection::calculate(
        LagTime::finite(false, 200_000_000),
        WindSpeed::finite(false, 10_000_000_000),
    );
    assert_eq!(r.scalar(), finite(false, 35_200_000_000));
}

#[test]
fn aerodynamic_jump_exact_value() {
    // 0.01 * 1.5 - 0.0024 * 1.2 + 0.032 = 0.04412, exact on the nano grid.
    let r = AerodynamicJump::calculate(
        GyroscopicStability::finite(false, 1_500_000_000),
        BulletLength::finite(false, 1_200_000_000),
    );
    assert_eq!(r.scalar(), finite(false, 44_120_000));
}

#[test]
fn gyroscopic_stability_exact_value() {
    // Miller's formula at m=150 gr, twist=10 cal/turn, d=0.308 in,
    // L=1.2 cal: 526.004..., with one truncation to nanos per operation.
    let r = GyroscopicStability::calculate(
        BulletMass::finite(false, 150_000_000_000),
        RiflingTwist::finite(false, 10_000_000_000),
        BulletDiameter::finite(false, 308_000_000),
        BulletLength::finite(false, 1_200_000_000),
    );
    assert_eq!(r.scalar(), finite(false, 526_004_296_926));
}

#[test]
fn velocity_correction_is_the_identity() {
    // The whole-number exponent 1/3 truncates to 0, so the correction
    // factor is one whatever the muzzle velocity.
    let v = Velocity::finite(false, 3_000_000_000_000);
    for s in [
        finite(false, 1_734_200_000),
        finite(true, 2_000_000_000),
        Scalar::Infinite { negative: false },
        Scalar::NotANumber,
    ] {
        let r = GyroscopicStability::velocity_correction(v, GyroscopicStability::from_scalar(s));
        assert_eq!(r.scalar(), s);
    }
    let nan_velocity = Velocity::from_scalar(Scalar::NotANumber);
    let s = finite(false, 1_734_200_000);
    let r = GyroscopicStability::velocity_correction(
        nan_velocity,
        GyroscopicStability::from_scalar(s),
    );
    assert_eq!(r.scalar(), s);
}

#[test]
fn atmospheric_correction_is_a_no_op_at_standard_conditions() {
    let t = Temperature::from_scalar(standard_temperature().scalar());
    let p = standard_pressure();
    for s in [
        finite(false, 1_734_200_000),
        finite(true, 500_000_000),
        Scalar::Infinite { negative: true },
        Scalar::NotANumber,
    ] {
        let r = GyroscopicStability::atmospheric_correction(
            t,
            p,
            GyroscopicStability::from_scalar(s),
        );
        assert_eq!(r.scalar(), s);
    }
}

#[test]
fn stability_corrections_chain_to_the_uncorrected_factor() {
    // Under standard conditions the velocity and atmospheric corrections
    // leave Miller's factor untouched, so the chained result equals
    // applying the atmospheric correction directly to the uncorrected one.
    let uncorrected = GyroscopicStability::calculate(
        BulletMass::finite(false, 150_000_000_000),
        RiflingTwist::finite(false, 10_000_000_000),
        BulletDiameter::finite(false, 308_000_000),
        BulletLength::finite(false, 1_200_000_000),
    );
    let velocity_corrected = GyroscopicStability::velocity_correction(
        Velocity::finite(false, 3_000_000_000_000),
        uncorrected,
    );
    let chained = GyroscopicStability::atmospheric_correction(
        standard_temperature(),
        standard_pressure(),
        velocity_corrected,
    );
    let direct = GyroscopicStability::atmospheric_correction(
        standard_temperature(),
        standard_pressure(),
        uncorrected,
    );
    assert_eq!(chained, direct);
    assert_eq!(chained.scalar(), uncorrected.scalar());
}

#[test]
fn formulas_are_pure() {
    // Identical inputs give bit-identical outputs.
    let m = BulletMass::finite(false, 150_000_000_000);
    let v = Velocity::finite(false, 2_800_000_000_000);
    assert_eq!(KineticEnergy::calculate(m, v), KineticEnergy::calculate(m, v));
    let t = Temperature::finite(false, 59_000_000_000);
    assert_eq!(SpeedOfSound::calculate(t), SpeedOfSound::calculate(t));
}
