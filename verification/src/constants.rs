//! The quantity-type catalogue and the named physical constants.
//!
//! Every physical quantity is a distinct unit-tagged scalar type holding one
//! [`Scalar`], so that a function requiring one kind of quantity can never
//! accept another. A quantity constructs from any scalar with no validation
//! — a negative mass, an infinity or a not-a-number is accepted and carried
//! as it is — and equality is the scalar's structural equality.

use crate::scalar::{pos, Scalar};
use vstd::prelude::*;

verus! {

/// Gravitational constant (ft/s²).
///
/// The acceleration due to gravity at Earth's surface.
#[derive(Clone, Copy, Debug, PartialEq, Eq, Structural)]
pub struct Gravity {
    /// The value carried by this quantity.
    pub scalar: Scalar,
}

impl Gravity {
    /// Wraps a scalar; no validation is performed.
    pub fn from_scalar(scalar: Scalar) -> (q: Self)
        ensures
            q.scalar == scalar,
    {
        Gravity { scalar }
    }

    /// The finite quantity of `nanos` billionths, negative if `negative`.
    pub fn finite(negative: bool, nanos: u64) -> (q: Self)
        ensures
            q.scalar == (Scalar::Finite { negative, nanos }),
    {
        Gravity { scalar: Scalar::Finite { negative, nanos } }
    }

    /// Returns the scalar this quantity carries.
    pub fn scalar(self) -> (s: Scalar)
        ensures
            s == self.scalar,
    {
        self.scalar
    }
}

/// Speed of sound given temperature (ft/s).
///
/// The speed of sound in air, which varies with temperature.
#[derive(Clone, Copy, Debug, PartialEq, Eq, Structural)]
pub struct SpeedOfSound {
    /// The value carried by this quantity.
    pub scalar: Scalar,
}

impl SpeedOfSound {
    /// Wraps a scalar; no validation is performed.
    pub fn from_scalar(scalar: Scalar) -> (q: Self)
        ensures
            q.scalar == scalar,
    {
        SpeedOfSound { scalar }
    }

    /// The finite quantity of `nanos` billionths, negative if `negative`.
    pub fn finite(negative: bool, nanos: u64) -> (q: Self)
        ensures
            q.scalar == (Scalar::Finite { negative, nanos }),
    {
        SpeedOfSound { scalar: Scalar::Finite { negative, nanos } }
    }

    /// Returns the scalar this quantity carries.
    pub fn scalar(self) -> (s: Scalar)
        ensures
            s == self.scalar,
    {
        self.scalar
    }
}

/// Time of flight (s).
///
/// The time of flight, actual or theoretical, of the projectile in seconds.
#[derive(Clone, Copy, Debug, PartialEq, Eq, Structural)]
pub struct TimeOfFlight {
    /// The value carried by this quantity.
    pub scalar: Scalar,
}

impl TimeOfFlight {
    /// Wraps a scalar; no validation is performed.
    pub fn from_scalar(scalar: Scalar) -> (q: Self)
        ensures
            q.scalar == scalar,
    {
        TimeOfFlight { scalar }
    }

    /// The finite quantity of `nanos` billionths, negative if `negative`.
    pub fn finite(negative: bool, nanos: u64) -> (q: Self)
        ensures
            q.scalar == (Scalar::Finite { negative, nanos }),
    {
        TimeOfFlight { scalar: Scalar::Finite { negative, nanos } }
    }

    /// Returns the scalar this quantity carries.
    pub fn scalar(self) -> (s: Scalar)
        ensures
            s == self.scalar,
    {
        self.scalar
    }
}

/// Distance (ft).
///
/// Distance traveled in feet.
#[derive(Clone, Copy, Debug, PartialEq, Eq, Structural)]
pub struct Distance {
    /// The value carried by this quantity.
    pub scalar: Scalar,
}

impl Distance {
    /// Wraps a scalar; no validation is performed.
    pub fn from_scalar(scalar: Scalar) -> (q: Self)
        ensures
            q.scalar == scalar,
    {
        Distance { scalar }
    }

    /// The finite quantity of `nanos` billionths, negative if `negative`.
    pub fn finite(negative: bool, nanos: u64) -> (q: Self)
        ensures
            q.scalar == (Scalar::Finite { negative, nanos }),
    {
        Distance { scalar: Scalar::Finite { negative, nanos } }
    }

    /// Returns the scalar this quantity carries.
    pub fn scalar(self) -> (s: Scalar)
        ensures
            s == self.scalar,
    {
        self.scalar
    }
}

/// Wind speed (mph).
///
/// The wind speed in miles per hour.
#[derive(Clone, Copy, Debug, PartialEq, Eq, Structural)]
pub struct WindSpeed {
    /// The value carried by this quantity.
    pub scalar: Scalar,
}

impl WindSpeed {
    /// Wraps a scalar; no validation is performed.
    pub fn from_scalar(scalar: Scalar) -> (q: Self)
        ensures
            q.scalar == scalar,
    {
        WindSpeed { scalar }
    }

    /// The finite quantity of `nanos` billionths, negative if `negative`.
    pub fn finite(negative: bool, nanos: u64) -> (q: Self)
        ensures
            q.scalar == (Scalar::Finite { negative, nanos }),
    {
        WindSpeed { scalar: Scalar::Finite { negative, nanos } }
    }

    /// Returns the scalar this quantity carries.
    pub fn scalar(self) -> (s: Scalar)
        ensures
            s == self.scalar,
    {
        self.scalar
    }
}

/// Drag coefficient.
///
/// The drag coefficient of a bullet at some speed.
#[derive(Clone, Copy, Debug, PartialEq, Eq, Structural)]
pub struct DragCoefficient {
    /// The value carried by this quantity.
    pub scalar: Scalar,
}

impl DragCoefficient {
    /// Wraps a scalar; no validation is performed.
    pub fn from_scalar(scalar: Scalar) -> (q: Self)
        ensures
            q.scalar == scalar,
    {
        DragCoefficient { scalar }
    }

    /// The finite quantity of `nanos` billionths, negative if `negative`.
    pub fn finite(negative: bool, nanos: u64) -> (q: Self)
        ensures
            q.scalar == (Scalar::Finite { negative, nanos }),
    {
        DragCoefficient { scalar: Scalar::Finite { negative, nanos } }
    }

    /// Returns the scalar this quantity carries.
    pub fn scalar(self) -> (s: Scalar)
        ensures
            s == self.scalar,
    {
        self.scalar
    }
}

/// Rifling twist (calibers per turn).
///
/// The rifling twist of the barrel in calibers per turn.
#[derive(Clone, Copy, Debug, PartialEq, Eq, Structural)]
pub struct RiflingTwist {
    /// The value carried by this quantity.
    pub scalar: Scalar,
}

impl RiflingTwist {
    /// Wraps a scalar; no validation is performed.
    pub fn from_scalar(scalar: Scalar) -> (q: Self)
        ensures
            q.scalar == scalar,
    {
        RiflingTwist { scalar }
    }

    /// The finite quantity of `nanos` billionths, negative if `negative`.
    pub fn finite(negative: bool, nanos: u64) -> (q: Self)
        ensures
            q.scalar == (Scalar::Finite { negative, nanos }),
    {
        RiflingTwist { scalar: Scalar::Finite { negative, nanos } }
    }

    /// Returns the scalar this quantity carries.
    pub fn scalar(self) -> (s: Scalar)
        ensures
            s == self.scalar,
    {
        self.scalar
    }
}

/// Bullet length (calibers).
///
/// The bullet's length in calibers.
#[derive(Clone, Copy, Debug, PartialEq, Eq, Structural)]
pub struct BulletLength {
    /// The value carried by this quantity.
    pub scalar: Scalar,
}

impl BulletLength {
    /// Wraps a scalar; no validation is performed.
    pub fn from_scalar(scalar: Scalar) -> (q: Self)
        ensures
            q.scalar == scalar,
    {
        BulletLength { scalar }
    }

    /// The finite quantity of `nanos` billionths, negative if `negative`.
    pub fn finite(negative: bool, nanos: u64) -> (q: Self)
        ensures
            q.scalar == (Scalar::Finite { negative, nanos }),
    {
        BulletLength { scalar: Scalar::Finite { negative, nanos } }
    }

    /// Returns the scalar this quantity carries.
    pub fn scalar(self) -> (s: Scalar)
        ensures
            s == self.scalar,
    {
        self.scalar
    }
}

/// Bullet diameter (in).
///
/// The diameter (caliber) of the bullet in inches.
#[derive(Clone, Copy, Debug, PartialEq, Eq, Structural)]
pub struct BulletDiameter {
    /// The value carried by this quantity.
    pub scalar: Scalar,
}

impl BulletDiameter {
    /// Wraps a scalar; no validation is performed.
    pub fn from_scalar(scalar: Scalar) -> (q: Self)
        ensures
            q.scalar == scalar,
    {
        BulletDiameter { scalar }
    }

    /// The finite quantity of `nanos` billionths, negative if `negative`.
    pub fn finite(negative: bool, nanos: u64) -> (q: Self)
        ensures
            q.scalar == (Scalar::Finite { negative, nanos }),
    {
        BulletDiameter { scalar: Scalar::Finite { negative, nanos } }
    }

    /// Returns the scalar this quantity carries.
    pub fn scalar(self) -> (s: Scalar)
        ensures
            s == self.scalar,
    {
        self.scalar
    }
}

/// Sight calibration (in).
///
/// Either the sight movement for 20 clicks or the sight radius, in inches.
#[derive(Clone, Copy, Debug, PartialEq, Eq, Structural)]
pub struct SightCalibration {
    /// The value carried by this quantity.
    pub scalar: Scalar,
}

impl SightCalibration {
    /// Wraps a scalar; no validation is performed.
    pub fn from_scalar(scalar: Scalar) -> (q: Self)
        ensures
            q.scalar == scalar,
    {
        SightCalibration { scalar }
    }

    /// The finite quantity of `nanos` billionths, negative if `negative`.
    pub fn finite(negative: bool, nanos: u64) -> (q: Self)
        ensures
            q.scalar == (Scalar::Finite { negative, nanos }),
    {
        SightCalibration { scalar: Scalar::Finite { negative, nanos } }
    }

    /// Returns the scalar this quantity carries.
    pub fn scalar(self) -> (s: Scalar)
        ensures
            s == self.scalar,
    {
        self.scalar
    }
}

/// Air density (lb/ft³).
///
/// The air density in pounds per cubic foot.
#[derive(Clone, Copy, Debug, PartialEq, Eq, Structural)]
pub struct AirDensity {
    /// The value carried by this quantity.
    pub scalar: Scalar,
}

impl AirDensity {
    /// Wraps a scalar; no validation is performed.
    pub fn from_scalar(scalar: Scalar) -> (q: Self)
        ensures
            q.scalar == scalar,
    {
        AirDensity { scalar }
    }

    /// The finite quantity of `nanos` billionths, negative if `negative`.
    pub fn finite(negative: bool, nanos: u64) -> (q: Self)
        ensures
            q.scalar == (Scalar::Finite { negative, nanos }),
    {
        AirDensity { scalar: Scalar::Finite { negative, nanos } }
    }

    /// Returns the scalar this quantity carries.
    pub fn scalar(self) -> (s: Scalar)
        ensures
            s == self.scalar,
    {
        self.scalar
    }
}

/// Lag time of a bullet (s).
///
/// The difference between the actual time of flight and the theoretical vacuum time of flight, which governs wind-deflection sensitivity.
#[derive(Clone, Copy, Debug, PartialEq, Eq, Structural)]
pub struct LagTime {
    /// The value carried by this quantity.
    pub scalar: Scalar,
}

impl LagTime {
    /// Wraps a scalar; no validation is performed.
    pub fn from_scalar(scalar: Scalar) -> (q: Self)
        ensures
            q.scalar == scalar,
    {
        LagTime { scalar }
    }

    /// The finite quantity of `nanos` billionths, negative if `negative`.
    pub fn finite(negative: bool, nanos: u64) -> (q: Self)
        ensures
            q.scalar == (Scalar::Finite { negative, nanos }),
    {
        LagTime { scalar: Scalar::Finite { negative, nanos } }
    }

    /// Returns the scalar this quantity carries.
    pub fn scalar(self) -> (s: Scalar)
        ensures
            s == self.scalar,
    {
        self.scalar
    }
}

/// Wind deflection of a bullet (in).
///
/// How far a crosswind pushes the bullet off its path during flight.
#[derive(Clone, Copy, Debug, PartialEq, Eq, Structural)]
pub struct WindDeflection {
    /// The value carried by this quantity.
    pub scalar: Scalar,
}

impl WindDeflection {
    /// Wraps a scalar; no validation is performed.
    pub fn from_scalar(scalar: Scalar) -> (q: Self)
        ensures
            q.scalar == scalar,
    {
        WindDeflection { scalar }
    }

    /// The finite quantity of `nanos` billionths, negative if `negative`.
    pub fn finite(negative: bool, nanos: u64) -> (q: Self)
        ensures
            q.scalar == (Scalar::Finite { negative, nanos }),
    {
        WindDeflection { scalar: Scalar::Finite { negative, nanos } }
    }

    /// Returns the scalar this quantity carries.
    pub fn scalar(self) -> (s: Scalar)
        ensures
            s == self.scalar,
    {
        self.scalar
    }
}

/// Projected velocity of a second bullet (ft/s).
///
/// A second bullet's velocity estimated from the weight and velocity of a first bullet.
#[derive(Clone, Copy, Debug, PartialEq, Eq, Structural)]
pub struct VelocityProjection {
    /// The value carried by this quantity.
    pub scalar: Scalar,
}

impl VelocityProjection {
    /// Wraps a scalar; no validation is performed.
    pub fn from_scalar(scalar: Scalar) -> (q: Self)
        ensures
            q.scalar == scalar,
    {
        VelocityProjection { scalar }
    }

    /// The finite quantity of `nanos` billionths, negative if `negative`.
    pub fn finite(negative: bool, nanos: u64) -> (q: Self)
        ensures
            q.scalar == (Scalar::Finite { negative, nanos }),
    {
        VelocityProjection { scalar: Scalar::Finite { negative, nanos } }
    }

    /// Returns the scalar this quantity carries.
    pub fn scalar(self) -> (s: Scalar)
        ensures
            s == self.scalar,
    {
        self.scalar
    }
}

/// Aperture sight calibration value (MOA per click).
///
/// The point-of-aim movement for each click of an aperture sight.
#[derive(Clone, Copy, Debug, PartialEq, Eq, Structural)]
pub struct ApertureSightCalibration {
    /// The value carried by this quantity.
    pub scalar: Scalar,
}

impl ApertureSightCalibration {
    /// Wraps a scalar; no validation is performed.
    pub fn from_scalar(scalar: Scalar) -> (q: Self)
        ensures
            q.scalar == scalar,
    {
        ApertureSightCalibration { scalar }
    }

    /// The finite quantity of `nanos` billionths, negative if `negative`.
    pub fn finite(negative: bool, nanos: u64) -> (q: Self)
        ensures
            q.scalar == (Scalar::Finite { negative, nanos }),
    {
        ApertureSightCalibration { scalar: Scalar::Finite { negative, nanos } }
    }

    /// Returns the scalar this quantity carries.
    pub fn scalar(self) -> (s: Scalar)
        ensures
            s == self.scalar,
    {
        self.scalar
    }
}

/// Form factor of a projectile (dimensionless).
///
/// The ratio of a bullet's drag coefficient to a standard bullet's drag coefficient at the same speed: a measure of how streamlined the projectile is.
#[derive(Clone, Copy, Debug, PartialEq, Eq, Structural)]
pub struct FormFactor {
    /// The value carried by this quantity.
    pub scalar: Scalar,
}

impl FormFactor {
    /// Wraps a scalar; no validation is performed.
    pub fn from_scalar(scalar: Scalar) -> (q: Self)
        ensures
            q.scalar == scalar,
    {
        FormFactor { scalar }
    }

    /// The finite quantity of `nanos` billionths, negative if `negative`.
    pub fn finite(negative: bool, nanos: u64) -> (q: Self)
        ensures
            q.scalar == (Scalar::Finite { negative, nanos }),
    {
        FormFactor { scalar: Scalar::Finite { negative, nanos } }
    }

    /// Returns the scalar this quantity carries.
    pub fn scalar(self) -> (s: Scalar)
        ensures
            s == self.scalar,
    {
        self.scalar
    }
}

/// Aerodynamic jump of a projectile (MOA per mph of crosswind).
///
/// The vertical deflection of a projectile's path as it leaves the muzzle, caused by a crosswind acting on the spinning projectile.
#[derive(Clone, Copy, Debug, PartialEq, Eq, Structural)]
pub struct AerodynamicJump {
    /// The value carried by this quantity.
    pub scalar: Scalar,
}

impl AerodynamicJump {
    /// Wraps a scalar; no validation is performed.
    pub fn from_scalar(scalar: Scalar) -> (q: Self)
        ensures
            q.scalar == scalar,
    {
        AerodynamicJump { scalar }
    }

    /// The finite quantity of `nanos` billionths, negative if `negative`.
    pub fn finite(negative: bool, nanos: u64) -> (q: Self)
        ensures
            q.scalar == (Scalar::Finite { negative, nanos }),
    {
        AerodynamicJump { scalar: Scalar::Finite { negative, nanos } }
    }

    /// Returns the scalar this quantity carries.
    pub fn scalar(self) -> (s: Scalar)
        ensures
            s == self.scalar,
    {
        self.scalar
    }
}

/// Bullet mass (grains).
///
/// The mass of the bullet in grains.
#[derive(Clone, Copy, Debug, PartialEq, Eq, Structural)]
pub struct BulletMass {
    /// The value carried by this quantity.
    pub scalar: Scalar,
}

impl BulletMass {
    /// Wraps a scalar; no validation is performed.
    pub fn from_scalar(scalar: Scalar) -> (q: Self)
        ensures
            q.scalar == scalar,
    {
        BulletMass { scalar }
    }

    /// The finite quantity of `nanos` billionths, negative if `negative`.
    pub fn finite(negative: bool, nanos: u64) -> (q: Self)
        ensures
            q.scalar == (Scalar::Finite { negative, nanos }),
    {
        BulletMass { scalar: Scalar::Finite { negative, nanos } }
    }

    /// Returns the scalar this quantity carries.
    pub fn scalar(self) -> (s: Scalar)
        ensures
            s == self.scalar,
    {
        self.scalar
    }
}

/// Temperature (°F).
///
/// The air temperature in degrees Fahrenheit.
#[derive(Clone, Copy, Debug, PartialEq, Eq, Structural)]
pub struct Temperature {
    /// The value carried by this quantity.
    pub scalar: Scalar,
}

impl Temperature {
    /// Wraps a scalar; no validation is performed.
    pub fn from_scalar(scalar: Scalar) -> (q: Self)
        ensures
            q.scalar == scalar,
    {
        Temperature { scalar }
    }

    /// The finite quantity of `nanos` billionths, negative if `negative`.
    pub fn finite(negative: bool, nanos: u64) -> (q: Self)
        ensures
            q.scalar == (Scalar::Finite { negative, nanos }),
    {
        Temperature { scalar: Scalar::Finite { negative, nanos } }
    }

    /// Returns the scalar this quantity carries.
    pub fn scalar(self) -> (s: Scalar)
        ensures
            s == self.scalar,
    {
        self.scalar
    }
}

/// Pressure (inHg).
///
/// Air pressure in inches of mercury.
#[derive(Clone, Copy, Debug, PartialEq, Eq, Structural)]
pub struct Pressure {
    /// The value carried by this quantity.
    pub scalar: Scalar,
}

impl Pressure {
    /// Wraps a scalar; no validation is performed.
    pub fn from_scalar(scalar: Scalar) -> (q: Self)
        ensures
            q.scalar == scalar,
    {
        Pressure { scalar }
    }

    /// The finite quantity of `nanos` billionths, negative if `negative`.
    pub fn finite(negative: bool, nanos: u64) -> (q: Self)
        ensures
            q.scalar == (Scalar::Finite { negative, nanos }),
    {
        Pressure { scalar: Scalar::Finite { negative, nanos } }
    }

    /// Returns the scalar this quantity carries.
    pub fn scalar(self) -> (s: Scalar)
        ensures
            s == self.scalar,
    {
        self.scalar
    }
}

/// Velocity (ft/s).
///
/// The bullet velocity in feet per second.
#[derive(Clone, Copy, Debug, PartialEq, Eq, Structural)]
pub struct Velocity {
    /// The value carried by this quantity.
    pub scalar: Scalar,
}

impl Velocity {
    /// Wraps a scalar; no validation is performed.
    pub fn from_scalar(scalar: Scalar) -> (q: Self)
        ensures
            q.scalar == scalar,
    {
        Velocity { scalar }
    }

    /// The finite quantity of `nanos` billionths, negative if `negative`.
    pub fn finite(negative: bool, nanos: u64) -> (q: Self)
        ensures
            q.scalar == (Scalar::Finite { negative, nanos }),
    {
        Velocity { scalar: Scalar::Finite { negative, nanos } }
    }

    /// Returns the scalar this quantity carries.
    pub fn scalar(self) -> (s: Scalar)
        ensures
            s == self.scalar,
    {
        self.scalar
    }
}

/// Gyroscopic stability factor (dimensionless).
///
/// Miller's stability factor: whether the spin imparted by the rifling suffices to stabilize the projectile in flight.
#[derive(Clone, Copy, Debug, PartialEq, Eq, Structural)]
pub struct GyroscopicStability {
    /// The value carried by this quantity.
    pub scalar: Scalar,
}

impl GyroscopicStability {
    /// Wraps a scalar; no validation is performed.
    pub fn from_scalar(scalar: Scalar) -> (q: Self)
        ensures
            q.scalar == scalar,
    {
        GyroscopicStability { scalar }
    }

    /// The finite quantity of `nanos` billionths, negative if `negative`.
    pub fn finite(negative: bool, nanos: u64) -> (q: Self)
        ensures
            q.scalar == (Scalar::Finite { negative, nanos }),
    {
        GyroscopicStability { scalar: Scalar::Finite { negative, nanos } }
    }

    /// Returns the scalar this quantity carries.
    pub fn scalar(self) -> (s: Scalar)
        ensures
            s == self.scalar,
    {
        self.scalar
    }
}

/// Kinetic energy (ft-lb).
///
/// The energy a projectile possesses due to its motion.
#[derive(Clone, Copy, Debug, PartialEq, Eq, Structural)]
pub struct KineticEnergy {
    /// The value carried by this quantity.
    pub scalar: Scalar,
}

impl KineticEnergy {
    /// Wraps a scalar; no validation is performed.
    pub fn from_scalar(scalar: Scalar) -> (q: Self)
        ensures
            q.scalar == scalar,
    {
        KineticEnergy { scalar }
    }

    /// The finite quantity of `nanos` billionths, negative if `negative`.
    pub fn finite(negative: bool, nanos: u64) -> (q: Self)
        ensures
            q.scalar == (Scalar::Finite { negative, nanos }),
    {
        KineticEnergy { scalar: Scalar::Finite { negative, nanos } }
    }

    /// Returns the scalar this quantity carries.
    pub fn scalar(self) -> (s: Scalar)
        ensures
            s == self.scalar,
    {
        self.scalar
    }
}

/// Ballistic coefficient (dimensionless).
///
/// A measure of a projectile's ability to overcome air resistance in flight.
#[derive(Clone, Copy, Debug, PartialEq, Eq, Structural)]
pub struct BallisticCoefficient {
    /// The value carried by this quantity.
    pub scalar: Scalar,
}

impl BallisticCoefficient {
    /// Wraps a scalar; no validation is performed.
    pub fn from_scalar(scalar: Scalar) -> (q: Self)
        ensures
            q.scalar == scalar,
    {
        BallisticCoefficient { scalar }
    }

    /// The finite quantity of `nanos` billionths, negative if `negative`.
    pub fn finite(negative: bool, nanos: u64) -> (q: Self)
        ensures
            q.scalar == (Scalar::Finite { negative, nanos }),
    {
        BallisticCoefficient { scalar: Scalar::Finite { negative, nanos } }
    }

    /// Returns the scalar this quantity carries.
    pub fn scalar(self) -> (s: Scalar)
        ensures
            s == self.scalar,
    {
        self.scalar
    }
}

/// Nanos of 32.174: the value of [`standard_gravity`].
pub const STANDARD_GRAVITY_NANOS: u64 = 32_174_000_000;

/// IEEE-754 double bit pattern of 32.174, for the double-precision surface.
pub const STANDARD_GRAVITY_BITS: u64 = 0x4040_1645_A1CA_C083;

/// Standard gravitational constant (ft/s²): the standard gravitational
/// acceleration at Earth's surface, 32.174.
pub fn standard_gravity() -> (q: Gravity)
    ensures
        q.scalar == pos(STANDARD_GRAVITY_NANOS),
{
    Gravity { scalar: Scalar::Finite { negative: false, nanos: STANDARD_GRAVITY_NANOS } }
}

/// Nanos of 1116.28: the value of [`speed_of_sound_sea_level`].
pub const SPEED_OF_SOUND_SEA_LEVEL_NANOS: u64 = 1_116_280_000_000;

/// IEEE-754 double bit pattern of 1116.28, for the double-precision surface.
pub const SPEED_OF_SOUND_SEA_LEVEL_BITS: u64 = 0x4091_711E_B851_EB85;

/// Speed of sound at sea level (ft/s): 1116.28.
pub fn speed_of_sound_sea_level() -> (q: SpeedOfSound)
    ensures
        q.scalar == pos(SPEED_OF_SOUND_SEA_LEVEL_NANOS),
{
    SpeedOfSound { scalar: Scalar::Finite { negative: false, nanos: SPEED_OF_SOUND_SEA_LEVEL_NANOS } }
}

/// Nanos of 0.0765: the value of [`air_density_sea_level`].
pub const AIR_DENSITY_SEA_LEVEL_NANOS: u64 = 76_500_000;

/// IEEE-754 double bit pattern of 0.0765, for the double-precision surface.
pub const AIR_DENSITY_SEA_LEVEL_BITS: u64 = 0x3FB3_9581_0624_DD2F;

/// Air density at sea level (lb/ft³): 0.0765.
pub fn air_density_sea_level() -> (q: AirDensity)
    ensures
        q.scalar == pos(AIR_DENSITY_SEA_LEVEL_NANOS),
{
    AirDensity { scalar: Scalar::Finite { negative: false, nanos: AIR_DENSITY_SEA_LEVEL_NANOS } }
}

/// Nanos of 29.92: the value of [`standard_pressure`].
pub const STANDARD_PRESSURE_NANOS: u64 = 29_920_000_000;

/// IEEE-754 double bit pattern of 29.92, for the double-precision surface.
pub const STANDARD_PRESSURE_BITS: u64 = 0x403D_EB85_1EB8_51EC;

/// ICAO definition of standard pressure (inHg): 29.92.
pub fn standard_pressure() -> (q: Pressure)
    ensures
        q.scalar == pos(STANDARD_PRESSURE_NANOS),
{
    Pressure { scalar: Scalar::Finite { negative: false, nanos: STANDARD_PRESSURE_NANOS } }
}

/// Nanos of 59.0: the value of [`standard_temperature`].
pub const STANDARD_TEMPERATURE_NANOS: u64 = 59_000_000_000;

/// IEEE-754 double bit pattern of 59.0, for the double-precision surface.
pub const STANDARD_TEMPERATURE_BITS: u64 = 0x404D_8000_0000_0000;

/// ICAO definition of standard temperature (°F): 59.
pub fn standard_temperature() -> (q: Temperature)
    ensures
        q.scalar == pos(STANDARD_TEMPERATURE_NANOS),
{
    Temperature { scalar: Scalar::Finite { negative: false, nanos: STANDARD_TEMPERATURE_NANOS } }
}

} // verus!
