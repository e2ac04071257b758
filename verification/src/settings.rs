//! The controller's configuration.

use vstd::prelude::*;

verus! {

/// Rotation per device count of mouse motion and per pixel of window scale,
/// in millionths of a degree, that `MovementSettings::default` gives.
pub const DEFAULT_SENSITIVITY: i32 = 150;

/// Speed, in thousandths of a world unit per second, that
/// `MovementSettings::default` gives.
pub const DEFAULT_SPEED: i32 = 2000;

/// Why a pair of settings was refused.
#[derive(Clone, Copy, Debug, PartialEq, Eq, Structural)]
pub enum ConfigError {
    /// The sensitivity was zero or negative.
    NonPositiveSensitivity,
    /// The sensitivity was positive, the speed zero or negative.
    NonPositiveSpeed,
}

/// How fast the camera turns and how fast the body moves.
///
/// Both values are strictly positive, and nothing changes them once the
/// settings exist.
#[derive(Clone, Copy, Debug)]
pub struct MovementSettings {
    sensitivity: i32,
    speed: i32,
}

impl MovementSettings {
    #[verifier::type_invariant]
    spec fn positive(self) -> bool {
        self.sensitivity > 0 && self.speed > 0
    }

    /// The sensitivity: millionths of a degree per device count and per pixel
    /// of window scale.
    pub closed spec fn spec_sensitivity(&self) -> i32 {
        self.sensitivity
    }

    /// The speed: thousandths of a world unit per second.
    pub closed spec fn spec_speed(&self) -> i32 {
        self.speed
    }

    /// Settings with the given sensitivity and speed, or the reason why there
    /// are none: the sensitivity is looked at first.
    pub fn new(sensitivity: i32, speed: i32) -> (r: Result<MovementSettings, ConfigError>)
        ensures
            sensitivity <= 0 <==> r == Err::<MovementSettings, ConfigError>(
                ConfigError::NonPositiveSensitivity,
            ),
            sensitivity > 0 && speed <= 0 <==> r == Err::<MovementSettings, ConfigError>(
                ConfigError::NonPositiveSpeed,
            ),
            sensitivity > 0 && speed > 0 <==> r.is_ok(),
            r.is_ok() ==> r.unwrap().spec_sensitivity() == sensitivity
                && r.unwrap().spec_speed() == speed,
    {
        if sensitivity <= 0 {
            Err(ConfigError::NonPositiveSensitivity)
        } else if speed <= 0 {
            Err(ConfigError::NonPositiveSpeed)
        } else {
            Ok(MovementSettings { sensitivity, speed })
        }
    }

    /// The sensitivity, which is positive.
    #[verifier::when_used_as_spec(spec_sensitivity)]
    pub fn sensitivity(&self) -> (s: i32)
        ensures
            s == self.spec_sensitivity(),
            s > 0,
    {
        proof {
            use_type_invariant(self);
        }
        self.sensitivity
    }

    /// The speed, which is positive.
    #[verifier::when_used_as_spec(spec_speed)]
    pub fn speed(&self) -> (s: i32)
        ensures
            s == self.spec_speed(),
            s > 0,
    {
        proof {
            use_type_invariant(self);
        }
        self.speed
    }
}

impl Default for MovementSettings {
    /// The documented defaults.
    fn default() -> (r: MovementSettings)
        ensures
            r.spec_sensitivity() == DEFAULT_SENSITIVITY,
            r.spec_speed() == DEFAULT_SPEED,
    {
        MovementSettings { sensitivity: DEFAULT_SENSITIVITY, speed: DEFAULT_SPEED }
    }
}

} // verus!
