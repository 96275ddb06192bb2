//! Fixed-point physical quantities.
//!
//! Every quantity is stored as a signed 64-bit count of a fixed SI subunit
//! (micrograms, microjoules, and so on), so that unit conversions from the
//! sources this library deals with (pounds, kilojoules, degrees Celsius,
//! grams per mole) are exact integer arithmetic.

use vstd::prelude::*;

verus! {

/// One pound, expressed in micrograms (0.45359237 kg exactly).
pub const MICROGRAMS_PER_POUND: i64 = 453_592_370;

/// One kilogram, expressed in micrograms.
pub const MICROGRAMS_PER_KILOGRAM: i64 = 1_000_000_000;

/// One joule, expressed in microjoules.
pub const MICROJOULES_PER_JOULE: i64 = 1_000_000;

/// One kilojoule, expressed in microjoules.
pub const MICROJOULES_PER_KILOJOULE: i64 = 1_000_000_000;

/// A mass, stored as micrograms.
#[derive(Clone, Copy, Debug, PartialEq, Eq, Structural)]
pub struct Mass {
    /// Count of micrograms.
    pub micrograms: i64,
}

impl Mass {
    /// The mass as a mathematical count of micrograms.
    pub open spec fn view(&self) -> int {
        self.micrograms as int
    }

    /// Build a mass from a whole number of micrograms.
    pub fn from_micrograms(micrograms: i64) -> (r: Mass)
        ensures
            r@ == micrograms as int,
    {
        Mass { micrograms }
    }

    /// Build a mass from a whole number of kilograms.
    pub fn from_kilograms(kilograms: i64) -> (r: Mass)
        requires
            kilograms * MICROGRAMS_PER_KILOGRAM <= i64::MAX,
            i64::MIN <= kilograms * MICROGRAMS_PER_KILOGRAM,
        ensures
            r@ == kilograms * MICROGRAMS_PER_KILOGRAM,
    {
        Mass { micrograms: kilograms * MICROGRAMS_PER_KILOGRAM }
    }

    /// Build a mass from a whole number of avoirdupois pounds.
    pub fn from_pounds(pounds: i64) -> (r: Mass)
        requires
            pounds * MICROGRAMS_PER_POUND <= i64::MAX,
            i64::MIN <= pounds * MICROGRAMS_PER_POUND,
        ensures
            r@ == pounds * MICROGRAMS_PER_POUND,
    {
        Mass { micrograms: pounds * MICROGRAMS_PER_POUND }
    }
}

/// An energy, stored as microjoules.
#[derive(Clone, Copy, Debug, PartialEq, Eq, Structural)]
pub struct Energy {
    /// Count of microjoules.
    pub microjoules: i64,
}

impl Energy {
    /// The energy as a mathematical count of microjoules.
    pub open spec fn view(&self) -> int {
        self.microjoules as int
    }

    /// Build an energy from a whole number of microjoules.
    pub fn from_microjoules(microjoules: i64) -> (r: Energy)
        ensures
            r@ == microjoules as int,
    {
        Energy { microjoules }
    }

    /// Build an energy from a whole number of joules.
    pub fn from_joules(joules: i64) -> (r: Energy)
        requires
            joules * MICROJOULES_PER_JOULE <= i64::MAX,
            i64::MIN <= joules * MICROJOULES_PER_JOULE,
        ensures
            r@ == joules * MICROJOULES_PER_JOULE,
    {
        Energy { microjoules: joules * MICROJOULES_PER_JOULE }
    }

    /// Build an energy from a whole number of kilojoules.
    pub fn from_kilojoules(kilojoules: i64) -> (r: Energy)
        requires
            kilojoules * MICROJOULES_PER_KILOJOULE <= i64::MAX,
            i64::MIN <= kilojoules * MICROJOULES_PER_KILOJOULE,
        ensures
            r@ == kilojoules * MICROJOULES_PER_KILOJOULE,
    {
        Energy { microjoules: kilojoules * MICROJOULES_PER_KILOJOULE }
    }
}

/// Offset between the Celsius and Kelvin scales, in microkelvins
/// (273.15 K).
pub const MICROKELVINS_PER_ZERO_CELSIUS: i64 = 273_150_000;

/// An amount of substance, stored as micromoles.
#[derive(Clone, Copy, Debug, PartialEq, Eq, Structural)]
pub struct AmountOfSubstance {
    /// Count of micromoles.
    pub micromoles: i64,
}

impl AmountOfSubstance {
    /// The amount as a mathematical count of micromoles.
    pub open spec fn view(&self) -> int {
        self.micromoles as int
    }

    /// Build an amount of substance from a whole number of micromoles.
    pub fn from_micromoles(micromoles: i64) -> (r: AmountOfSubstance)
        ensures
            r@ == micromoles as int,
    {
        AmountOfSubstance { micromoles }
    }
}

/// A volume, stored as micro cubic metres (millilitres).
#[derive(Clone, Copy, Debug, PartialEq, Eq, Structural)]
pub struct Volume {
    /// Count of micro cubic metres.
    pub micro_cubic_meters: i64,
}

impl Volume {
    /// The volume as a mathematical count of micro cubic metres.
    pub open spec fn view(&self) -> int {
        self.micro_cubic_meters as int
    }

    /// Build a volume from a whole number of micro cubic metres.
    pub fn from_micro_cubic_meters(micro_cubic_meters: i64) -> (r: Volume)
        ensures
            r@ == micro_cubic_meters as int,
    {
        Volume { micro_cubic_meters }
    }
}

/// A pressure, stored as micropascals.
#[derive(Clone, Copy, Debug, PartialEq, Eq, Structural)]
pub struct Pressure {
    /// Count of micropascals.
    pub micropascals: i64,
}

impl Pressure {
    /// The pressure as a mathematical count of micropascals.
    pub open spec fn view(&self) -> int {
        self.micropascals as int
    }

    /// Build a pressure from a whole number of micropascals.
    pub fn from_micropascals(micropascals: i64) -> (r: Pressure)
        ensures
            r@ == micropascals as int,
    {
        Pressure { micropascals }
    }
}

/// A thermodynamic temperature, stored as microkelvins.
#[derive(Clone, Copy, Debug, PartialEq, Eq, Structural)]
pub struct Temperature {
    /// Count of microkelvins.
    pub microkelvins: i64,
}

impl Temperature {
    /// The temperature as a mathematical count of microkelvins.
    pub open spec fn view(&self) -> int {
        self.microkelvins as int
    }

    /// Build a temperature from a whole number of microkelvins.
    pub fn from_microkelvins(microkelvins: i64) -> (r: Temperature)
        ensures
            r@ == microkelvins as int,
    {
        Temperature { microkelvins }
    }

    /// Convert a Celsius reading (in microdegrees) to Kelvin by adding
    /// 273.15 K; fails only when the sum leaves the representable range.
    pub fn from_micro_degrees_celsius(micro_celsius: i64) -> (r: Option<Temperature>)
        ensures
            r == if micro_celsius + MICROKELVINS_PER_ZERO_CELSIUS <= i64::MAX {
                Some(
                    Temperature {
                        microkelvins: (micro_celsius + MICROKELVINS_PER_ZERO_CELSIUS) as i64,
                    },
                )
            } else {
                None::<Temperature>
            },
    {
        match micro_celsius.checked_add(MICROKELVINS_PER_ZERO_CELSIUS) {
            Some(microkelvins) => Some(Temperature { microkelvins }),
            None => None,
        }
    }
}

/// A molar mass, stored as nanokilograms per mole (equal in count to
/// micrograms per mole).
#[derive(Clone, Copy, Debug, PartialEq, Eq, Structural)]
pub struct MolarMass {
    /// Count of nanokilograms per mole.
    pub nano_kilograms_per_mole: i64,
}

impl MolarMass {
    /// The molar mass as a mathematical count of nanokilograms per mole.
    pub open spec fn view(&self) -> int {
        self.nano_kilograms_per_mole as int
    }

    /// Convert a reading in micrograms per mole to kilograms-based units:
    /// dividing by 1000 grams per kilogram turns micrograms per mole into
    /// nanokilograms per mole one for one.
    pub fn from_micro_grams_per_mole(micro_grams_per_mole: i64) -> (r: MolarMass)
        ensures
            r@ == micro_grams_per_mole as int,
    {
        MolarMass { nano_kilograms_per_mole: micro_grams_per_mole }
    }
}

/// A mass density, stored as micro kilograms per cubic metre.
#[derive(Clone, Copy, Debug, PartialEq, Eq, Structural)]
pub struct Density {
    /// Count of micro kilograms per cubic metre.
    pub micro_kilograms_per_cubic_meter: i64,
}

impl Density {
    /// The density as a mathematical count of micro kilograms per cubic
    /// metre.
    pub open spec fn view(&self) -> int {
        self.micro_kilograms_per_cubic_meter as int
    }

    /// Build a density from a reading in micro kilograms per cubic metre,
    /// the unit the chemical database already reports.
    pub fn from_micro_kilograms_per_cubic_meter(reading: i64) -> (r: Density)
        ensures
            r@ == reading as int,
    {
        Density { micro_kilograms_per_cubic_meter: reading }
    }
}

} // verus!
