//! Material streams.
//!
//! A stream is a directed material connection between two blocks of the
//! simulation, optionally carrying a resolved thermodynamic state. Blocks
//! are referred to by the identifiers the simulation orchestrator assigns,
//! so that two streams are the same exactly when they link the same blocks.

use vstd::prelude::*;

use crate::component::Chemical;
use crate::simulation::BlockId;
use crate::units::AmountOfSubstance;
use crate::units::Mass;
use crate::units::Pressure;
use crate::units::Temperature;
use crate::units::Volume;

verus! {

/// A directed material connection between two blocks.
#[derive(Clone, Copy, Debug, PartialEq, Eq, Structural)]
pub struct Stream {
    /// Identifier of the source block.
    pub from: BlockId,
    /// Identifier of the destination block.
    pub to: BlockId,
}

impl Stream {
    /// Build a stream linking the two given blocks.
    pub fn new(from: BlockId, to: BlockId) -> (r: Stream)
        ensures
            r.from == from,
            r.to == to,
    {
        Stream { from, to }
    }
}

/// One chemical species' share of a stream: the chemical itself and its
/// quantities.
pub struct ComponentData {
    /// Chemical species; carries the intrinsic properties.
    pub chemical_species: Chemical,
    /// Mass quantity.
    pub mass_quantity: Mass,
    /// Molar quantity.
    pub molar_quantity: AmountOfSubstance,
    /// Volumetric quantity.
    pub vol_quantity: Volume,
    /// Partial pressure.
    pub partial_pressure: Pressure,
}

/// The total mass of a composition, in micrograms.
pub open spec fn sum_mass(s: Seq<ComponentData>) -> int
    decreases s.len(),
{
    if s.len() == 0 {
        0
    } else {
        sum_mass(s.drop_last()) + s.last().mass_quantity@
    }
}

/// The total molar amount of a composition, in micromoles.
pub open spec fn sum_moles(s: Seq<ComponentData>) -> int
    decreases s.len(),
{
    if s.len() == 0 {
        0
    } else {
        sum_moles(s.drop_last()) + s.last().molar_quantity@
    }
}

/// The total volume of a composition, in micro cubic metres.
pub open spec fn sum_volume(s: Seq<ComponentData>) -> int
    decreases s.len(),
{
    if s.len() == 0 {
        0
    } else {
        sum_volume(s.drop_last()) + s.last().vol_quantity@
    }
}

/// The thermodynamic state of one stream: its conditions, its composition,
/// and totals derivable from the composition.
pub struct StreamThermoState {
    /// Pressure of the state.
    pub pressure: Option<Pressure>,
    /// Temperature of the state.
    pub temperature: Option<Temperature>,
    /// Information about each component within the stream.
    pub mass_list: Vec<ComponentData>,
    /// Total mass in the stream, once computed.
    pub total_mass: Option<Mass>,
    /// Total moles in the stream, once computed.
    pub total_mol: Option<AmountOfSubstance>,
    /// Total volume in the stream, once computed.
    pub total_volume: Option<Volume>,
}

impl StreamThermoState {
    /// The total mass of the composition; fails only when the sum leaves
    /// the representable range.
    pub fn computed_total_mass(&self) -> (r: Option<Mass>)
        ensures
            r == if i64::MIN <= sum_mass(self.mass_list@) <= i64::MAX {
                Some(Mass { micrograms: sum_mass(self.mass_list@) as i64 })
            } else {
                None::<Mass>
            },
    {
        let mut acc: i128 = 0;
        let mut i: usize = 0;
        while i < self.mass_list.len()
            invariant
                i <= self.mass_list@.len(),
                acc == sum_mass(self.mass_list@.take(i as int)),
                -(i as int) * 0x8000_0000_0000_0000 <= acc <= (i as int) * 0x8000_0000_0000_0000,
            decreases self.mass_list@.len() - i,
        {
            proof {
                assert(self.mass_list@.take(i + 1 as int).drop_last() == self.mass_list@.take(
                    i as int,
                ));
                assert(self.mass_list@.take(i + 1 as int).last() == self.mass_list@[i as int]);
            }
            acc = acc + self.mass_list[i].mass_quantity.micrograms as i128;
            i += 1;
        }
        proof {
            assert(self.mass_list@.take(self.mass_list@.len() as int) == self.mass_list@);
        }
        if acc >= i64::MIN as i128 && acc <= i64::MAX as i128 {
            Some(Mass { micrograms: acc as i64 })
        } else {
            None
        }
    }

    /// The total molar amount of the composition; fails only when the sum
    /// leaves the representable range.
    pub fn computed_total_mol(&self) -> (r: Option<AmountOfSubstance>)
        ensures
            r == if i64::MIN <= sum_moles(self.mass_list@) <= i64::MAX {
                Some(AmountOfSubstance { micromoles: sum_moles(self.mass_list@) as i64 })
            } else {
                None::<AmountOfSubstance>
            },
    {
        let mut acc: i128 = 0;
        let mut i: usize = 0;
        while i < self.mass_list.len()
            invariant
                i <= self.mass_list@.len(),
                acc == sum_moles(self.mass_list@.take(i as int)),
                -(i as int) * 0x8000_0000_0000_0000 <= acc <= (i as int) * 0x8000_0000_0000_0000,
            decreases self.mass_list@.len() - i,
        {
            proof {
                assert(self.mass_list@.take(i + 1 as int).drop_last() == self.mass_list@.take(
                    i as int,
                ));
                assert(self.mass_list@.take(i + 1 as int).last() == self.mass_list@[i as int]);
            }
            acc = acc + self.mass_list[i].molar_quantity.micromoles as i128;
            i += 1;
        }
        proof {
            assert(self.mass_list@.take(self.mass_list@.len() as int) == self.mass_list@);
        }
        if acc >= i64::MIN as i128 && acc <= i64::MAX as i128 {
            Some(AmountOfSubstance { micromoles: acc as i64 })
        } else {
            None
        }
    }

    /// The total volume of the composition; fails only when the sum leaves
    /// the representable range.
    pub fn computed_total_volume(&self) -> (r: Option<Volume>)
        ensures
            r == if i64::MIN <= sum_volume(self.mass_list@) <= i64::MAX {
                Some(Volume { micro_cubic_meters: sum_volume(self.mass_list@) as i64 })
            } else {
                None::<Volume>
            },
    {
        let mut acc: i128 = 0;
        let mut i: usize = 0;
        while i < self.mass_list.len()
            invariant
                i <= self.mass_list@.len(),
                acc == sum_volume(self.mass_list@.take(i as int)),
                -(i as int) * 0x8000_0000_0000_0000 <= acc <= (i as int) * 0x8000_0000_0000_0000,
            decreases self.mass_list@.len() - i,
        {
            proof {
                assert(self.mass_list@.take(i + 1 as int).drop_last() == self.mass_list@.take(
                    i as int,
                ));
                assert(self.mass_list@.take(i + 1 as int).last() == self.mass_list@[i as int]);
            }
            acc = acc + self.mass_list[i].vol_quantity.micro_cubic_meters as i128;
            i += 1;
        }
        proof {
            assert(self.mass_list@.take(self.mass_list@.len() as int) == self.mass_list@);
        }
        if acc >= i64::MIN as i128 && acc <= i64::MAX as i128 {
            Some(Volume { micro_cubic_meters: acc as i64 })
        } else {
            None
        }
    }
}

} // verus!
