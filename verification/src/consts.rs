use vstd::prelude::*;

verus! {

/// The table that holds races.
pub const RACE_TABLE: &'static str = "race";

/// The table that holds weapons.
pub const WEAPON_TABLE: &'static str = "weapon";

} // verus!
