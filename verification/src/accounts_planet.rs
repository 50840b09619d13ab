use crate::account::{Account, SystemAccount};
use crate::accounts_universe::Universe;
use crate::pubkey::Pubkey;
use crate::variables::MAX_PLANET_TITLE_LENGTH;
use vstd::prelude::*;
use vstd::utf8::encode_utf8;

verus! {

/// A planet: a lasting account that holds the deposits located on it.
#[derive(Clone, Debug, PartialEq, Eq)]
pub struct Planet {
    /// The planet's name, by which deposits record where they are.
    pub name: String,
    /// The planet's address.
    pub pda: Pubkey,
    /// When the planet was created.
    pub created: i64,
    /// The bump seed of the planet's address.
    pub bump: u8,
    /// How many deposits have arrived here.
    pub visits: u64,
}

/// The length of a name, in bytes.
pub open spec fn name_length(name: Seq<char>) -> nat {
    encode_utf8(name).len()
}

impl Planet {
    /// Whether the planet's name fits the room that a record has for it.
    pub open spec fn well_formed(self) -> bool {
        name_length(self.name@) <= MAX_PLANET_TITLE_LENGTH
    }

    /// The planet after one more deposit arrived.
    pub open spec fn visited(self) -> Planet {
        Planet { visits: (self.visits + 1) as u64, ..self }
    }
}

/// The accounts of `create_planet`.
#[derive(Clone, Debug, PartialEq, Eq)]
pub struct CreatePlanet {
    /// The planet, not yet created.
    pub planet: Account<Planet>,
    pub universe: Account<Universe>,
    /// The operator, who must be the manager.
    pub creator: SystemAccount,
}

/// The accounts of `delete_planet`.
#[derive(Clone, Debug, PartialEq, Eq)]
pub struct DeletePlanet {
    /// The planet, which is closed: its balance goes to the operator.
    pub planet: Account<Planet>,
    pub universe: Account<Universe>,
    /// The operator, who must be the manager.
    pub creator: SystemAccount,
}

} // verus!
