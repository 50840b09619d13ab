use crate::account::{Account, SystemAccount};
use crate::accounts_planet::{name_length, Planet};
use crate::accounts_universe::Universe;
use crate::pubkey::Pubkey;
use crate::variables::MAX_PLANET_TITLE_LENGTH;
use vstd::prelude::*;

verus! {

/// One deposit on its way to its destination.
#[derive(Clone, Debug, PartialEq, Eq)]
pub struct Deposit {
    /// `MODE_DELAY`, `MODE_INSTANT` or `MODE_MANUAL`.
    pub mode: u8,
    /// When the next step is due.
    pub next_process_at: i64,
    /// The next step: `PROCESS_HOP` or `PROCESS_WITHDRAW`.
    pub next_process: u8,
    /// The last step: `LAST_DEPOSITED` or `LAST_HOPPED`.
    pub last_process: u8,
    /// The name of the planet that holds the deposit.
    pub location: String,
    /// The delay that the depositor asked for, in seconds.
    pub delay: u32,
    /// The hop count.
    pub hops: u16,
    /// When the deposit is to be withdrawn.
    pub withdraw_at: i64,
    /// When the deposit was made.
    pub created_at: i64,
    /// When the deposit last moved.
    pub last_process_at: i64,
    /// The deposited amount, in lamports.
    pub lamports: u64,
    /// Where the deposit is released to.
    pub destination: Pubkey,
}

impl Deposit {
    /// Whether the name of the deposit's planet fits the room that a record
    /// has for it.
    pub open spec fn well_formed(self) -> bool {
        name_length(self.location@) <= MAX_PLANET_TITLE_LENGTH
    }
}

/// A star: a short-lived account that holds one share of a split deposit.
#[derive(Clone, Copy, Debug, PartialEq, Eq)]
pub struct Star {
    /// The share, in lamports.
    pub amount: u64,
    /// The operator who split the deposit and alone may join it again.
    pub manager: Pubkey,
}

/// The accounts of `create_deposit`.
#[derive(Clone, Debug, PartialEq, Eq)]
pub struct CreateDeposit {
    /// The deposit, not yet created.
    pub deposit: Account<Deposit>,
    /// The depositor, who pays the amount.
    pub creator: SystemAccount,
    /// The universe, through which the amount passes.
    pub universe: Account<Universe>,
    /// The planet on which the deposit starts.
    pub planet: Account<Planet>,
    /// Where the deposit is to be released to.
    pub destination: SystemAccount,
}

/// The accounts of `planet_hop`.
#[derive(Clone, Debug, PartialEq, Eq)]
pub struct PlanetHop {
    pub deposit: Account<Deposit>,
    pub to_planet: Account<Planet>,
    pub from_planet: Account<Planet>,
    /// The operator, who must be the manager.
    pub manager: SystemAccount,
}

/// The accounts of `withdraw`.
#[derive(Clone, Debug, PartialEq, Eq)]
pub struct WithdrawAccounts {
    /// The deposit, which is closed: its balance goes to the operator.
    pub deposit: Account<Deposit>,
    pub from_planet: Account<Planet>,
    /// The account that is paid, which must be the deposit's destination.
    pub destination: SystemAccount,
    /// The operator, who must be the manager.
    pub manager: SystemAccount,
}

/// The accounts of `star_hop_two_start`.
#[derive(Clone, Debug, PartialEq, Eq)]
pub struct StarHopTwoStart {
    pub deposit: Account<Deposit>,
    pub from_planet: Account<Planet>,
    /// The first star, not yet created.
    pub star_one: Account<Star>,
    /// The second star, not yet created.
    pub star_two: Account<Star>,
    /// The operator, who must be the manager.
    pub manager: SystemAccount,
}

/// The accounts of `star_hop_two_end`.
#[derive(Clone, Debug, PartialEq, Eq)]
pub struct StarHopTwoEnd {
    pub deposit: Account<Deposit>,
    pub to_planet: Account<Planet>,
    /// The first star, which is closed.
    pub star_one: Account<Star>,
    /// The second star, which is closed.
    pub star_two: Account<Star>,
    /// The operator, who must be the manager and the one recorded on the stars.
    pub manager: SystemAccount,
}

/// The accounts of `star_hop_three_start`.
#[derive(Clone, Debug, PartialEq, Eq)]
pub struct StarHopThreeStart {
    pub deposit: Account<Deposit>,
    pub from_planet: Account<Planet>,
    /// The first star, not yet created.
    pub star_one: Account<Star>,
    /// The second star, not yet created.
    pub star_two: Account<Star>,
    /// The third star, not yet created.
    pub star_three: Account<Star>,
    /// The operator, who must be the manager.
    pub manager: SystemAccount,
}

/// The accounts of `star_hop_three_end`.
#[derive(Clone, Debug, PartialEq, Eq)]
pub struct StarHopThreeEnd {
    pub deposit: Account<Deposit>,
    pub to_planet: Account<Planet>,
    /// The first star, which is closed.
    pub star_one: Account<Star>,
    /// The second star, which is closed.
    pub star_two: Account<Star>,
    /// The third star, which is closed.
    pub star_three: Account<Star>,
    /// The operator, who must be the manager and the one recorded on the stars.
    pub manager: SystemAccount,
}

} // verus!
