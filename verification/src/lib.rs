//! Oridion routes a deposit through a chain of holding accounts before it is
//! released to the destination that was fixed when the deposit was made.
//!
//! The crate holds the rules of that routing as verified functions on plain
//! values: the deposit's lifecycle, the planet-to-planet hop, the split of a
//! deposit over two or three short-lived stars and its recombination, and the
//! final withdrawal. Every operation takes the accounts it touches as one
//! value, checks all of its conditions first, and either applies all of its
//! effects or leaves every account as it was.

pub mod account;
pub mod accounts_comet;
pub mod accounts_planet;
pub mod accounts_universe;
pub mod deposit;
pub mod errors;
pub mod laws;
pub mod pubkey;
pub mod registry;
pub mod shared;
pub mod star;
pub mod variables;

pub use account::{Account, SystemAccount};
pub use accounts_comet::{
    CreateDeposit, Deposit, PlanetHop, Star, StarHopThreeEnd, StarHopThreeStart, StarHopTwoEnd,
    StarHopTwoStart, WithdrawAccounts,
};
pub use accounts_planet::{CreatePlanet, DeletePlanet, Planet};
pub use accounts_universe::{BigBang, Universe, UpdateUniverseFee};
pub use deposit::{create_deposit, planet_hop, withdraw};
pub use errors::OridionError;
pub use pubkey::{find_address, manager_pubkey, Pubkey};
pub use registry::{bang, bang_at, create_planet, create_planet_at, delete_planet, update_fee};
pub use shared::{
    clamp_percent, find_planet_program_address, find_universe_program_address,
    get_planet_program_address, get_random_percent, hop_deposit, percent_of, schedule_next,
    split_three, split_two,
};
pub use star::{
    star_hop_three_end, star_hop_three_start, star_hop_three_start_with_percent,
    star_hop_two_end, star_hop_two_start, star_hop_two_start_with_percent,
};
