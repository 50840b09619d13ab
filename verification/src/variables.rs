use vstd::prelude::*;

verus! {

/// The address of the manager, the one operator that may drive hops,
/// withdrawals and the registry.
pub const MANAGER_PUBKEY_BYTES: [u8; 32] = [
    12, 0, 214, 190, 136, 235, 11, 206, 222, 88, 76, 87, 197, 80, 132, 121, 148, 83, 132, 213, 122,
    238, 222, 236, 195, 133, 139, 247, 144, 32, 174, 222,
];

/// Seed of the universe's address: `_x_ORIDION_x_`.
pub const UNIVERSE_PDA_SEED: [u8; 13] = [95, 120, 95, 79, 82, 73, 68, 73, 79, 78, 95, 120, 95];

/// Seed before a planet's name: `_PLA_`.
pub const PLANET_PDA_SEED_PRE: [u8; 5] = [95, 80, 76, 65, 95];

/// Seed after a planet's name: `_NET_`.
pub const PLANET_PDA_SEED_POST: [u8; 5] = [95, 78, 69, 84, 95];

/// Seed before a depositor's address: `_DEPOSIT_`.
pub const DEPOSIT_PDA_SEED_PRE: [u8; 9] = [95, 68, 69, 80, 79, 83, 73, 84, 95];

/// Seed after a depositor's address: `_TRAVEL_`.
pub const DEPOSIT_PDA_SEED_POST: [u8; 8] = [95, 84, 82, 65, 86, 69, 76, 95];

/// Seed before a star's identifier: `_ST_`.
pub const STAR_SEED_PRE: [u8; 4] = [95, 83, 84, 95];

/// Seed after a star's identifier: `_AR_`.
pub const STAR_SEED_POST: [u8; 4] = [95, 65, 82, 95];

// Sizes of the parts of a stored record, in bytes.
pub const DISCRIMINATOR_LENGTH: usize = 8;

pub const PUBLIC_KEY_LENGTH: usize = 32;

/// Ten characters of at most four bytes each.
pub const PLANET_NAME: usize = 10 * 4;

/// The longest planet name, in bytes.
pub const MAX_PLANET_TITLE_LENGTH: usize = 10;

pub const TIMESTAMP_LENGTH: usize = 8;

/// The length prefix of a stored string.
pub const STRING_LENGTH_PREFIX: usize = 4;

pub const LAMPORT_LENGTH: usize = 8;

pub const U8_LENGTH: usize = 1;

pub const U64_LENGTH: usize = 8;

/// The universe's list of planets: a prefix and ten names of six bytes.
pub const PLANETS_VEC_LENGTH: usize = 104;

/// The balance of a planet that holds no deposit.
pub const EMPTY_PLANET_LAMPORTS: u64 = 1593840;

/// A planet keeps this much beyond a deposit that it pays out.
pub const PLANET_RESERVE_LAMPORTS: u64 = 1;

/// Seconds between two hops of a deposit that schedules itself.
pub const HOP_WINDOW: i64 = 180;

/// The hop count of a new deposit.
pub const INITIAL_HOPS: u16 = 2;

/// `Deposit::mode`: the deposit schedules its own hops until `withdraw_at`.
pub const MODE_DELAY: u8 = 1;

/// `Deposit::mode`: the deposit is moved at once by its operator.
pub const MODE_INSTANT: u8 = 2;

/// `Deposit::mode`: the deposit is moved by hand.
pub const MODE_MANUAL: u8 = 3;

/// `Deposit::next_process`: a hop is due next.
pub const PROCESS_HOP: u8 = 0;

/// `Deposit::next_process`: the withdrawal is due next.
pub const PROCESS_WITHDRAW: u8 = 1;

/// `Deposit::last_process`: the deposit was made and has not moved.
pub const LAST_DEPOSITED: u8 = 0;

/// `Deposit::last_process`: the deposit has hopped.
pub const LAST_HOPPED: u8 = 1;

/// The fee of a planet hop in a new universe.
pub const DEFAULT_HOP_PLANET_FEE: u64 = 1000000;

/// The fee of a hop over two stars in a new universe.
pub const DEFAULT_HOP_STAR_TWO_FEE: u64 = 2000000;

/// The fee of a hop over three stars in a new universe.
pub const DEFAULT_HOP_STAR_THREE_FEE: u64 = 3000000;

} // verus!
