use crate::accounts_comet::Deposit;
use crate::pubkey::{derived_address, find_address, program_address, seeds_view, Pubkey};
use crate::variables::{
    HOP_WINDOW, LAST_HOPPED, MODE_DELAY, PLANET_PDA_SEED_POST, PLANET_PDA_SEED_PRE, PROCESS_HOP,
    PROCESS_WITHDRAW, UNIVERSE_PDA_SEED,
};
use vstd::prelude::*;
use vstd::slice::slice_to_vec;
use vstd::string::StrSliceExecFns;
use vstd::utf8::encode_utf8;

verus! {

/// Whether a deposit moved at `now` has no time left for another hop before
/// `withdraw_at`.
pub open spec fn withdraw_is_due(now: i64, withdraw_at: i64) -> bool {
    now + HOP_WINDOW > withdraw_at
}

/// The step that follows a move at `now`.
pub open spec fn next_process_after(now: i64, withdraw_at: i64) -> u8 {
    if withdraw_is_due(now, withdraw_at) {
        PROCESS_WITHDRAW
    } else {
        PROCESS_HOP
    }
}

/// When the step that follows a move at `now` is due.
pub open spec fn next_process_at_after(now: i64, withdraw_at: i64) -> i64 {
    if withdraw_is_due(now, withdraw_at) {
        withdraw_at
    } else {
        (now + HOP_WINDOW) as i64
    }
}

/// The step that follows a move at `now`, and when it is due: the withdrawal
/// at `withdraw_at` where another hop window would pass it, else a hop one
/// window after `now`.
pub fn schedule_next(now: i64, withdraw_at: i64) -> (next: (u8, i64))
    ensures
        next.0 == next_process_after(now, withdraw_at),
        next.1 == next_process_at_after(now, withdraw_at),
{
    match now.checked_add(HOP_WINDOW) {
        Some(hop_at) => {
            if hop_at > withdraw_at {
                (PROCESS_WITHDRAW, withdraw_at)
            } else {
                (PROCESS_HOP, hop_at)
            }
        },
        None => (PROCESS_WITHDRAW, withdraw_at),
    }
}

impl Deposit {
    /// The deposit after a hop at `now`: one more hop on the count, and, for
    /// a deposit that schedules itself, the next step set. Where it is, how
    /// much it holds and where it goes do not change.
    pub open spec fn hopped(self, now: i64) -> Deposit {
        Deposit {
            hops: (self.hops + 1) as u16,
            last_process: LAST_HOPPED,
            last_process_at: now,
            next_process: if self.mode == MODE_DELAY {
                next_process_after(now, self.withdraw_at)
            } else {
                self.next_process
            },
            next_process_at: if self.mode == MODE_DELAY {
                next_process_at_after(now, self.withdraw_at)
            } else {
                self.next_process_at
            },
            ..self
        }
    }

    /// The deposit after it arrived on the planet `location` at `now`.
    pub open spec fn arrived(self, location: String, now: i64) -> Deposit {
        (Deposit { location, ..self }).hopped(now)
    }
}

/// Records a hop at `now` on the deposit.
pub fn hop_deposit(deposit_account: &mut Deposit, now: i64)
    requires
        old(deposit_account).hops < u16::MAX,
    ensures
        *final(deposit_account) == old(deposit_account).hopped(now),
{
    deposit_account.hops = deposit_account.hops + 1;
    deposit_account.last_process = LAST_HOPPED;
    deposit_account.last_process_at = now;
    if deposit_account.mode == MODE_DELAY {
        let next = schedule_next(now, deposit_account.withdraw_at);
        deposit_account.next_process = next.0;
        deposit_account.next_process_at = next.1;
    }
}

/// The last two decimal digits of a timestamp.
pub open spec fn last_two_digits(now: i64) -> int {
    (if now >= 0 {
        now as int
    } else {
        -(now as int)
    }) % 100
}

/// A raw percentage brought into the range from 10 to 90.
pub open spec fn clamped_percent(raw: int) -> int {
    if raw < 10 {
        10
    } else if raw > 90 {
        90
    } else {
        raw
    }
}

/// The percentage by which a deposit is split at `now`.
pub open spec fn percent_at(now: i64) -> u8 {
    clamped_percent(last_two_digits(now)) as u8
}

/// Brings a raw percentage into the range from 10 to 90.
pub fn clamp_percent(raw: u8) -> (percent: u8)
    ensures
        percent == clamped_percent(raw as int),
        10 <= percent <= 90,
{
    if raw < 10 {
        10
    } else if raw > 90 {
        90
    } else {
        raw
    }
}

/// The percentage by which a deposit is split at `now`: the last two digits
/// of the timestamp, brought into the range from 10 to 90. The source is
/// weak on purpose: it hides a trail and guards no secret.
pub fn get_random_percent(now: i64) -> (percent: u8)
    ensures
        percent == percent_at(now),
        10 <= percent <= 90,
{
    let rest: i64 = now % 100;
    let digits: i64 = if rest < 0 {
        -rest
    } else {
        rest
    };
    clamp_percent(digits as u8)
}

/// `percent` hundredths of `total`, rounded down.
pub open spec fn share_of(total: u64, percent: u8) -> u64 {
    (total * percent / 100) as u64
}

/// `percent` hundredths of `total`, rounded down.
pub fn percent_of(total: u64, percent: u8) -> (share: u64)
    requires
        percent <= 100,
    ensures
        share == share_of(total, percent),
        share == total * percent / 100,
        share <= total,
{
    assert(total * percent <= total * 100) by (nonlinear_arith)
        requires
            percent <= 100,
    ;
    let product: u128 = (total as u128) * (percent as u128);
    (product / 100) as u64
}

/// The two shares of `total` at `percent`: the first is `percent` hundredths,
/// rounded down, the second is the rest.
pub open spec fn two_shares(total: u64, percent: u8) -> (u64, u64) {
    (share_of(total, percent), (total - share_of(total, percent)) as u64)
}

/// Splits `total` in two at `percent`.
pub fn split_two(total: u64, percent: u8) -> (shares: (u64, u64))
    requires
        percent <= 100,
    ensures
        shares == two_shares(total, percent),
        shares.0 + shares.1 == total,
{
    let one = percent_of(total, percent);
    (one, total - one)
}

/// The three shares of `total` at `percent`. The total is split in two at
/// `percent`; the larger side (the second, where they are equal) is split
/// again at `100 - percent`, and the smaller side stays whole. The split
/// side gives the third share and the first or second; the whole side is the
/// other of those two.
pub open spec fn three_shares(total: u64, percent: u8) -> (u64, u64, u64) {
    let side_one = share_of(total, percent);
    let side_two = (total - side_one) as u64;
    let second = (100 - percent) as u8;
    if side_one > side_two {
        let one = share_of(side_one, second);
        (one, side_two, (side_one - one) as u64)
    } else {
        let two = share_of(side_two, second);
        (side_one, two, (side_two - two) as u64)
    }
}

/// Splits `total` in three at `percent`.
pub fn split_three(total: u64, percent: u8) -> (shares: (u64, u64, u64))
    requires
        percent <= 100,
    ensures
        shares == three_shares(total, percent),
        shares.0 + shares.1 + shares.2 == total,
{
    let sides = split_two(total, percent);
    let second: u8 = 100 - percent;
    if sides.0 > sides.1 {
        let inner = split_two(sides.0, second);
        (inner.0, sides.1, inner.1)
    } else {
        let inner = split_two(sides.1, second);
        (sides.0, inner.0, inner.1)
    }
}

/// The seeds of a planet's address: the planet's name, as its bytes,
/// between the two planet seeds.
pub open spec fn planet_seeds(planet_name: Seq<char>) -> Seq<Seq<u8>> {
    seq![PLANET_PDA_SEED_PRE@, encode_utf8(planet_name), PLANET_PDA_SEED_POST@]
}

/// The seeds of the universe's address.
pub open spec fn universe_seeds() -> Seq<Seq<u8>> {
    seq![UNIVERSE_PDA_SEED@]
}

/// The address of the planet with the given name under a program, or `None`
/// where the name has none.
pub open spec fn planet_address(planet_name: Seq<char>, program_id: Pubkey) -> Option<Pubkey> {
    derived_address(planet_seeds(planet_name), program_id)
}

/// The address of the universe under a program, or `None` where it has none.
pub open spec fn universe_address(program_id: Pubkey) -> Option<Pubkey> {
    derived_address(universe_seeds(), program_id)
}

/// Builds the seeds of a planet's address.
fn planet_seed_list(planet_name: &String) -> (seeds: Vec<Vec<u8>>)
    ensures
        seeds_view(seeds@) == planet_seeds(planet_name@),
{
    let mut seeds: Vec<Vec<u8>> = Vec::new();
    seeds.push(slice_to_vec(PLANET_PDA_SEED_PRE.as_slice()));
    seeds.push(planet_name.as_str().as_bytes_vec());
    seeds.push(slice_to_vec(PLANET_PDA_SEED_POST.as_slice()));
    assert(seeds_view(seeds@) =~= planet_seeds(planet_name@));
    seeds
}

/// The address of the planet with the given name, for a name that has one.
pub fn get_planet_program_address(planet_name: &String, program_id: &Pubkey) -> (pk: Pubkey)
    requires
        program_address(planet_seeds(planet_name@), program_id@) is Some,
    ensures
        Some(pk) == planet_address(planet_name@, *program_id),
{
    let seeds = planet_seed_list(planet_name);
    find_address(&seeds, program_id).unwrap()
}

/// The address of the planet with the given name, or `None` where the name
/// has none.
pub fn find_planet_program_address(planet_name: &String, program_id: &Pubkey) -> (found: Option<
    Pubkey,
>)
    ensures
        found == planet_address(planet_name@, *program_id),
{
    let seeds = planet_seed_list(planet_name);
    match find_address(&seeds, program_id) {
        Some(_) => Some(get_planet_program_address(planet_name, program_id)),
        None => None,
    }
}

/// The address of the universe, or `None` where it has none.
pub fn find_universe_program_address(program_id: &Pubkey) -> (found: Option<Pubkey>)
    ensures
        found == universe_address(*program_id),
{
    let mut seeds: Vec<Vec<u8>> = Vec::new();
    seeds.push(slice_to_vec(UNIVERSE_PDA_SEED.as_slice()));
    assert(seeds_view(seeds@) =~= universe_seeds());
    find_address(&seeds, program_id)
}

} // verus!
