use crate::account::{Account, SystemAccount};
use crate::accounts_comet::{
    Star, StarHopThreeEnd, StarHopThreeStart, StarHopTwoEnd, StarHopTwoStart,
};
use crate::errors::OridionError;
use crate::pubkey::{manager_pubkey, Pubkey};
use crate::shared::{
    clamp_percent, clamped_percent, get_random_percent, hop_deposit, percent_at, split_three,
    split_two, three_shares, two_shares,
};
use vstd::prelude::*;

verus! {

/// A star account after it was created with its share: the share is added
/// to what the account held, and recorded with the operator.
pub open spec fn star_opened(pre: Account<Star>, share: u64, manager: Pubkey) -> Account<Star> {
    Account {
        lamports: (pre.lamports + share) as u64,
        data: Some(Star { amount: share, manager }),
    }
}

/// A star account after it was closed: no record and no balance.
pub open spec fn star_closed() -> Account<Star> {
    Account { lamports: 0, data: None }
}

/// What a star holds beyond its recorded share.
pub open spec fn star_residue(star: Account<Star>) -> int {
    star.lamports - star.data->0.amount
}

/// The percentage that a raw value stands for: the value brought into the
/// range from 10 to 90.
pub open spec fn split_percent(raw_percent: u8) -> u8 {
    clamped_percent(raw_percent as int) as u8
}

/// What the start of a hop over two stars does, or why it refuses.
///
/// The operator must be the manager, the deposit and its planet must exist,
/// the stars must not, and their identifiers must differ. The planet gives
/// up the deposit's amount; each star receives its share and records it with
/// the operator. The deposit itself does not change.
pub open spec fn star_hop_two_start_spec(
    pre: StarHopTwoStart,
    star_one: Seq<char>,
    star_two: Seq<char>,
    raw_percent: u8,
) -> Result<StarHopTwoStart, OridionError> {
    if pre.manager.key != manager_pubkey() {
        Err(OridionError::AuthorityMismatch)
    } else if pre.deposit.data is None || pre.from_planet.data is None {
        Err(OridionError::AccountNotInitialized)
    } else if pre.star_one.data is Some || pre.star_two.data is Some {
        Err(OridionError::AccountAlreadyInUse)
    } else if star_one == star_two {
        Err(OridionError::HopErrorStarsMustBeUnique)
    } else {
        let amount = pre.deposit.data->0.lamports;
        let shares = two_shares(amount, split_percent(raw_percent));
        if pre.from_planet.lamports < amount || pre.star_one.lamports + shares.0 > u64::MAX
            || pre.star_two.lamports + shares.1 > u64::MAX {
            Err(OridionError::ArithmeticOverflow)
        } else {
            Ok(
                StarHopTwoStart {
                    deposit: pre.deposit,
                    from_planet: Account {
                        lamports: (pre.from_planet.lamports - amount) as u64,
                        ..pre.from_planet
                    },
                    star_one: star_opened(pre.star_one, shares.0, pre.manager.key),
                    star_two: star_opened(pre.star_two, shares.1, pre.manager.key),
                    manager: pre.manager,
                },
            )
        }
    }
}

/// Starts a hop over two stars with a percentage of the caller's choice,
/// which is brought into the range from 10 to 90.
pub fn star_hop_two_start_with_percent(
    ctx: &mut StarHopTwoStart,
    star_one: String,
    star_two: String,
    raw_percent: u8,
) -> (r: Result<(), OridionError>)
    ensures
        match star_hop_two_start_spec(*old(ctx), star_one@, star_two@, raw_percent) {
            Ok(post) => r is Ok && *final(ctx) == post,
            Err(e) => r == Err::<(), OridionError>(e) && *final(ctx) == *old(ctx),
        },
{
    if ctx.manager.key != manager_pubkey() {
        return Err(OridionError::AuthorityMismatch);
    }
    let amount = match &ctx.deposit.data {
        Some(deposit) => deposit.lamports,
        None => {
            return Err(OridionError::AccountNotInitialized);
        },
    };
    if ctx.from_planet.data.is_none() {
        return Err(OridionError::AccountNotInitialized);
    }
    if ctx.star_one.data.is_some() || ctx.star_two.data.is_some() {
        return Err(OridionError::AccountAlreadyInUse);
    }
    if star_one == star_two {
        return Err(OridionError::HopErrorStarsMustBeUnique);
    }
    let shares = split_two(amount, clamp_percent(raw_percent));
    if ctx.from_planet.lamports < amount || ctx.star_one.lamports > u64::MAX - shares.0
        || ctx.star_two.lamports > u64::MAX - shares.1 {
        return Err(OridionError::ArithmeticOverflow);
    }
    let manager = ctx.manager.key;
    ctx.star_one.data = Some(Star { amount: shares.0, manager });
    ctx.star_two.data = Some(Star { amount: shares.1, manager });
    ctx.star_one.lamports = ctx.star_one.lamports + shares.0;
    ctx.star_two.lamports = ctx.star_two.lamports + shares.1;
    ctx.from_planet.lamports = ctx.from_planet.lamports - amount;
    Ok(())
}

/// Starts a hop over two stars at `now`: the deposit leaves its planet and
/// is split over the stars by the percentage that the timestamp gives.
pub fn star_hop_two_start(
    ctx: &mut StarHopTwoStart,
    star_one: String,
    star_two: String,
    now: i64,
) -> (r: Result<(), OridionError>)
    ensures
        match star_hop_two_start_spec(
            *old(ctx),
            star_one@,
            star_two@,
            percent_at(now),
        ) {
            Ok(post) => r is Ok && *final(ctx) == post,
            Err(e) => r == Err::<(), OridionError>(e) && *final(ctx) == *old(ctx),
        },
{
    star_hop_two_start_with_percent(ctx, star_one, star_two, get_random_percent(now))
}

/// What the end of a hop over two stars does, or why it refuses.
///
/// The operator must be the manager and the one recorded on both stars, all
/// accounts must exist, and the recorded shares must add up to the deposit.
/// The shares go to the planet, which counts one more visit; what the stars
/// hold beyond their shares goes to the operator; the stars are closed; the
/// deposit records its arrival.
pub open spec fn star_hop_two_end_spec(pre: StarHopTwoEnd, now: i64) -> Result<
    StarHopTwoEnd,
    OridionError,
> {
    if pre.manager.key != manager_pubkey() {
        Err(OridionError::AuthorityMismatch)
    } else if pre.deposit.data is None || pre.to_planet.data is None || pre.star_one.data is None
        || pre.star_two.data is None {
        Err(OridionError::AccountNotInitialized)
    } else {
        let deposit = pre.deposit.data->0;
        let to = pre.to_planet.data->0;
        let one = pre.star_one.data->0;
        let two = pre.star_two.data->0;
        if one.manager != pre.manager.key || two.manager != pre.manager.key {
            Err(OridionError::AuthorityMismatch)
        } else if one.amount + two.amount != deposit.lamports {
            Err(OridionError::StarHopCalculationError)
        } else if deposit.hops == u16::MAX || to.visits == u64::MAX || pre.star_one.lamports
            < one.amount || pre.star_two.lamports < two.amount || pre.to_planet.lamports
            + deposit.lamports > u64::MAX || pre.manager.lamports + star_residue(pre.star_one)
            + star_residue(pre.star_two) > u64::MAX {
            Err(OridionError::ArithmeticOverflow)
        } else {
            Ok(
                StarHopTwoEnd {
                    deposit: Account { data: Some(deposit.arrived(to.name, now)), ..pre.deposit },
                    to_planet: Account {
                        lamports: (pre.to_planet.lamports + deposit.lamports) as u64,
                        data: Some(to.visited()),
                    },
                    star_one: star_closed(),
                    star_two: star_closed(),
                    manager: SystemAccount {
                        lamports: (pre.manager.lamports + star_residue(pre.star_one)
                            + star_residue(pre.star_two)) as u64,
                        ..pre.manager
                    },
                },
            )
        }
    }
}

/// Ends a hop over two stars at `now`: the shares are joined on the planet
/// and the stars are closed.
pub fn star_hop_two_end(ctx: &mut StarHopTwoEnd, now: i64) -> (r: Result<(), OridionError>)
    ensures
        match star_hop_two_end_spec(*old(ctx), now) {
            Ok(post) => r is Ok && *final(ctx) == post,
            Err(e) => r == Err::<(), OridionError>(e) && *final(ctx) == *old(ctx),
        },
{
    if ctx.manager.key != manager_pubkey() {
        return Err(OridionError::AuthorityMismatch);
    }
    let (amount, hops) = match &ctx.deposit.data {
        Some(deposit) => (deposit.lamports, deposit.hops),
        None => {
            return Err(OridionError::AccountNotInitialized);
        },
    };
    let visits = match &ctx.to_planet.data {
        Some(to) => to.visits,
        None => {
            return Err(OridionError::AccountNotInitialized);
        },
    };
    let one = match ctx.star_one.data {
        Some(star) => star,
        None => {
            return Err(OridionError::AccountNotInitialized);
        },
    };
    let two = match ctx.star_two.data {
        Some(star) => star,
        None => {
            return Err(OridionError::AccountNotInitialized);
        },
    };
    if one.manager != ctx.manager.key || two.manager != ctx.manager.key {
        return Err(OridionError::AuthorityMismatch);
    }
    if one.amount as u128 + two.amount as u128 != amount as u128 {
        return Err(OridionError::StarHopCalculationError);
    }
    if hops == u16::MAX || visits == u64::MAX || ctx.star_one.lamports < one.amount
        || ctx.star_two.lamports < two.amount || ctx.to_planet.lamports > u64::MAX - amount {
        return Err(OridionError::ArithmeticOverflow);
    }
    let swept: u128 = ctx.manager.lamports as u128 + (ctx.star_one.lamports - one.amount) as u128
        + (ctx.star_two.lamports - two.amount) as u128;
    if swept > u64::MAX as u128 {
        return Err(OridionError::ArithmeticOverflow);
    }
    let mut location = String::new();
    match &mut ctx.to_planet.data {
        Some(to) => {
            to.visits = to.visits + 1;
            location = to.name.clone();
        },
        None => {},
    }
    match &mut ctx.deposit.data {
        Some(deposit) => {
            deposit.location = location;
            hop_deposit(deposit, now);
        },
        None => {},
    }
    ctx.star_one = Account { lamports: 0, data: None };
    ctx.star_two = Account { lamports: 0, data: None };
    ctx.to_planet.lamports = ctx.to_planet.lamports + amount;
    ctx.manager.lamports = swept as u64;
    Ok(())
}

/// What the start of a hop over three stars does, or why it refuses.
///
/// As with two stars, with three shares and three identifiers that must
/// differ pairwise.
pub open spec fn star_hop_three_start_spec(
    pre: StarHopThreeStart,
    star_one: Seq<char>,
    star_two: Seq<char>,
    star_three: Seq<char>,
    raw_percent: u8,
) -> Result<StarHopThreeStart, OridionError> {
    if pre.manager.key != manager_pubkey() {
        Err(OridionError::AuthorityMismatch)
    } else if pre.deposit.data is None || pre.from_planet.data is None {
        Err(OridionError::AccountNotInitialized)
    } else if pre.star_one.data is Some || pre.star_two.data is Some || pre.star_three.data
        is Some {
        Err(OridionError::AccountAlreadyInUse)
    } else if star_one == star_two || star_two == star_three || star_one == star_three {
        Err(OridionError::HopErrorStarsMustBeUnique)
    } else {
        let amount = pre.deposit.data->0.lamports;
        let shares = three_shares(amount, split_percent(raw_percent));
        if pre.from_planet.lamports < amount || pre.star_one.lamports + shares.0 > u64::MAX
            || pre.star_two.lamports + shares.1 > u64::MAX || pre.star_three.lamports + shares.2
            > u64::MAX {
            Err(OridionError::ArithmeticOverflow)
        } else {
            Ok(
                StarHopThreeStart {
                    deposit: pre.deposit,
                    from_planet: Account {
                        lamports: (pre.from_planet.lamports - amount) as u64,
                        ..pre.from_planet
                    },
                    star_one: star_opened(pre.star_one, shares.0, pre.manager.key),
                    star_two: star_opened(pre.star_two, shares.1, pre.manager.key),
                    star_three: star_opened(pre.star_three, shares.2, pre.manager.key),
                    manager: pre.manager,
                },
            )
        }
    }
}

/// Starts a hop over three stars with a percentage of the caller's choice,
/// which is brought into the range from 10 to 90.
pub fn star_hop_three_start_with_percent(
    ctx: &mut StarHopThreeStart,
    star_one: String,
    star_two: String,
    star_three: String,
    raw_percent: u8,
) -> (r: Result<(), OridionError>)
    ensures
        match star_hop_three_start_spec(
            *old(ctx),
            star_one@,
            star_two@,
            star_three@,
            raw_percent,
        ) {
            Ok(post) => r is Ok && *final(ctx) == post,
            Err(e) => r == Err::<(), OridionError>(e) && *final(ctx) == *old(ctx),
        },
{
    if ctx.manager.key != manager_pubkey() {
        return Err(OridionError::AuthorityMismatch);
    }
    let amount = match &ctx.deposit.data {
        Some(deposit) => deposit.lamports,
        None => {
            return Err(OridionError::AccountNotInitialized);
        },
    };
    if ctx.from_planet.data.is_none() {
        return Err(OridionError::AccountNotInitialized);
    }
    if ctx.star_one.data.is_some() || ctx.star_two.data.is_some()
        || ctx.star_three.data.is_some() {
        return Err(OridionError::AccountAlreadyInUse);
    }
    if star_one == star_two || star_two == star_three || star_one == star_three {
        return Err(OridionError::HopErrorStarsMustBeUnique);
    }
    let shares = split_three(amount, clamp_percent(raw_percent));
    if ctx.from_planet.lamports < amount || ctx.star_one.lamports > u64::MAX - shares.0
        || ctx.star_two.lamports > u64::MAX - shares.1 || ctx.star_three.lamports > u64::MAX
        - shares.2 {
        return Err(OridionError::ArithmeticOverflow);
    }
    let manager = ctx.manager.key;
    ctx.star_one.data = Some(Star { amount: shares.0, manager });
    ctx.star_two.data = Some(Star { amount: shares.1, manager });
    ctx.star_three.data = Some(Star { amount: shares.2, manager });
    ctx.star_one.lamports = ctx.star_one.lamports + shares.0;
    ctx.star_two.lamports = ctx.star_two.lamports + shares.1;
    ctx.star_three.lamports = ctx.star_three.lamports + shares.2;
    ctx.from_planet.lamports = ctx.from_planet.lamports - amount;
    Ok(())
}

/// Starts a hop over three stars at `now`: the deposit leaves its planet and
/// is split over the stars by the percentage that the timestamp gives.
pub fn star_hop_three_start(
    ctx: &mut StarHopThreeStart,
    star_one: String,
    star_two: String,
    star_three: String,
    now: i64,
) -> (r: Result<(), OridionError>)
    ensures
        match star_hop_three_start_spec(
            *old(ctx),
            star_one@,
            star_two@,
            star_three@,
            percent_at(now),
        ) {
            Ok(post) => r is Ok && *final(ctx) == post,
            Err(e) => r == Err::<(), OridionError>(e) && *final(ctx) == *old(ctx),
        },
{
    star_hop_three_start_with_percent(ctx, star_one, star_two, star_three, get_random_percent(now))
}

/// What the end of a hop over three stars does, or why it refuses.
///
/// As with two stars, with three shares to join and three stars to close.
pub open spec fn star_hop_three_end_spec(pre: StarHopThreeEnd, now: i64) -> Result<
    StarHopThreeEnd,
    OridionError,
> {
    if pre.manager.key != manager_pubkey() {
        Err(OridionError::AuthorityMismatch)
    } else if pre.deposit.data is None || pre.to_planet.data is None || pre.star_one.data is None
        || pre.star_two.data is None || pre.star_three.data is None {
        Err(OridionError::AccountNotInitialized)
    } else {
        let deposit = pre.deposit.data->0;
        let to = pre.to_planet.data->0;
        let one = pre.star_one.data->0;
        let two = pre.star_two.data->0;
        let three = pre.star_three.data->0;
        if one.manager != pre.manager.key || two.manager != pre.manager.key || three.manager
            != pre.manager.key {
            Err(OridionError::AuthorityMismatch)
        } else if one.amount + two.amount + three.amount != deposit.lamports {
            Err(OridionError::StarHopCalculationError)
        } else if deposit.hops == u16::MAX || to.visits == u64::MAX || pre.star_one.lamports
            < one.amount || pre.star_two.lamports < two.amount || pre.star_three.lamports
            < three.amount || pre.to_planet.lamports + deposit.lamports > u64::MAX
            || pre.manager.lamports + star_residue(pre.star_one) + star_residue(pre.star_two)
            + star_residue(pre.star_three) > u64::MAX {
            Err(OridionError::ArithmeticOverflow)
        } else {
            Ok(
                StarHopThreeEnd {
                    deposit: Account { data: Some(deposit.arrived(to.name, now)), ..pre.deposit },
                    to_planet: Account {
                        lamports: (pre.to_planet.lamports + deposit.lamports) as u64,
                        data: Some(to.visited()),
                    },
                    star_one: star_closed(),
                    star_two: star_closed(),
                    star_three: star_closed(),
                    manager: SystemAccount {
                        lamports: (pre.manager.lamports + star_residue(pre.star_one)
                            + star_residue(pre.star_two) + star_residue(pre.star_three)) as u64,
                        ..pre.manager
                    },
                },
            )
        }
    }
}

/// Ends a hop over three stars at `now`: the shares are joined on the planet
/// and the stars are closed.
pub fn star_hop_three_end(ctx: &mut StarHopThreeEnd, now: i64) -> (r: Result<(), OridionError>)
    ensures
        match star_hop_three_end_spec(*old(ctx), now) {
            Ok(post) => r is Ok && *final(ctx) == post,
            Err(e) => r == Err::<(), OridionError>(e) && *final(ctx) == *old(ctx),
        },
{
    if ctx.manager.key != manager_pubkey() {
        return Err(OridionError::AuthorityMismatch);
    }
    let (amount, hops) = match &ctx.deposit.data {
        Some(deposit) => (deposit.lamports, deposit.hops),
        None => {
            return Err(OridionError::AccountNotInitialized);
        },
    };
    let visits = match &ctx.to_planet.data {
        Some(to) => to.visits,
        None => {
            return Err(OridionError::AccountNotInitialized);
        },
    };
    let one = match ctx.star_one.data {
        Some(star) => star,
        None => {
            return Err(OridionError::AccountNotInitialized);
        },
    };
    let two = match ctx.star_two.data {
        Some(star) => star,
        None => {
            return Err(OridionError::AccountNotInitialized);
        },
    };
    let three = match ctx.star_three.data {
        Some(star) => star,
        None => {
            return Err(OridionError::AccountNotInitialized);
        },
    };
    if one.manager != ctx.manager.key || two.manager != ctx.manager.key || three.manager
        != ctx.manager.key {
        return Err(OridionError::AuthorityMismatch);
    }
    if one.amount as u128 + two.amount as u128 + three.amount as u128 != amount as u128 {
        return Err(OridionError::StarHopCalculationError);
    }
    if hops == u16::MAX || visits == u64::MAX || ctx.star_one.lamports < one.amount
        || ctx.star_two.lamports < two.amount || ctx.star_three.lamports < three.amount
        || ctx.to_planet.lamports > u64::MAX - amount {
        return Err(OridionError::ArithmeticOverflow);
    }
    let swept: u128 = ctx.manager.lamports as u128 + (ctx.star_one.lamports - one.amount) as u128
        + (ctx.star_two.lamports - two.amount) as u128 + (ctx.star_three.lamports
        - three.amount) as u128;
    if swept > u64::MAX as u128 {
        return Err(OridionError::ArithmeticOverflow);
    }
    let mut location = String::new();
    match &mut ctx.to_planet.data {
        Some(to) => {
            to.visits = to.visits + 1;
            location = to.name.clone();
        },
        None => {},
    }
    match &mut ctx.deposit.data {
        Some(deposit) => {
            deposit.location = location;
            hop_deposit(deposit, now);
        },
        None => {},
    }
    ctx.star_one = Account { lamports: 0, data: None };
    ctx.star_two = Account { lamports: 0, data: None };
    ctx.star_three = Account { lamports: 0, data: None };
    ctx.to_planet.lamports = ctx.to_planet.lamports + amount;
    ctx.manager.lamports = swept as u64;
    Ok(())
}

} // verus!
