use crate::account::{Account, SystemAccount};
use crate::accounts_comet::{CreateDeposit, Deposit, PlanetHop, WithdrawAccounts};
use crate::errors::OridionError;
use crate::pubkey::{manager_pubkey, Pubkey};
use crate::shared::{hop_deposit, next_process_after, next_process_at_after, schedule_next};
use crate::variables::{INITIAL_HOPS, LAST_DEPOSITED, PLANET_RESERVE_LAMPORTS};
use vstd::prelude::*;

verus! {

impl Deposit {
    /// A deposit made at `now` on the planet `location`. Its first step is
    /// set by the same rule as after a hop, whatever its mode.
    pub open spec fn created(
        lamports: u64,
        mode: u8,
        delay: u32,
        withdraw_at: i64,
        destination: Pubkey,
        location: String,
        now: i64,
    ) -> Deposit {
        Deposit {
            mode,
            next_process_at: next_process_at_after(now, withdraw_at),
            next_process: next_process_after(now, withdraw_at),
            last_process: LAST_DEPOSITED,
            location,
            delay,
            hops: INITIAL_HOPS,
            withdraw_at,
            created_at: now,
            last_process_at: now,
            lamports,
            destination,
        }
    }
}

/// What `create_deposit` does to its accounts, or why it refuses.
///
/// The deposit must not exist yet, the universe and the planet must. The
/// amount leaves the depositor, passes through the universe and stays on the
/// planet, which counts one more visit.
pub open spec fn create_deposit_spec(
    pre: CreateDeposit,
    deposit_lamports: u64,
    mode: u8,
    delay: u32,
    withdraw_at: i64,
    now: i64,
) -> Result<CreateDeposit, OridionError> {
    if pre.universe.data is None || pre.planet.data is None {
        Err(OridionError::AccountNotInitialized)
    } else if pre.deposit.data is Some {
        Err(OridionError::AccountAlreadyInUse)
    } else if pre.planet.data->0.visits == u64::MAX || pre.creator.lamports < deposit_lamports
        || pre.universe.lamports + deposit_lamports > u64::MAX || pre.planet.lamports
        + deposit_lamports > u64::MAX {
        Err(OridionError::ArithmeticOverflow)
    } else {
        Ok(
            CreateDeposit {
                deposit: Account {
                    lamports: pre.deposit.lamports,
                    data: Some(
                        Deposit::created(
                            deposit_lamports,
                            mode,
                            delay,
                            withdraw_at,
                            pre.destination.key,
                            pre.planet.data->0.name,
                            now,
                        ),
                    ),
                },
                creator: SystemAccount {
                    lamports: (pre.creator.lamports - deposit_lamports) as u64,
                    ..pre.creator
                },
                universe: pre.universe,
                planet: Account {
                    lamports: (pre.planet.lamports + deposit_lamports) as u64,
                    data: Some(pre.planet.data->0.visited()),
                },
                destination: pre.destination,
            },
        )
    }
}

/// Makes a deposit of `deposit_lamports` at `now`, located on the planet and
/// bound for the destination.
pub fn create_deposit(
    ctx: &mut CreateDeposit,
    deposit_lamports: u64,
    mode: u8,
    delay: u32,
    withdraw_at: i64,
    now: i64,
) -> (r: Result<(), OridionError>)
    ensures
        match create_deposit_spec(*old(ctx), deposit_lamports, mode, delay, withdraw_at, now) {
            Ok(post) => r is Ok && *final(ctx) == post,
            Err(e) => r == Err::<(), OridionError>(e) && *final(ctx) == *old(ctx),
        },
{
    if ctx.universe.data.is_none() {
        return Err(OridionError::AccountNotInitialized);
    }
    let visits = match &ctx.planet.data {
        Some(planet) => planet.visits,
        None => {
            return Err(OridionError::AccountNotInitialized);
        },
    };
    if ctx.deposit.data.is_some() {
        return Err(OridionError::AccountAlreadyInUse);
    }
    if visits == u64::MAX || ctx.creator.lamports < deposit_lamports || ctx.universe.lamports
        > u64::MAX - deposit_lamports || ctx.planet.lamports > u64::MAX - deposit_lamports {
        return Err(OridionError::ArithmeticOverflow);
    }
    let next = schedule_next(now, withdraw_at);
    let mut location = String::new();
    match &mut ctx.planet.data {
        Some(planet) => {
            planet.visits = planet.visits + 1;
            location = planet.name.clone();
        },
        None => {},
    }
    ctx.deposit.data = Some(
        Deposit {
            mode,
            next_process_at: next.1,
            next_process: next.0,
            last_process: LAST_DEPOSITED,
            location,
            delay,
            hops: INITIAL_HOPS,
            withdraw_at,
            created_at: now,
            last_process_at: now,
            lamports: deposit_lamports,
            destination: ctx.destination.key,
        },
    );
    ctx.creator.lamports = ctx.creator.lamports - deposit_lamports;
    ctx.planet.lamports = ctx.planet.lamports + deposit_lamports;
    Ok(())
}

/// What a planet hop does, or why it refuses.
///
/// The operator must be the manager, the deposit and both planets must
/// exist, and the planets must differ by name. The deposit's amount moves
/// from one planet to the other, which counts one more visit, and the
/// deposit records its arrival there.
pub open spec fn planet_hop_spec(pre: PlanetHop, now: i64) -> Result<PlanetHop, OridionError> {
    if pre.manager.key != manager_pubkey() {
        Err(OridionError::AuthorityMismatch)
    } else if pre.deposit.data is None || pre.from_planet.data is None || pre.to_planet.data
        is None {
        Err(OridionError::AccountNotInitialized)
    } else {
        let deposit = pre.deposit.data->0;
        let to = pre.to_planet.data->0;
        if pre.from_planet.data->0.name@ == to.name@ {
            Err(OridionError::HopErrorToAndFromAreSame)
        } else if deposit.hops == u16::MAX || to.visits == u64::MAX || pre.from_planet.lamports
            < deposit.lamports || pre.to_planet.lamports + deposit.lamports > u64::MAX {
            Err(OridionError::ArithmeticOverflow)
        } else {
            Ok(
                PlanetHop {
                    deposit: Account { data: Some(deposit.arrived(to.name, now)), ..pre.deposit },
                    to_planet: Account {
                        lamports: (pre.to_planet.lamports + deposit.lamports) as u64,
                        data: Some(to.visited()),
                    },
                    from_planet: Account {
                        lamports: (pre.from_planet.lamports - deposit.lamports) as u64,
                        ..pre.from_planet
                    },
                    manager: pre.manager,
                },
            )
        }
    }
}

/// Moves the deposit from one planet to another at `now`.
pub fn planet_hop(ctx: &mut PlanetHop, now: i64) -> (r: Result<(), OridionError>)
    ensures
        match planet_hop_spec(*old(ctx), now) {
            Ok(post) => r is Ok && *final(ctx) == post,
            Err(e) => r == Err::<(), OridionError>(e) && *final(ctx) == *old(ctx),
        },
{
    if ctx.manager.key != manager_pubkey() {
        return Err(OridionError::AuthorityMismatch);
    }
    let (amount, hops) = match &ctx.deposit.data {
        Some(deposit) => (deposit.lamports, deposit.hops),
        None => {
            return Err(OridionError::AccountNotInitialized);
        },
    };
    let (same, visits) = match (&ctx.from_planet.data, &ctx.to_planet.data) {
        (Some(from), Some(to)) => (from.name == to.name, to.visits),
        _ => {
            return Err(OridionError::AccountNotInitialized);
        },
    };
    if same {
        return Err(OridionError::HopErrorToAndFromAreSame);
    }
    if hops == u16::MAX || visits == u64::MAX || ctx.from_planet.lamports < amount
        || ctx.to_planet.lamports > u64::MAX - amount {
        return Err(OridionError::ArithmeticOverflow);
    }
    let mut location = String::new();
    match &mut ctx.to_planet.data {
        Some(to) => {
            to.visits = to.visits + 1;
            location = to.name.clone();
        },
        None => {},
    }
    match &mut ctx.deposit.data {
        Some(deposit) => {
            deposit.location = location;
            hop_deposit(deposit, now);
        },
        None => {},
    }
    ctx.to_planet.lamports = ctx.to_planet.lamports + amount;
    ctx.from_planet.lamports = ctx.from_planet.lamports - amount;
    Ok(())
}

/// Whether a planet with `balance` may pay out `amount`: it must keep the
/// reserve, so its balance must exceed the amount.
pub open spec fn planet_can_pay(balance: u64, amount: u64) -> bool {
    balance >= amount + PLANET_RESERVE_LAMPORTS
}

/// What a withdrawal does, or why it refuses.
///
/// The operator must be the manager, the deposit and its planet must exist,
/// the account to pay must be the deposit's destination, and the planet
/// must hold more than the deposit's amount. The amount goes from the planet
/// to the destination; the deposit is closed and what its account held goes
/// to the operator.
pub open spec fn withdraw_spec(pre: WithdrawAccounts) -> Result<WithdrawAccounts, OridionError> {
    if pre.manager.key != manager_pubkey() {
        Err(OridionError::AuthorityMismatch)
    } else if pre.deposit.data is None || pre.from_planet.data is None {
        Err(OridionError::AccountNotInitialized)
    } else {
        let deposit = pre.deposit.data->0;
        if pre.destination.key != deposit.destination {
            Err(OridionError::DestinationMismatch)
        } else if !planet_can_pay(pre.from_planet.lamports, deposit.lamports) {
            Err(OridionError::PlanetNotEnoughFundsError)
        } else if pre.destination.lamports + deposit.lamports > u64::MAX || pre.manager.lamports
            + pre.deposit.lamports > u64::MAX {
            Err(OridionError::ArithmeticOverflow)
        } else {
            Ok(
                WithdrawAccounts {
                    deposit: Account { lamports: 0, data: None },
                    from_planet: Account {
                        lamports: (pre.from_planet.lamports - deposit.lamports) as u64,
                        ..pre.from_planet
                    },
                    destination: SystemAccount {
                        lamports: (pre.destination.lamports + deposit.lamports) as u64,
                        ..pre.destination
                    },
                    manager: SystemAccount {
                        lamports: (pre.manager.lamports + pre.deposit.lamports) as u64,
                        ..pre.manager
                    },
                },
            )
        }
    }
}

/// Releases the deposit to its destination and closes it.
pub fn withdraw(ctx: &mut WithdrawAccounts) -> (r: Result<(), OridionError>)
    ensures
        match withdraw_spec(*old(ctx)) {
            Ok(post) => r is Ok && *final(ctx) == post,
            Err(e) => r == Err::<(), OridionError>(e) && *final(ctx) == *old(ctx),
        },
{
    if ctx.manager.key != manager_pubkey() {
        return Err(OridionError::AuthorityMismatch);
    }
    let (amount, destination) = match &ctx.deposit.data {
        Some(deposit) => (deposit.lamports, deposit.destination),
        None => {
            return Err(OridionError::AccountNotInitialized);
        },
    };
    if ctx.from_planet.data.is_none() {
        return Err(OridionError::AccountNotInitialized);
    }
    if ctx.destination.key != destination {
        return Err(OridionError::DestinationMismatch);
    }
    if ctx.from_planet.lamports < PLANET_RESERVE_LAMPORTS || ctx.from_planet.lamports
        - PLANET_RESERVE_LAMPORTS < amount {
        return Err(OridionError::PlanetNotEnoughFundsError);
    }
    if ctx.destination.lamports > u64::MAX - amount || ctx.manager.lamports > u64::MAX
        - ctx.deposit.lamports {
        return Err(OridionError::ArithmeticOverflow);
    }
    ctx.destination.lamports = ctx.destination.lamports + amount;
    ctx.from_planet.lamports = ctx.from_planet.lamports - amount;
    ctx.manager.lamports = ctx.manager.lamports + ctx.deposit.lamports;
    ctx.deposit = Account { lamports: 0, data: None };
    Ok(())
}

} // verus!
