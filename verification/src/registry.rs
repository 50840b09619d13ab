use crate::account::{Account, SystemAccount};
use crate::accounts_planet::{name_length, CreatePlanet, DeletePlanet, Planet};
use crate::accounts_universe::{names_view, BigBang, Universe, UniverseView, UpdateUniverseFee};
use crate::errors::OridionError;
use crate::pubkey::{manager_pubkey, Pubkey};
use crate::shared::{
    find_planet_program_address, find_universe_program_address, planet_address, universe_address,
};
use crate::variables::{
    DEFAULT_HOP_PLANET_FEE, DEFAULT_HOP_STAR_THREE_FEE, DEFAULT_HOP_STAR_TWO_FEE,
    EMPTY_PLANET_LAMPORTS, MAX_PLANET_TITLE_LENGTH,
};
use vstd::prelude::*;

verus! {

/// A universe started at `now`: no planets, and the first fee schedule.
pub open spec fn universe_started(pda: Pubkey, bump: u8, now: i64) -> UniverseView {
    UniverseView {
        pda,
        p: Seq::empty(),
        st: now,
        up: now,
        bp: bump,
        cfe: 0,
        hpfe: DEFAULT_HOP_PLANET_FEE,
        hsfe2: DEFAULT_HOP_STAR_TWO_FEE,
        hsfe3: DEFAULT_HOP_STAR_THREE_FEE,
        wfe: 0,
    }
}

/// Why the universe cannot be started, if it cannot: the operator is not
/// the manager, the universe exists already, or it has no address.
pub open spec fn bang_refusal(pre: BigBang, pda: Option<Pubkey>) -> Option<OridionError> {
    if pre.creator.key != manager_pubkey() {
        Some(OridionError::AuthorityMismatch)
    } else if pre.universe.data is Some {
        Some(OridionError::AccountAlreadyInUse)
    } else if pda is None {
        Some(OridionError::ProgramAddressNotFound)
    } else {
        None
    }
}

/// The accounts after the universe was started at the address `pda`.
pub open spec fn bang_done(pre: BigBang, post: BigBang, pda: Pubkey, bump: u8, now: i64) -> bool {
    &&& post.creator == pre.creator
    &&& post.universe.lamports == pre.universe.lamports
    &&& post.universe.data matches Some(universe)
    &&& universe@ == universe_started(pda, bump, now)
}

/// Starts the universe at `now`, given the address that was derived for it.
pub fn bang_at(ctx: &mut BigBang, pda: Option<Pubkey>, bump: u8, now: i64) -> (r: Result<
    (),
    OridionError,
>)
    ensures
        match bang_refusal(*old(ctx), pda) {
            None => r is Ok && bang_done(*old(ctx), *final(ctx), pda->0, bump, now),
            Some(e) => r == Err::<(), OridionError>(e) && *final(ctx) == *old(ctx),
        },
{
    if ctx.creator.key != manager_pubkey() {
        return Err(OridionError::AuthorityMismatch);
    }
    if ctx.universe.data.is_some() {
        return Err(OridionError::AccountAlreadyInUse);
    }
    let pda = match pda {
        Some(pda) => pda,
        None => {
            return Err(OridionError::ProgramAddressNotFound);
        },
    };
    let universe = Universe {
        pda,
        p: Vec::new(),
        st: now,
        up: now,
        bp: bump,
        cfe: 0,
        hpfe: DEFAULT_HOP_PLANET_FEE,
        hsfe2: DEFAULT_HOP_STAR_TWO_FEE,
        hsfe3: DEFAULT_HOP_STAR_THREE_FEE,
        wfe: 0,
    };
    assert(universe@.p =~= Seq::<Seq<char>>::empty());
    ctx.universe.data = Some(universe);
    Ok(())
}

/// Starts the universe at `now`, at the address that belongs to it under the
/// program.
pub fn bang(ctx: &mut BigBang, program_id: &Pubkey, bump: u8, now: i64) -> (r: Result<
    (),
    OridionError,
>)
    ensures
        match bang_refusal(*old(ctx), universe_address(*program_id)) {
            None => r is Ok && bang_done(
                *old(ctx),
                *final(ctx),
                universe_address(*program_id)->0,
                bump,
                now,
            ),
            Some(e) => r == Err::<(), OridionError>(e) && *final(ctx) == *old(ctx),
        },
{
    let pda = find_universe_program_address(program_id);
    bang_at(ctx, pda, bump, now)
}

/// What an update of the fee schedule does, or why it refuses.
///
/// The operator must be the manager and the universe must exist. The five
/// fees and the time of the update are set and nothing else changes.
pub open spec fn update_fee_spec(
    pre: UpdateUniverseFee,
    comet_fee: u32,
    hop_planet_fee: u32,
    hop_star_fee2: u32,
    hop_star_fee3: u32,
    withdraw_fee: u32,
    now: i64,
) -> Result<UpdateUniverseFee, OridionError> {
    if pre.creator.key != manager_pubkey() {
        Err(OridionError::AuthorityMismatch)
    } else if pre.universe.data is None {
        Err(OridionError::AccountNotInitialized)
    } else {
        Ok(
            UpdateUniverseFee {
                universe: Account {
                    data: Some(
                        Universe {
                            up: now,
                            cfe: comet_fee as u64,
                            hpfe: hop_planet_fee as u64,
                            hsfe2: hop_star_fee2 as u64,
                            hsfe3: hop_star_fee3 as u64,
                            wfe: withdraw_fee as u64,
                            ..pre.universe.data->0
                        },
                    ),
                    ..pre.universe
                },
                creator: pre.creator,
            },
        )
    }
}

/// Sets the fee schedule at `now`.
pub fn update_fee(
    ctx: &mut UpdateUniverseFee,
    comet_fee: u32,
    hop_planet_fee: u32,
    hop_star_fee2: u32,
    hop_star_fee3: u32,
    withdraw_fee: u32,
    now: i64,
) -> (r: Result<(), OridionError>)
    ensures
        match update_fee_spec(
            *old(ctx),
            comet_fee,
            hop_planet_fee,
            hop_star_fee2,
            hop_star_fee3,
            withdraw_fee,
            now,
        ) {
            Ok(post) => r is Ok && *final(ctx) == post,
            Err(e) => r == Err::<(), OridionError>(e) && *final(ctx) == *old(ctx),
        },
{
    if ctx.creator.key != manager_pubkey() {
        return Err(OridionError::AuthorityMismatch);
    }
    match &mut ctx.universe.data {
        Some(universe) => {
            universe.up = now;
            universe.cfe = comet_fee as u64;
            universe.hpfe = hop_planet_fee as u64;
            universe.hsfe2 = hop_star_fee2 as u64;
            universe.hsfe3 = hop_star_fee3 as u64;
            universe.wfe = withdraw_fee as u64;
            Ok(())
        },
        None => Err(OridionError::AccountNotInitialized),
    }
}

/// Why a planet cannot be created, if it cannot: the operator is not the
/// manager, the universe does not exist, the planet does, the name is too
/// long, or it has no address.
pub open spec fn create_planet_refusal(
    pre: CreatePlanet,
    name: Seq<char>,
    pda: Option<Pubkey>,
) -> Option<OridionError> {
    if pre.creator.key != manager_pubkey() {
        Some(OridionError::AuthorityMismatch)
    } else if pre.universe.data is None {
        Some(OridionError::AccountNotInitialized)
    } else if pre.planet.data is Some {
        Some(OridionError::AccountAlreadyInUse)
    } else if name_length(name) > MAX_PLANET_TITLE_LENGTH {
        Some(OridionError::PlanetNameTooLong)
    } else if pda is None {
        Some(OridionError::ProgramAddressNotFound)
    } else {
        None
    }
}

/// The accounts after the planet `name` was created at the address `pda`:
/// the planet has its record, without visits, and the universe lists its
/// name last.
pub open spec fn create_planet_done(
    pre: CreatePlanet,
    post: CreatePlanet,
    name: String,
    pda: Pubkey,
    bump: u8,
    now: i64,
) -> bool {
    &&& post.creator == pre.creator
    &&& post.planet == Account {
        lamports: pre.planet.lamports,
        data: Some(Planet { name, pda, created: now, bump, visits: 0 }),
    }
    &&& post.universe.lamports == pre.universe.lamports
    &&& post.universe.data matches Some(universe)
    &&& universe@ == UniverseView { p: pre.universe.data->0@.p.push(name@), ..pre.universe.data->0@ }
}

/// Creates the planet `name` at `now`, given the address that was derived
/// for it.
pub fn create_planet_at(
    ctx: &mut CreatePlanet,
    name: String,
    pda: Option<Pubkey>,
    bump: u8,
    now: i64,
) -> (r: Result<(), OridionError>)
    ensures
        match create_planet_refusal(*old(ctx), name@, pda) {
            None => r is Ok && create_planet_done(*old(ctx), *final(ctx), name, pda->0, bump, now),
            Some(e) => r == Err::<(), OridionError>(e) && *final(ctx) == *old(ctx),
        },
{
    if ctx.creator.key != manager_pubkey() {
        return Err(OridionError::AuthorityMismatch);
    }
    if ctx.universe.data.is_none() {
        return Err(OridionError::AccountNotInitialized);
    }
    if ctx.planet.data.is_some() {
        return Err(OridionError::AccountAlreadyInUse);
    }
    if name.as_str().as_bytes().len() > MAX_PLANET_TITLE_LENGTH {
        return Err(OridionError::PlanetNameTooLong);
    }
    let pda = match pda {
        Some(pda) => pda,
        None => {
            return Err(OridionError::ProgramAddressNotFound);
        },
    };
    match &mut ctx.universe.data {
        Some(universe) => {
            universe.p.push(name.clone());
            assert(names_view(universe.p@) =~= names_view(old(ctx).universe.data->0.p@).push(
                name@,
            ));
        },
        None => {},
    }
    ctx.planet.data = Some(Planet { name, pda, created: now, bump, visits: 0 });
    Ok(())
}

/// Creates the planet `name` at `now`, at the address that belongs to the
/// name under the program.
pub fn create_planet(
    ctx: &mut CreatePlanet,
    name: String,
    program_id: &Pubkey,
    bump: u8,
    now: i64,
) -> (r: Result<(), OridionError>)
    ensures
        match create_planet_refusal(*old(ctx), name@, planet_address(name@, *program_id)) {
            None => r is Ok && create_planet_done(
                *old(ctx),
                *final(ctx),
                name,
                planet_address(name@, *program_id)->0,
                bump,
                now,
            ),
            Some(e) => r == Err::<(), OridionError>(e) && *final(ctx) == *old(ctx),
        },
{
    let pda = find_planet_program_address(&name, program_id);
    create_planet_at(ctx, name, pda, bump, now)
}

/// The names that differ from `name`, in their order.
pub open spec fn names_without(names: Seq<Seq<char>>, name: Seq<char>) -> Seq<Seq<char>> {
    names.filter(|n: Seq<char>| n != name)
}

/// Dropping a name from a list that ends in `last` drops it from the list
/// before `last`, and keeps `last` unless it is the name.
proof fn lemma_names_without_push(names: Seq<Seq<char>>, last: Seq<char>, name: Seq<char>)
    ensures
        names_without(names.push(last), name) == if last != name {
            names_without(names, name).push(last)
        } else {
            names_without(names, name)
        },
{
    reveal(Seq::filter);
    assert(names.push(last).drop_last() =~= names);
}

/// Copies the names that differ from `name`.
fn without_name(names: &Vec<String>, name: &String) -> (kept: Vec<String>)
    ensures
        names_view(kept@) == names_without(names_view(names@), name@),
{
    let mut kept: Vec<String> = Vec::new();
    let mut i: usize = 0;
    proof {
        reveal(Seq::filter);
        assert(names_view(names@.subrange(0, 0)) =~= Seq::<Seq<char>>::empty());
        assert(names_view(kept@) =~= Seq::<Seq<char>>::empty());
    }
    while i < names.len()
        invariant
            i <= names.len(),
            names_view(kept@) == names_without(names_view(names@.subrange(0, i as int)), name@),
        decreases names.len() - i,
    {
        proof {
            lemma_names_without_push(
                names_view(names@.subrange(0, i as int)),
                names@[i as int]@,
                name@,
            );
            assert(names_view(names@.subrange(0, i + 1)) =~= names_view(
                names@.subrange(0, i as int),
            ).push(names@[i as int]@));
        }
        if names[i] != *name {
            let ghost before = kept@;
            kept.push(names[i].clone());
            assert(names_view(kept@) =~= names_view(before).push(names@[i as int]@));
        }
        i = i + 1;
    }
    assert(names@.subrange(0, i as int) =~= names@);
    kept
}

/// Why a planet cannot be deleted, if it cannot: the operator is not the
/// manager, an account does not exist, the planet holds more than an empty
/// planet does, or the operator's balance has no room for the planet's.
pub open spec fn delete_planet_refusal(pre: DeletePlanet) -> Option<OridionError> {
    if pre.creator.key != manager_pubkey() {
        Some(OridionError::AuthorityMismatch)
    } else if pre.planet.data is None || pre.universe.data is None {
        Some(OridionError::AccountNotInitialized)
    } else if pre.planet.lamports > EMPTY_PLANET_LAMPORTS {
        Some(OridionError::PlanetDeleteHasFundsError)
    } else if pre.creator.lamports + pre.planet.lamports > u64::MAX {
        Some(OridionError::ArithmeticOverflow)
    } else {
        None
    }
}

/// The accounts after the planet was deleted: it is closed, its balance is
/// with the operator, and the universe lists its name no more.
pub open spec fn delete_planet_done(pre: DeletePlanet, post: DeletePlanet) -> bool {
    &&& post.creator == SystemAccount {
        lamports: (pre.creator.lamports + pre.planet.lamports) as u64,
        ..pre.creator
    }
    &&& post.planet == Account::<Planet> { lamports: 0, data: None }
    &&& post.universe.lamports == pre.universe.lamports
    &&& post.universe.data matches Some(universe)
    &&& universe@ == UniverseView {
        p: names_without(pre.universe.data->0@.p, pre.planet.data->0.name@),
        ..pre.universe.data->0@
    }
}

/// Deletes a planet that holds no deposit.
pub fn delete_planet(ctx: &mut DeletePlanet) -> (r: Result<(), OridionError>)
    ensures
        match delete_planet_refusal(*old(ctx)) {
            None => r is Ok && delete_planet_done(*old(ctx), *final(ctx)),
            Some(e) => r == Err::<(), OridionError>(e) && *final(ctx) == *old(ctx),
        },
{
    if ctx.creator.key != manager_pubkey() {
        return Err(OridionError::AuthorityMismatch);
    }
    let kept = match (&ctx.planet.data, &ctx.universe.data) {
        (Some(planet), Some(universe)) => without_name(&universe.p, &planet.name),
        _ => {
            return Err(OridionError::AccountNotInitialized);
        },
    };
    if ctx.planet.lamports > EMPTY_PLANET_LAMPORTS {
        return Err(OridionError::PlanetDeleteHasFundsError);
    }
    if ctx.creator.lamports > u64::MAX - ctx.planet.lamports {
        return Err(OridionError::ArithmeticOverflow);
    }
    match &mut ctx.universe.data {
        Some(universe) => {
            universe.p = kept;
        },
        None => {},
    }
    ctx.creator.lamports = ctx.creator.lamports + ctx.planet.lamports;
    ctx.planet = Account { lamports: 0, data: None };
    Ok(())
}

} // verus!
