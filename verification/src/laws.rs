//! What holds of every deposit, whatever the accounts and the times: value is
//! conserved, a hop counts once and ends where it was sent, the percentage of
//! a split stays in its range, and a star lives from its split to its join.

use crate::account::Account;
use crate::accounts_comet::{
    CreateDeposit, Deposit, PlanetHop, Star, StarHopThreeEnd, StarHopThreeStart, StarHopTwoEnd,
    StarHopTwoStart, WithdrawAccounts,
};
use crate::accounts_planet::{CreatePlanet, Planet};
use crate::deposit::{create_deposit_spec, planet_hop_spec, withdraw_spec};
use crate::errors::OridionError;
use crate::pubkey::Pubkey;
use crate::registry::{create_planet_done, create_planet_refusal};
use crate::shared::{percent_at, share_of, three_shares, two_shares};
use crate::star::{
    split_percent, star_closed, star_hop_three_end_spec, star_hop_three_start_spec,
    star_hop_two_end_spec, star_hop_two_start_spec,
};
use vstd::prelude::*;

verus! {

/// The share that a star account records: none while it holds no record.
pub open spec fn recorded_share(star: Account<Star>) -> u64 {
    match star.data {
        Some(record) => record.amount,
        None => 0,
    }
}

/// Whether `after` is `before` one hop later: the count is one higher, and
/// the amount, the destination and the depositor's terms are the same.
pub open spec fn one_hop_later(before: Deposit, after: Deposit) -> bool {
    &&& after.hops == before.hops + 1
    &&& after.lamports == before.lamports
    &&& after.destination == before.destination
    &&& after.mode == before.mode
    &&& after.delay == before.delay
    &&& after.withdraw_at == before.withdraw_at
    &&& after.created_at == before.created_at
}

/// A deposit after it arrived at each stop in turn; a stop is a planet's
/// name and the time of the arrival.
pub open spec fn travelled(deposit: Deposit, stops: Seq<(String, i64)>) -> Deposit
    decreases stops.len(),
{
    if stops.len() == 0 {
        deposit
    } else {
        travelled(deposit, stops.drop_last()).arrived(stops.last().0, stops.last().1)
    }
}

/// The percentage of a split lies between 10 and 90, whatever raw value it
/// was made from, and so does the one that a timestamp gives.
pub proof fn law_percent_in_range(raw_percent: u8, now: i64)
    ensures
        10 <= split_percent(raw_percent) <= 90,
        raw_percent < 10 ==> split_percent(raw_percent) == 10,
        raw_percent > 90 ==> split_percent(raw_percent) == 90,
        10 <= raw_percent <= 90 ==> split_percent(raw_percent) == raw_percent,
        10 <= percent_at(now) <= 90,
        split_percent(percent_at(now)) == percent_at(now),
{
}

/// A share is never more than the total it is taken from.
pub proof fn law_share_within_total(total: u64, percent: u8)
    requires
        percent <= 100,
    ensures
        share_of(total, percent) <= total,
        share_of(total, percent) == total * percent / 100,
{
    assert(0 <= total * percent <= total * 100) by (nonlinear_arith)
        requires
            0 <= percent <= 100,
            0 <= total,
    ;
}

/// The shares of a split add up to the total, for two stars and for three.
pub proof fn law_shares_add_up(total: u64, percent: u8)
    requires
        percent <= 100,
    ensures
        two_shares(total, percent).0 + two_shares(total, percent).1 == total,
        three_shares(total, percent).0 + three_shares(total, percent).1 + three_shares(
            total,
            percent,
        ).2 == total,
{
    law_share_within_total(total, percent);
    let side_one = share_of(total, percent);
    let side_two = (total - side_one) as u64;
    let second = (100 - percent) as u8;
    law_share_within_total(side_one, second);
    law_share_within_total(side_two, second);
}

/// A new deposit holds what the depositor gave up and what the planet
/// gained, and no balance is made or lost.
pub proof fn law_create_deposit_conserves(
    pre: CreateDeposit,
    post: CreateDeposit,
    deposit_lamports: u64,
    mode: u8,
    delay: u32,
    withdraw_at: i64,
    now: i64,
)
    requires
        create_deposit_spec(pre, deposit_lamports, mode, delay, withdraw_at, now) == Ok::<
            CreateDeposit,
            OridionError,
        >(post),
    ensures
        post.deposit.data->0.lamports == deposit_lamports,
        pre.creator.lamports - post.creator.lamports == deposit_lamports,
        post.planet.lamports - pre.planet.lamports == deposit_lamports,
        post.deposit.lamports + post.creator.lamports + post.universe.lamports
            + post.planet.lamports + post.destination.lamports == pre.deposit.lamports
            + pre.creator.lamports + pre.universe.lamports + pre.planet.lamports
            + pre.destination.lamports,
        post.deposit.data->0.location == pre.planet.data->0.name,
        post.deposit.data->0.destination == pre.destination.key,
{
}

/// A planet hop moves exactly the deposit's amount from one planet to the
/// other, counts as one hop, and leaves the deposit on the planet it was
/// sent to.
pub proof fn law_planet_hop(pre: PlanetHop, post: PlanetHop, now: i64)
    requires
        planet_hop_spec(pre, now) == Ok::<PlanetHop, OridionError>(post),
    ensures
        one_hop_later(pre.deposit.data->0, post.deposit.data->0),
        post.deposit.data->0.location == pre.to_planet.data->0.name,
        pre.from_planet.lamports - post.from_planet.lamports == pre.deposit.data->0.lamports,
        post.to_planet.lamports - pre.to_planet.lamports == pre.deposit.data->0.lamports,
        post.to_planet.data->0.visits == pre.to_planet.data->0.visits + 1,
        post.deposit.lamports + post.from_planet.lamports + post.to_planet.lamports
            + post.manager.lamports == pre.deposit.lamports + pre.from_planet.lamports
            + pre.to_planet.lamports + pre.manager.lamports,
{
}

/// The start of a hop over two stars takes the deposit's amount from the
/// planet and puts all of it on the stars; the recorded shares add up to the
/// amount, and the deposit does not change.
pub proof fn law_star_two_start(
    pre: StarHopTwoStart,
    post: StarHopTwoStart,
    star_one: Seq<char>,
    star_two: Seq<char>,
    raw_percent: u8,
)
    requires
        star_hop_two_start_spec(pre, star_one, star_two, raw_percent) == Ok::<
            StarHopTwoStart,
            OridionError,
        >(post),
    ensures
        post.deposit == pre.deposit,
        recorded_share(pre.star_one) == 0 && recorded_share(pre.star_two) == 0,
        recorded_share(post.star_one) + recorded_share(post.star_two)
            == pre.deposit.data->0.lamports,
        pre.from_planet.lamports - post.from_planet.lamports == pre.deposit.data->0.lamports,
        post.star_one.lamports - pre.star_one.lamports == recorded_share(post.star_one),
        post.star_two.lamports - pre.star_two.lamports == recorded_share(post.star_two),
        post.star_one.data->0.manager == pre.manager.key,
        post.star_two.data->0.manager == pre.manager.key,
        recorded_share(post.star_one) == share_of(
            pre.deposit.data->0.lamports,
            split_percent(raw_percent),
        ),
{
    law_shares_add_up(pre.deposit.data->0.lamports, split_percent(raw_percent));
}

/// The start of a hop over three stars takes the deposit's amount from the
/// planet and puts all of it on the stars; the recorded shares add up to the
/// amount, and the deposit does not change.
pub proof fn law_star_three_start(
    pre: StarHopThreeStart,
    post: StarHopThreeStart,
    star_one: Seq<char>,
    star_two: Seq<char>,
    star_three: Seq<char>,
    raw_percent: u8,
)
    requires
        star_hop_three_start_spec(pre, star_one, star_two, star_three, raw_percent) == Ok::<
            StarHopThreeStart,
            OridionError,
        >(post),
    ensures
        post.deposit == pre.deposit,
        recorded_share(pre.star_one) == 0 && recorded_share(pre.star_two) == 0 && recorded_share(
            pre.star_three,
        ) == 0,
        recorded_share(post.star_one) + recorded_share(post.star_two) + recorded_share(
            post.star_three,
        ) == pre.deposit.data->0.lamports,
        pre.from_planet.lamports - post.from_planet.lamports == pre.deposit.data->0.lamports,
        post.star_one.lamports - pre.star_one.lamports == recorded_share(post.star_one),
        post.star_two.lamports - pre.star_two.lamports == recorded_share(post.star_two),
        post.star_three.lamports - pre.star_three.lamports == recorded_share(post.star_three),
        post.star_one.data->0.manager == pre.manager.key,
        post.star_two.data->0.manager == pre.manager.key,
        post.star_three.data->0.manager == pre.manager.key,
{
    law_shares_add_up(pre.deposit.data->0.lamports, split_percent(raw_percent));
}

/// The end of a hop over two stars puts exactly the deposit's amount on the
/// planet, counts as one hop, leaves the deposit on that planet, and closes
/// the stars: they record no share and hold nothing, and no balance is made
/// or lost.
pub proof fn law_star_two_end(pre: StarHopTwoEnd, post: StarHopTwoEnd, now: i64)
    requires
        star_hop_two_end_spec(pre, now) == Ok::<StarHopTwoEnd, OridionError>(post),
    ensures
        one_hop_later(pre.deposit.data->0, post.deposit.data->0),
        post.deposit.data->0.location == pre.to_planet.data->0.name,
        recorded_share(pre.star_one) + recorded_share(pre.star_two)
            == pre.deposit.data->0.lamports,
        post.to_planet.lamports - pre.to_planet.lamports == pre.deposit.data->0.lamports,
        post.to_planet.data->0.visits == pre.to_planet.data->0.visits + 1,
        post.star_one == star_closed() && post.star_two == star_closed(),
        recorded_share(post.star_one) == 0 && recorded_share(post.star_two) == 0,
        post.deposit.lamports + post.to_planet.lamports + post.star_one.lamports
            + post.star_two.lamports + post.manager.lamports == pre.deposit.lamports
            + pre.to_planet.lamports + pre.star_one.lamports + pre.star_two.lamports
            + pre.manager.lamports,
{
}

/// The end of a hop over three stars puts exactly the deposit's amount on
/// the planet, counts as one hop, leaves the deposit on that planet, and
/// closes the stars: they record no share and hold nothing, and no balance
/// is made or lost.
pub proof fn law_star_three_end(pre: StarHopThreeEnd, post: StarHopThreeEnd, now: i64)
    requires
        star_hop_three_end_spec(pre, now) == Ok::<StarHopThreeEnd, OridionError>(post),
    ensures
        one_hop_later(pre.deposit.data->0, post.deposit.data->0),
        post.deposit.data->0.location == pre.to_planet.data->0.name,
        recorded_share(pre.star_one) + recorded_share(pre.star_two) + recorded_share(
            pre.star_three,
        ) == pre.deposit.data->0.lamports,
        post.to_planet.lamports - pre.to_planet.lamports == pre.deposit.data->0.lamports,
        post.to_planet.data->0.visits == pre.to_planet.data->0.visits + 1,
        post.star_one == star_closed() && post.star_two == star_closed() && post.star_three
            == star_closed(),
        recorded_share(post.star_one) == 0 && recorded_share(post.star_two) == 0
            && recorded_share(post.star_three) == 0,
        post.deposit.lamports + post.to_planet.lamports + post.star_one.lamports
            + post.star_two.lamports + post.star_three.lamports + post.manager.lamports
            == pre.deposit.lamports + pre.to_planet.lamports + pre.star_one.lamports
            + pre.star_two.lamports + pre.star_three.lamports + pre.manager.lamports,
{
}

/// Two stars that were made by a split can be joined by the same operator
/// on any planet that exists: the join is refused for no reason but a
/// balance or a counter at its limit. It then gives the planet the whole
/// deposit, gives the operator back what the stars held before the split,
/// and closes the stars.
pub proof fn law_star_two_round_trip(
    pre: StarHopTwoStart,
    split: StarHopTwoStart,
    star_one: Seq<char>,
    star_two: Seq<char>,
    raw_percent: u8,
    to_planet: Account<Planet>,
    now: i64,
)
    requires
        star_hop_two_start_spec(pre, star_one, star_two, raw_percent) == Ok::<
            StarHopTwoStart,
            OridionError,
        >(split),
        to_planet.data is Some,
    ensures
        match star_hop_two_end_spec(
            StarHopTwoEnd {
                deposit: split.deposit,
                to_planet,
                star_one: split.star_one,
                star_two: split.star_two,
                manager: split.manager,
            },
            now,
        ) {
            Ok(joined) => {
                &&& joined.to_planet.lamports == to_planet.lamports
                    + pre.deposit.data->0.lamports
                &&& joined.manager.lamports == pre.manager.lamports + pre.star_one.lamports
                    + pre.star_two.lamports
                &&& joined.star_one == star_closed()
                &&& joined.star_two == star_closed()
                &&& one_hop_later(pre.deposit.data->0, joined.deposit.data->0)
            },
            Err(e) => e == OridionError::ArithmeticOverflow,
        },
{
    law_star_two_start(pre, split, star_one, star_two, raw_percent);
}

/// Three stars that were made by a split can be joined by the same operator
/// on any planet that exists: the join is refused for no reason but a
/// balance or a counter at its limit. It then gives the planet the whole
/// deposit, gives the operator back what the stars held before the split,
/// and closes the stars.
pub proof fn law_star_three_round_trip(
    pre: StarHopThreeStart,
    split: StarHopThreeStart,
    star_one: Seq<char>,
    star_two: Seq<char>,
    star_three: Seq<char>,
    raw_percent: u8,
    to_planet: Account<Planet>,
    now: i64,
)
    requires
        star_hop_three_start_spec(pre, star_one, star_two, star_three, raw_percent) == Ok::<
            StarHopThreeStart,
            OridionError,
        >(split),
        to_planet.data is Some,
    ensures
        match star_hop_three_end_spec(
            StarHopThreeEnd {
                deposit: split.deposit,
                to_planet,
                star_one: split.star_one,
                star_two: split.star_two,
                star_three: split.star_three,
                manager: split.manager,
            },
            now,
        ) {
            Ok(joined) => {
                &&& joined.to_planet.lamports == to_planet.lamports
                    + pre.deposit.data->0.lamports
                &&& joined.manager.lamports == pre.manager.lamports + pre.star_one.lamports
                    + pre.star_two.lamports + pre.star_three.lamports
                &&& joined.star_one == star_closed()
                &&& joined.star_two == star_closed()
                &&& joined.star_three == star_closed()
                &&& one_hop_later(pre.deposit.data->0, joined.deposit.data->0)
            },
            Err(e) => e == OridionError::ArithmeticOverflow,
        },
{
    law_star_three_start(pre, split, star_one, star_two, star_three, raw_percent);
}

/// A withdrawal pays exactly the deposit's amount from the planet to the
/// deposit's destination and closes the deposit, and no balance is made or
/// lost. A closed deposit cannot be withdrawn again.
pub proof fn law_withdraw(pre: WithdrawAccounts, post: WithdrawAccounts)
    requires
        withdraw_spec(pre) == Ok::<WithdrawAccounts, OridionError>(post),
    ensures
        post.destination.key == pre.deposit.data->0.destination,
        post.destination.lamports - pre.destination.lamports == pre.deposit.data->0.lamports,
        pre.from_planet.lamports - post.from_planet.lamports == pre.deposit.data->0.lamports,
        post.from_planet.lamports >= 1,
        post.deposit.data is None && post.deposit.lamports == 0,
        post.deposit.lamports + post.from_planet.lamports + post.destination.lamports
            + post.manager.lamports == pre.deposit.lamports + pre.from_planet.lamports
            + pre.destination.lamports + pre.manager.lamports,
        withdraw_spec(post) == Err::<WithdrawAccounts, OridionError>(
            OridionError::AccountNotInitialized,
        ),
{
}

/// However many stops a deposit makes, its amount and its destination stay
/// the same, its hop count goes up by one for each stop, and it is located
/// on the planet of the last stop.
pub proof fn law_travel(deposit: Deposit, stops: Seq<(String, i64)>)
    requires
        deposit.hops + stops.len() <= u16::MAX,
    ensures
        travelled(deposit, stops).hops == deposit.hops + stops.len(),
        travelled(deposit, stops).lamports == deposit.lamports,
        travelled(deposit, stops).destination == deposit.destination,
        travelled(deposit, stops).withdraw_at == deposit.withdraw_at,
        travelled(deposit, stops).created_at == deposit.created_at,
        stops.len() > 0 ==> travelled(deposit, stops).location == stops.last().0,
    decreases stops.len(),
{
    if stops.len() > 0 {
        law_travel(deposit, stops.drop_last());
    }
}

/// A planet that was created has a name that fits its record.
pub proof fn law_created_planet_is_well_formed(
    pre: CreatePlanet,
    post: CreatePlanet,
    name: String,
    pda: Pubkey,
    bump: u8,
    now: i64,
)
    requires
        create_planet_refusal(pre, name@, Some(pda)) is None,
        create_planet_done(pre, post, name, pda, bump, now),
    ensures
        post.planet.data->0.well_formed(),
        post.planet.data->0.visits == 0,
{
}

/// A deposit that is made on, or arrives on, a planet whose name fits its
/// record has a location that fits its own.
pub proof fn law_deposit_stays_well_formed(
    made: CreateDeposit,
    hop: PlanetHop,
    two: StarHopTwoEnd,
    three: StarHopThreeEnd,
    deposit_lamports: u64,
    mode: u8,
    delay: u32,
    withdraw_at: i64,
    now: i64,
)
    ensures
        create_deposit_spec(made, deposit_lamports, mode, delay, withdraw_at, now) matches Ok(post)
            ==> (made.planet.data->0.well_formed() ==> post.deposit.data->0.well_formed()),
        planet_hop_spec(hop, now) matches Ok(post) ==> (hop.to_planet.data->0.well_formed()
            ==> post.deposit.data->0.well_formed()),
        star_hop_two_end_spec(two, now) matches Ok(post) ==> (two.to_planet.data->0.well_formed()
            ==> post.deposit.data->0.well_formed()),
        star_hop_three_end_spec(three, now) matches Ok(post) ==> (
        three.to_planet.data->0.well_formed() ==> post.deposit.data->0.well_formed()),
{
}

} // verus!
