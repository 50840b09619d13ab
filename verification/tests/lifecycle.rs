use oridion::variables::{
    HOP_WINDOW, INITIAL_HOPS, LAST_DEPOSITED, LAST_HOPPED, MODE_DELAY, MODE_INSTANT, MODE_MANUAL,
    PROCESS_HOP, PROCESS_WITHDRAW,
};
use oridion::{
    create_deposit, hop_deposit, manager_pubkey, planet_hop, schedule_next, Account,
    CreateDeposit, Deposit, OridionError, Planet, PlanetHop, Pubkey, SystemAccount, Universe,
};

fn key(byte: u8) -> Pubkey {
    Pubkey { bytes: [byte; 32] }
}

fn planet(name: &str, visits: u64, lamports: u64) -> Account<Planet> {
    Account {
        lamports,
        data: Some(Planet { name: name.to_string(), pda: key(9), created: 5, bump: 254, visits }),
    }
}

fn universe(lamports: u64) -> Account<Universe> {
    Account {
        lamports,
        data: Some(Universe {
            pda: key(8),
            p: vec!["BABALO".to_string(), "VREDIA".to_string()],
            st: 1,
            up: 2,
            bp: 255,
            cfe: 0,
            hpfe: 1_000_000,
            hsfe2: 2_000_000,
            hsfe3: 3_000_000,
            wfe: 0,
        }),
    }
}

fn deposit(mode: u8, hops: u16, withdraw_at: i64) -> Deposit {
    Deposit {
        mode,
        next_process_at: 111,
        next_process: PROCESS_HOP,
        last_process: LAST_DEPOSITED,
        location: "BABALO".to_string(),
        delay: 60,
        hops,
        withdraw_at,
        created_at: 100,
        last_process_at: 100,
        lamports: 1_000_000,
        destination: key(7),
    }
}

fn new_deposit_accounts() -> CreateDeposit {
    CreateDeposit {
        deposit: Account { lamports: 2_000, data: None },
        creator: SystemAccount { key: key(1), lamports: 5_000_000 },
        universe: universe(10_000),
        planet: planet("BABALO", 41, 1_593_840),
        destination: SystemAccount { key: key(7), lamports: 3 },
    }
}

#[test]
fn hop_window_is_180_seconds() {
    assert_eq!(HOP_WINDOW, 180);
    assert_eq!(INITIAL_HOPS, 2);
}

#[test]
fn schedule_hops_while_a_window_fits() {
    assert_eq!(schedule_next(1_000, 4_600), (PROCESS_HOP, 1_180));
    assert_eq!(schedule_next(1_000, 1_180), (PROCESS_HOP, 1_180));
}

#[test]
fn schedule_withdraws_when_a_window_passes_the_target() {
    assert_eq!(schedule_next(1_000, 1_179), (PROCESS_WITHDRAW, 1_179));
    assert_eq!(schedule_next(1_000, 1_000), (PROCESS_WITHDRAW, 1_000));
    assert_eq!(schedule_next(1_000, -5), (PROCESS_WITHDRAW, -5));
}

#[test]
fn schedule_at_the_end_of_time_withdraws() {
    assert_eq!(schedule_next(i64::MAX, i64::MAX), (PROCESS_WITHDRAW, i64::MAX));
    assert_eq!(schedule_next(i64::MAX - 179, i64::MAX), (PROCESS_WITHDRAW, i64::MAX));
    assert_eq!(schedule_next(i64::MAX - 180, i64::MAX), (PROCESS_HOP, i64::MAX));
    assert_eq!(schedule_next(i64::MIN, i64::MIN), (PROCESS_WITHDRAW, i64::MIN));
}

#[test]
fn hop_of_a_delay_deposit_schedules_the_next_hop() {
    let mut d = deposit(MODE_DELAY, 2, 4_600);
    hop_deposit(&mut d, 1_000);
    let mut expected = deposit(MODE_DELAY, 3, 4_600);
    expected.last_process = LAST_HOPPED;
    expected.last_process_at = 1_000;
    expected.next_process = PROCESS_HOP;
    expected.next_process_at = 1_180;
    assert_eq!(d, expected);
}

#[test]
fn hop_of_a_delay_deposit_near_its_target_schedules_the_withdrawal() {
    let mut d = deposit(MODE_DELAY, 9, 4_600);
    hop_deposit(&mut d, 4_500);
    assert_eq!(d.hops, 10);
    assert_eq!(d.last_process, LAST_HOPPED);
    assert_eq!(d.last_process_at, 4_500);
    assert_eq!(d.next_process, PROCESS_WITHDRAW);
    assert_eq!(d.next_process_at, 4_600);
}

#[test]
fn hop_of_an_instant_or_manual_deposit_leaves_the_schedule() {
    for mode in [MODE_INSTANT, MODE_MANUAL, 0, 200] {
        let mut d = deposit(mode, 2, 4_600);
        hop_deposit(&mut d, 4_500);
        let mut expected = deposit(mode, 3, 4_600);
        expected.last_process = LAST_HOPPED;
        expected.last_process_at = 4_500;
        assert_eq!(d, expected);
    }
}

#[test]
fn hop_keeps_amount_destination_and_location() {
    let mut d = deposit(MODE_DELAY, 2, 4_600);
    hop_deposit(&mut d, 1_000);
    assert_eq!(d.lamports, 1_000_000);
    assert_eq!(d.destination, key(7));
    assert_eq!(d.location, "BABALO");
    assert_eq!(d.created_at, 100);
    assert_eq!(d.delay, 60);
}

#[test]
fn create_deposit_with_an_hour_of_delay_schedules_a_hop() {
    let now = 1_711_686_392;
    let mut ctx = new_deposit_accounts();
    assert_eq!(create_deposit(&mut ctx, 1_000_000, MODE_DELAY, 3_600, now + 3_600, now), Ok(()));
    let d = ctx.deposit.data.clone().unwrap();
    assert_eq!(
        d,
        Deposit {
            mode: MODE_DELAY,
            next_process_at: now + 180,
            next_process: PROCESS_HOP,
            last_process: LAST_DEPOSITED,
            location: "BABALO".to_string(),
            delay: 3_600,
            hops: 2,
            withdraw_at: now + 3_600,
            created_at: now,
            last_process_at: now,
            lamports: 1_000_000,
            destination: key(7),
        }
    );
}

#[test]
fn create_deposit_moves_the_amount_from_the_depositor_to_the_planet() {
    let mut ctx = new_deposit_accounts();
    assert_eq!(create_deposit(&mut ctx, 1_000_000, MODE_DELAY, 3_600, 9_000, 1_000), Ok(()));
    assert_eq!(ctx.creator, SystemAccount { key: key(1), lamports: 4_000_000 });
    assert_eq!(ctx.planet, planet("BABALO", 42, 2_593_840));
    assert_eq!(ctx.universe, universe(10_000));
    assert_eq!(ctx.destination, SystemAccount { key: key(7), lamports: 3 });
    assert_eq!(ctx.deposit.lamports, 2_000);
}

#[test]
fn create_deposit_close_to_its_target_schedules_the_withdrawal() {
    let mut ctx = new_deposit_accounts();
    assert_eq!(create_deposit(&mut ctx, 10, MODE_INSTANT, 0, 1_100, 1_000), Ok(()));
    let d = ctx.deposit.data.clone().unwrap();
    assert_eq!(d.next_process, PROCESS_WITHDRAW);
    assert_eq!(d.next_process_at, 1_100);
    assert_eq!(d.mode, MODE_INSTANT);
}

#[test]
fn create_deposit_then_one_planet_hop() {
    let now = 1_711_686_392;
    let mut ctx = new_deposit_accounts();
    assert_eq!(create_deposit(&mut ctx, 1_000_000, MODE_DELAY, 3_600, now + 3_600, now), Ok(()));
    let mut hop = PlanetHop {
        deposit: ctx.deposit.clone(),
        to_planet: planet("VREDIA", 0, 1_593_840),
        from_planet: ctx.planet.clone(),
        manager: SystemAccount { key: manager_pubkey(), lamports: 77 },
    };
    assert_eq!(planet_hop(&mut hop, now + 200), Ok(()));
    let d = hop.deposit.data.clone().unwrap();
    assert_eq!(d.hops, 3);
    assert_eq!(d.location, "VREDIA");
    assert_eq!(d.last_process, LAST_HOPPED);
    assert_eq!(d.last_process_at, now + 200);
    assert_eq!(d.next_process, PROCESS_HOP);
    assert_eq!(d.next_process_at, now + 380);
    assert_eq!(d.lamports, 1_000_000);
    assert_eq!(hop.from_planet.lamports, 1_593_840);
    assert_eq!(hop.to_planet.lamports, 2_593_840);
}

#[test]
fn create_deposit_on_an_existing_deposit_is_refused() {
    let mut ctx = new_deposit_accounts();
    ctx.deposit.data = Some(deposit(MODE_DELAY, 2, 4_600));
    let before = ctx.clone();
    assert_eq!(
        create_deposit(&mut ctx, 1_000_000, MODE_DELAY, 60, 9_000, 1_000),
        Err(OridionError::AccountAlreadyInUse)
    );
    assert_eq!(ctx, before);
}

#[test]
fn create_deposit_without_planet_or_universe_is_refused() {
    let mut ctx = new_deposit_accounts();
    ctx.planet.data = None;
    let before = ctx.clone();
    assert_eq!(
        create_deposit(&mut ctx, 1_000_000, MODE_DELAY, 60, 9_000, 1_000),
        Err(OridionError::AccountNotInitialized)
    );
    assert_eq!(ctx, before);
    let mut ctx = new_deposit_accounts();
    ctx.universe.data = None;
    let before = ctx.clone();
    assert_eq!(
        create_deposit(&mut ctx, 1_000_000, MODE_DELAY, 60, 9_000, 1_000),
        Err(OridionError::AccountNotInitialized)
    );
    assert_eq!(ctx, before);
}

#[test]
fn create_deposit_beyond_the_depositors_balance_is_refused() {
    let mut ctx = new_deposit_accounts();
    let before = ctx.clone();
    assert_eq!(
        create_deposit(&mut ctx, 5_000_001, MODE_DELAY, 60, 9_000, 1_000),
        Err(OridionError::ArithmeticOverflow)
    );
    assert_eq!(ctx, before);
    assert_eq!(create_deposit(&mut ctx, 5_000_000, MODE_DELAY, 60, 9_000, 1_000), Ok(()));
    assert_eq!(ctx.creator.lamports, 0);
}

#[test]
fn create_deposit_that_overflows_a_balance_or_the_visits_is_refused() {
    let mut ctx = new_deposit_accounts();
    ctx.planet.lamports = u64::MAX - 9;
    let before = ctx.clone();
    assert_eq!(
        create_deposit(&mut ctx, 10, MODE_DELAY, 60, 9_000, 1_000),
        Err(OridionError::ArithmeticOverflow)
    );
    assert_eq!(ctx, before);

    let mut ctx = new_deposit_accounts();
    ctx.universe.lamports = u64::MAX;
    assert_eq!(
        create_deposit(&mut ctx, 1, MODE_DELAY, 60, 9_000, 1_000),
        Err(OridionError::ArithmeticOverflow)
    );

    let mut ctx = new_deposit_accounts();
    ctx.planet = planet("BABALO", u64::MAX, 0);
    assert_eq!(
        create_deposit(&mut ctx, 1, MODE_DELAY, 60, 9_000, 1_000),
        Err(OridionError::ArithmeticOverflow)
    );
}
