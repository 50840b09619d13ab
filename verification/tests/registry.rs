use oridion::variables::EMPTY_PLANET_LAMPORTS;
use oridion::{
    bang_at, create_planet_at, delete_planet, manager_pubkey, update_fee, Account, BigBang,
    CreatePlanet, DeletePlanet, OridionError, Planet, Pubkey, SystemAccount, Universe,
    UpdateUniverseFee,
};

fn key(byte: u8) -> Pubkey {
    Pubkey { bytes: [byte; 32] }
}

fn manager(lamports: u64) -> SystemAccount {
    SystemAccount { key: manager_pubkey(), lamports }
}

fn universe_record(names: &[&str]) -> Universe {
    Universe {
        pda: key(8),
        p: names.iter().map(|n| n.to_string()).collect(),
        st: 100,
        up: 200,
        bp: 255,
        cfe: 0,
        hpfe: 1_000_000,
        hsfe2: 2_000_000,
        hsfe3: 3_000_000,
        wfe: 0,
    }
}

fn universe(names: &[&str]) -> Account<Universe> {
    Account { lamports: 9_000, data: Some(universe_record(names)) }
}

fn planet(name: &str, lamports: u64) -> Account<Planet> {
    Account {
        lamports,
        data: Some(Planet { name: name.to_string(), pda: key(9), created: 5, bump: 254, visits: 3 }),
    }
}

fn new_planet_accounts() -> CreatePlanet {
    CreatePlanet {
        planet: Account { lamports: EMPTY_PLANET_LAMPORTS, data: None },
        universe: universe(&["BABALO"]),
        creator: manager(500),
    }
}

#[test]
fn bang_starts_the_universe_with_the_first_fees() {
    let mut ctx = BigBang { universe: Account { lamports: 7, data: None }, creator: manager(1) };
    assert_eq!(bang_at(&mut ctx, Some(key(8)), 253, 1_000), Ok(()));
    assert_eq!(
        ctx,
        BigBang {
            universe: Account {
                lamports: 7,
                data: Some(Universe {
                    pda: key(8),
                    p: vec![],
                    st: 1_000,
                    up: 1_000,
                    bp: 253,
                    cfe: 0,
                    hpfe: 1_000_000,
                    hsfe2: 2_000_000,
                    hsfe3: 3_000_000,
                    wfe: 0,
                }),
            },
            creator: manager(1),
        }
    );
}

#[test]
fn bang_is_refused_for_each_of_its_reasons() {
    let mut ctx = BigBang {
        universe: Account { lamports: 7, data: None },
        creator: SystemAccount { key: key(1), lamports: 1 },
    };
    let before = ctx.clone();
    assert_eq!(bang_at(&mut ctx, Some(key(8)), 253, 1_000), Err(OridionError::AuthorityMismatch));
    assert_eq!(ctx, before);

    let mut ctx = BigBang { universe: universe(&[]), creator: manager(1) };
    let before = ctx.clone();
    assert_eq!(
        bang_at(&mut ctx, Some(key(8)), 253, 1_000),
        Err(OridionError::AccountAlreadyInUse)
    );
    assert_eq!(ctx, before);

    let mut ctx = BigBang { universe: Account { lamports: 7, data: None }, creator: manager(1) };
    let before = ctx.clone();
    assert_eq!(bang_at(&mut ctx, None, 253, 1_000), Err(OridionError::ProgramAddressNotFound));
    assert_eq!(ctx, before);
}

#[test]
fn update_fee_sets_the_five_fees_and_the_time() {
    let mut ctx = UpdateUniverseFee { universe: universe(&["BABALO"]), creator: manager(1) };
    assert_eq!(update_fee(&mut ctx, 1, 2, 3, 4, u32::MAX, 5_000), Ok(()));
    let mut expected = universe_record(&["BABALO"]);
    expected.up = 5_000;
    expected.cfe = 1;
    expected.hpfe = 2;
    expected.hsfe2 = 3;
    expected.hsfe3 = 4;
    expected.wfe = 4_294_967_295;
    assert_eq!(ctx.universe, Account { lamports: 9_000, data: Some(expected) });
    assert_eq!(ctx.creator, manager(1));
}

#[test]
fn update_fee_is_refused_for_each_of_its_reasons() {
    let mut ctx = UpdateUniverseFee {
        universe: universe(&["BABALO"]),
        creator: SystemAccount { key: key(1), lamports: 1 },
    };
    let before = ctx.clone();
    assert_eq!(update_fee(&mut ctx, 1, 2, 3, 4, 5, 5_000), Err(OridionError::AuthorityMismatch));
    assert_eq!(ctx, before);

    let mut ctx =
        UpdateUniverseFee { universe: Account { lamports: 1, data: None }, creator: manager(1) };
    let before = ctx.clone();
    assert_eq!(
        update_fee(&mut ctx, 1, 2, 3, 4, 5, 5_000),
        Err(OridionError::AccountNotInitialized)
    );
    assert_eq!(ctx, before);
}

#[test]
fn create_planet_records_the_planet_and_lists_its_name() {
    let mut ctx = new_planet_accounts();
    assert_eq!(create_planet_at(&mut ctx, "VREDIA".to_string(), Some(key(5)), 250, 1_000), Ok(()));
    assert_eq!(
        ctx,
        CreatePlanet {
            planet: Account {
                lamports: EMPTY_PLANET_LAMPORTS,
                data: Some(Planet {
                    name: "VREDIA".to_string(),
                    pda: key(5),
                    created: 1_000,
                    bump: 250,
                    visits: 0,
                }),
            },
            universe: universe(&["BABALO", "VREDIA"]),
            creator: manager(500),
        }
    );
}

#[test]
fn create_planet_takes_a_name_of_ten_bytes_and_refuses_eleven() {
    let mut ctx = new_planet_accounts();
    assert_eq!(
        create_planet_at(&mut ctx, "ABCDEFGHIJ".to_string(), Some(key(5)), 250, 1_000),
        Ok(())
    );
    let mut ctx = new_planet_accounts();
    let before = ctx.clone();
    assert_eq!(
        create_planet_at(&mut ctx, "ABCDEFGHIJK".to_string(), Some(key(5)), 250, 1_000),
        Err(OridionError::PlanetNameTooLong)
    );
    assert_eq!(ctx, before);
}

#[test]
fn create_planet_counts_the_bytes_of_a_name() {
    // five characters of two bytes each
    let mut ctx = new_planet_accounts();
    assert_eq!(
        create_planet_at(&mut ctx, "ééééé".to_string(), Some(key(5)), 250, 1_000),
        Ok(())
    );
    // six of them are twelve bytes
    let mut ctx = new_planet_accounts();
    assert_eq!(
        create_planet_at(&mut ctx, "éééééé".to_string(), Some(key(5)), 250, 1_000),
        Err(OridionError::PlanetNameTooLong)
    );
}

#[test]
fn create_planet_is_refused_for_each_of_its_other_reasons() {
    let mut ctx = new_planet_accounts();
    ctx.creator.key = key(1);
    let before = ctx.clone();
    assert_eq!(
        create_planet_at(&mut ctx, "VREDIA".to_string(), Some(key(5)), 250, 1_000),
        Err(OridionError::AuthorityMismatch)
    );
    assert_eq!(ctx, before);

    let mut ctx = new_planet_accounts();
    ctx.universe.data = None;
    assert_eq!(
        create_planet_at(&mut ctx, "VREDIA".to_string(), Some(key(5)), 250, 1_000),
        Err(OridionError::AccountNotInitialized)
    );

    let mut ctx = new_planet_accounts();
    ctx.planet = planet("VREDIA", 10);
    let before = ctx.clone();
    assert_eq!(
        create_planet_at(&mut ctx, "VREDIA".to_string(), Some(key(5)), 250, 1_000),
        Err(OridionError::AccountAlreadyInUse)
    );
    assert_eq!(ctx, before);

    let mut ctx = new_planet_accounts();
    let before = ctx.clone();
    assert_eq!(
        create_planet_at(&mut ctx, "VREDIA".to_string(), None, 250, 1_000),
        Err(OridionError::ProgramAddressNotFound)
    );
    assert_eq!(ctx, before);
}

#[test]
fn delete_planet_closes_it_and_drops_its_name() {
    let mut ctx = DeletePlanet {
        planet: planet("VREDIA", EMPTY_PLANET_LAMPORTS),
        universe: universe(&["BABALO", "VREDIA", "OMURIA", "VREDIA"]),
        creator: manager(500),
    };
    assert_eq!(delete_planet(&mut ctx), Ok(()));
    assert_eq!(
        ctx,
        DeletePlanet {
            planet: Account { lamports: 0, data: None },
            universe: universe(&["BABALO", "OMURIA"]),
            creator: manager(500 + EMPTY_PLANET_LAMPORTS),
        }
    );
}

#[test]
fn delete_planet_of_a_name_that_is_not_listed_keeps_the_list() {
    let mut ctx = DeletePlanet {
        planet: planet("VREDIA", 10),
        universe: universe(&["BABALO", "OMURIA"]),
        creator: manager(500),
    };
    assert_eq!(delete_planet(&mut ctx), Ok(()));
    assert_eq!(ctx.universe, universe(&["BABALO", "OMURIA"]));
    assert_eq!(ctx.creator, manager(510));
}

#[test]
fn delete_planet_that_holds_deposits_is_refused() {
    let mut ctx = DeletePlanet {
        planet: planet("VREDIA", EMPTY_PLANET_LAMPORTS + 1),
        universe: universe(&["BABALO", "VREDIA"]),
        creator: manager(500),
    };
    let before = ctx.clone();
    assert_eq!(delete_planet(&mut ctx), Err(OridionError::PlanetDeleteHasFundsError));
    assert_eq!(ctx, before);
}

#[test]
fn delete_planet_is_refused_for_each_of_its_other_reasons() {
    let mut ctx = DeletePlanet {
        planet: planet("VREDIA", 10),
        universe: universe(&["VREDIA"]),
        creator: SystemAccount { key: key(1), lamports: 0 },
    };
    let before = ctx.clone();
    assert_eq!(delete_planet(&mut ctx), Err(OridionError::AuthorityMismatch));
    assert_eq!(ctx, before);

    let mut ctx = DeletePlanet {
        planet: Account { lamports: 10, data: None },
        universe: universe(&["VREDIA"]),
        creator: manager(500),
    };
    assert_eq!(delete_planet(&mut ctx), Err(OridionError::AccountNotInitialized));

    let mut ctx = DeletePlanet {
        planet: planet("VREDIA", 10),
        universe: Account { lamports: 10, data: None },
        creator: manager(500),
    };
    assert_eq!(delete_planet(&mut ctx), Err(OridionError::AccountNotInitialized));

    let mut ctx = DeletePlanet {
        planet: planet("VREDIA", 10),
        universe: universe(&["VREDIA"]),
        creator: manager(u64::MAX - 9),
    };
    let before = ctx.clone();
    assert_eq!(delete_planet(&mut ctx), Err(OridionError::ArithmeticOverflow));
    assert_eq!(ctx, before);
}
