use oridion::{clamp_percent, get_random_percent, percent_of, split_three, split_two};

#[test]
fn percent_is_last_two_digits_of_timestamp() {
    assert_eq!(get_random_percent(1_711_686_335), 35);
    assert_eq!(get_random_percent(1_711_686_370), 70);
    assert_eq!(get_random_percent(1_711_686_310), 10);
    assert_eq!(get_random_percent(1_711_686_390), 90);
}

#[test]
fn percent_is_clamped_below_ten() {
    assert_eq!(get_random_percent(1_711_686_300), 10);
    assert_eq!(get_random_percent(1_711_686_309), 10);
    assert_eq!(get_random_percent(0), 10);
    assert_eq!(get_random_percent(7), 10);
}

#[test]
fn percent_is_clamped_above_ninety() {
    assert_eq!(get_random_percent(1_711_686_391), 90);
    assert_eq!(get_random_percent(1_711_686_399), 90);
    assert_eq!(get_random_percent(99), 90);
}

#[test]
fn percent_of_negative_timestamp_uses_its_digits() {
    assert_eq!(get_random_percent(-1_745), 45);
    assert_eq!(get_random_percent(-5), 10);
    assert_eq!(get_random_percent(-99), 90);
    assert_eq!(get_random_percent(i64::MIN), 10);
    assert_eq!(get_random_percent(i64::MAX), 10);
}

#[test]
fn percent_is_in_range_for_every_last_two_digits() {
    for now in 1_700_000_000i64..1_700_000_200 {
        let percent = get_random_percent(now);
        assert!((10..=90).contains(&percent));
    }
}

#[test]
fn clamp_keeps_values_in_range_and_moves_the_rest() {
    assert_eq!(clamp_percent(0), 10);
    assert_eq!(clamp_percent(9), 10);
    assert_eq!(clamp_percent(10), 10);
    assert_eq!(clamp_percent(55), 55);
    assert_eq!(clamp_percent(90), 90);
    assert_eq!(clamp_percent(91), 90);
    assert_eq!(clamp_percent(255), 90);
}

#[test]
fn percent_of_rounds_down() {
    assert_eq!(percent_of(1_000_000, 35), 350_000);
    assert_eq!(percent_of(999, 10), 99);
    assert_eq!(percent_of(1, 90), 0);
    assert_eq!(percent_of(0, 50), 0);
    assert_eq!(percent_of(7, 100), 7);
    assert_eq!(percent_of(7, 0), 0);
}

#[test]
fn percent_of_the_largest_amount_does_not_overflow() {
    assert_eq!(percent_of(u64::MAX, 100), u64::MAX);
    assert_eq!(percent_of(u64::MAX, 90), 16_602_069_666_338_596_453);
    assert_eq!(percent_of(u64::MAX, 10), 1_844_674_407_370_955_161);
}

#[test]
fn split_two_of_a_million_at_35_percent() {
    assert_eq!(split_two(1_000_000, 35), (350_000, 650_000));
}

#[test]
fn split_two_gives_the_remainder_to_the_second_share() {
    assert_eq!(split_two(101, 50), (50, 51));
    assert_eq!(split_two(1, 90), (0, 1));
    assert_eq!(split_two(0, 10), (0, 0));
}

#[test]
fn split_three_of_a_million_at_70_percent_splits_the_first_side() {
    assert_eq!(split_three(1_000_000, 70), (210_000, 300_000, 490_000));
}

#[test]
fn split_three_at_30_percent_splits_the_second_side() {
    // sides 300000 and 700000; the second is split at 70 percent
    assert_eq!(split_three(1_000_000, 30), (300_000, 490_000, 210_000));
}

#[test]
fn split_three_of_equal_sides_splits_the_second() {
    assert_eq!(split_three(1_000, 50), (500, 250, 250));
}

#[test]
fn split_shares_add_up_for_many_totals() {
    let totals = [0u64, 1, 2, 3, 99, 100, 101, 12_345, 1_000_000, u64::MAX - 1, u64::MAX];
    for total in totals {
        for percent in 10u8..=90 {
            let two = split_two(total, percent);
            assert_eq!(two.0 as u128 + two.1 as u128, total as u128);
            let three = split_three(total, percent);
            assert_eq!(three.0 as u128 + three.1 as u128 + three.2 as u128, total as u128);
        }
    }
}
