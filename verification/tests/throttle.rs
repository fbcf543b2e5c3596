use curve_launchpad::{
    check_buy_sell, max_transfer_amount, Address, BondingCurve, CurveLaunchpadError, Team,
    UserTransferData,
};

fn address(tag: u8) -> Address {
    Address::new([tag; 32])
}

fn curve(creator: Address, token_total_supply: u64) -> BondingCurve {
    BondingCurve {
        virtual_sol_reserves: 30_000_000_000,
        virtual_token_reserves: token_total_supply,
        real_sol_reserves: 0,
        real_token_reserves: token_total_supply,
        token_total_supply,
        complete: false,
        creator,
        team: Team::Blue,
        token_account: address(9),
    }
}

#[test]
fn creator_gets_half_a_percent_after_one_hour() {
    let now: i64 = 1_700_000_000;
    let creator = address(1);
    let curve = curve(creator, 1_000_000);
    let record = UserTransferData { last_transfer_timestamp: now - 3600 };
    assert_eq!(max_transfer_amount(&record, &creator, &curve, now), 5000);

    let mut at_limit = record;
    assert_eq!(check_buy_sell(&mut at_limit, &creator, &curve, 5000, now), Ok(()));
    assert_eq!(at_limit.last_transfer_timestamp, now);

    let mut over_limit = record;
    assert_eq!(
        check_buy_sell(&mut over_limit, &creator, &curve, 5001, now),
        Err(CurveLaunchpadError::RateLimited)
    );
    assert_eq!(over_limit.last_transfer_timestamp, now - 3600);
}

#[test]
fn others_may_trade_up_to_the_whole_supply() {
    let now: i64 = 1_700_000_000;
    let curve = curve(address(1), 1_000_000);
    let stranger = address(2);
    let mut record = UserTransferData { last_transfer_timestamp: now - 3600 };
    assert_eq!(check_buy_sell(&mut record, &stranger, &curve, 999_999, now), Ok(()));
    assert_eq!(record.last_transfer_timestamp, now);

    let mut fresh = UserTransferData { last_transfer_timestamp: now };
    assert_eq!(max_transfer_amount(&fresh, &stranger, &curve, now), 1_000_000);
    assert_eq!(check_buy_sell(&mut fresh, &stranger, &curve, 1_000_000, now), Ok(()));
    assert_eq!(
        check_buy_sell(&mut fresh, &stranger, &curve, 1_000_001, now),
        Err(CurveLaunchpadError::RateLimited)
    );
}

#[test]
fn creator_allowance_grows_with_the_seconds_gone_by() {
    let now: i64 = 1_000_000;
    let creator = address(1);
    let curve = curve(creator, 1_000_000);
    let after = |seconds: i64| {
        let record = UserTransferData { last_transfer_timestamp: now - seconds };
        max_transfer_amount(&record, &creator, &curve, now)
    };
    assert_eq!(after(0), 0);
    assert_eq!(after(1), 1);
    assert_eq!(after(719), 998);
    assert_eq!(after(720), 1000);
    assert_eq!(after(1800), 2500);
    assert_eq!(after(3599), 4998);
    assert_eq!(after(3600), 5000);
}

#[test]
fn creator_allowance_is_capped_at_half_a_percent() {
    let now: i64 = 1_000_000;
    let creator = address(1);
    let curve = curve(creator, 1_000_000);
    for seconds in [3601_i64, 7200, 86_400, 1_000_000] {
        let record = UserTransferData { last_transfer_timestamp: now - seconds };
        assert_eq!(max_transfer_amount(&record, &creator, &curve, now), 5000);
    }
}

#[test]
fn creator_allowance_rounds_down() {
    let now: i64 = 10_000;
    let creator = address(1);
    let record = UserTransferData { last_transfer_timestamp: 0 };
    assert_eq!(max_transfer_amount(&record, &creator, &curve(creator, 199), now), 0);
    assert_eq!(max_transfer_amount(&record, &creator, &curve(creator, 200), now), 1);
    assert_eq!(max_transfer_amount(&record, &creator, &curve(creator, 399), now), 1);
    assert_eq!(
        max_transfer_amount(&record, &creator, &curve(creator, u64::MAX), now),
        u64::MAX / 200
    );
}

#[test]
fn a_record_from_the_future_allows_the_creator_nothing() {
    let now: i64 = 1_000;
    let creator = address(1);
    let curve = curve(creator, 1_000_000);
    let mut record = UserTransferData { last_transfer_timestamp: now + 10 };
    assert_eq!(max_transfer_amount(&record, &creator, &curve, now), 0);
    assert_eq!(
        check_buy_sell(&mut record, &creator, &curve, 1, now),
        Err(CurveLaunchpadError::RateLimited)
    );
    assert_eq!(check_buy_sell(&mut record, &creator, &curve, 0, now), Ok(()));
    assert_eq!(record.last_transfer_timestamp, now);
}

#[test]
fn timestamps_at_the_ends_of_the_range_do_not_overflow() {
    let creator = address(1);
    let curve = curve(creator, 1_000_000);
    let oldest = UserTransferData { last_transfer_timestamp: i64::MIN };
    assert_eq!(max_transfer_amount(&oldest, &creator, &curve, i64::MAX), 5000);
    let newest = UserTransferData { last_transfer_timestamp: i64::MAX };
    assert_eq!(max_transfer_amount(&newest, &creator, &curve, i64::MIN), 0);
}

#[test]
fn a_first_record_starts_at_zero() {
    let record = UserTransferData::default();
    assert_eq!(record.last_transfer_timestamp, 0);
    let creator = address(1);
    let curve = curve(creator, 1_000_000);
    assert_eq!(max_transfer_amount(&record, &creator, &curve, 1_700_000_000), 5000);
}

#[test]
fn a_passing_check_stamps_the_record_of_anyone() {
    let curve = curve(address(1), 1_000_000);
    let mut record = UserTransferData { last_transfer_timestamp: 5 };
    assert_eq!(check_buy_sell(&mut record, &address(7), &curve, 10, 42), Ok(()));
    assert_eq!(record, UserTransferData { last_transfer_timestamp: 42 });
}

#[test]
fn addresses_are_told_apart_by_any_byte() {
    let mut bytes = [3u8; 32];
    let creator = Address::new(bytes);
    bytes[31] = 4;
    let near = Address::new(bytes);
    assert!(creator.same_as(&Address::new([3u8; 32])));
    assert!(!creator.same_as(&near));
    assert_eq!(near.to_bytes()[31], 4);

    let curve = curve(creator, 1_000_000);
    let record = UserTransferData { last_transfer_timestamp: 0 };
    assert_eq!(max_transfer_amount(&record, &creator, &curve, 3600), 5000);
    assert_eq!(max_transfer_amount(&record, &near, &curve, 3600), 1_000_000);
}
