use rwa_hub::address::Address;
use rwa_hub::asset::{create_asset, Asset, ASSET_LEN};
use rwa_hub::dividend::{
    claim_dividend, close_dividend, create_dividend, set_holders_info, DividendPool,
    DividendRecord, DIVIDEND_RECORD_LEN, POOL_LEN,
};
use rwa_hub::error::RwaHubError;
use rwa_hub::fee::FeeSplit;

fn addr(b: u8) -> Address {
    Address::new([b; 32])
}

fn asset() -> Asset {
    let mut a = Asset::unpack(&vec![0u8; ASSET_LEN]).unwrap();
    create_asset(
        &mut a, &addr(1), true, "Vineyard".to_string(), "VIN".to_string(), 1000, 0, 10, &addr(2),
        200, 35, 100,
    )
    .unwrap();
    a
}

fn empty_pool() -> DividendPool {
    DividendPool::unpack(&vec![0u8; POOL_LEN]).unwrap()
}

fn empty_record() -> DividendRecord {
    DividendRecord::unpack(&vec![0u8; DIVIDEND_RECORD_LEN]).unwrap()
}

fn open_pool(amount: u64) -> DividendPool {
    let mut p = empty_pool();
    create_dividend(&mut p, &asset(), &addr(1), true, amount, 5000, 35, 1000).unwrap();
    p
}

#[test]
fn first_deposit_creates_pool() {
    let mut p = empty_pool();
    let s = create_dividend(&mut p, &asset(), &addr(1), true, 10_000, 5000, 35, 1000).unwrap();
    assert_eq!(s, FeeSplit { total: 10_000, fee: 350, net: 9650 });
    assert!(p.is_initialized && p.is_active);
    assert_eq!(p.total_deposited, 9650);
    assert_eq!(p.distributable_amount, 9650);
    assert_eq!(p.remaining_amount, 9650);
    assert_eq!(p.creator, addr(1));
    assert_eq!(p.asset_mint, addr(2));
    assert_eq!(p.deadline, 5000);
    assert_eq!(p.created_at, 1000);
}

#[test]
fn later_deposit_adds_at_pool_rate() {
    let mut p = open_pool(1000);
    let s = create_dividend(&mut p, &asset(), &addr(1), true, 2000, 9000, 100, 1200).unwrap();
    assert_eq!(s, FeeSplit { total: 2000, fee: 70, net: 1930 });
    assert_eq!(p.total_deposited, 965 + 1930);
    assert_eq!(p.remaining_amount, 965 + 1930);
    assert_eq!(p.deadline, 5000);
}

#[test]
fn deposit_errors() {
    let a = asset();
    let mut p = empty_pool();
    assert_eq!(create_dividend(&mut p, &a, &addr(1), false, 10, 5000, 35, 1000), Err(RwaHubError::Unauthorized));
    assert_eq!(create_dividend(&mut p, &a, &addr(3), true, 10, 5000, 35, 1000), Err(RwaHubError::Unauthorized));
    assert_eq!(create_dividend(&mut p, &a, &addr(1), true, 0, 5000, 35, 1000), Err(RwaHubError::InvalidDividendAmount));
    assert_eq!(create_dividend(&mut p, &a, &addr(1), true, 10, 5000, 1001, 1000), Err(RwaHubError::InvalidFeeAmount));
    assert_eq!(create_dividend(&mut p, &a, &addr(1), true, 10, 1000, 35, 1000), Err(RwaHubError::InvalidDeadline));
    let none = Asset::unpack(&vec![0u8; ASSET_LEN]).unwrap();
    assert_eq!(create_dividend(&mut p, &none, &addr(1), true, 10, 5000, 35, 1000), Err(RwaHubError::AssetNotFound));
    assert!(!p.is_initialized);
    let mut full = open_pool(1000);
    full.total_deposited = u64::MAX;
    assert_eq!(create_dividend(&mut full, &a, &addr(1), true, 1000, 5000, 35, 1000), Err(RwaHubError::ArithmeticOverflow));
}

#[test]
fn holders_info_excludes_share() {
    let mut p = open_pool(1000);
    assert_eq!(set_holders_info(&mut p, &addr(1), true, 12, 65), Ok(()));
    assert_eq!(p.holder_count, 12);
    assert_eq!(p.distributable_amount, 900);
    assert_eq!(p.remaining_amount, 900);
    assert_eq!(set_holders_info(&mut p, &addr(1), true, 12, 0), Ok(()));
    assert_eq!(p.distributable_amount, 965);
    assert_eq!(p.remaining_amount, 965);
    assert_eq!(set_holders_info(&mut p, &addr(1), true, 12, 965), Ok(()));
    assert_eq!(p.distributable_amount, 965);
    assert_eq!(set_holders_info(&mut p, &addr(4), true, 1, 1), Err(RwaHubError::Unauthorized));
    let mut e = empty_pool();
    assert_eq!(set_holders_info(&mut e, &addr(1), true, 1, 1), Err(RwaHubError::DividendNotActive));
}

#[test]
fn claim_pays_once() {
    let mut p = open_pool(1000);
    let mut rec = empty_record();
    assert_eq!(claim_dividend(&mut p, &mut rec, &addr(5), true, 300, 2000, &addr(6)), Ok(()));
    assert_eq!(p.remaining_amount, 665);
    assert_eq!(p.claimed_count, 1);
    assert!(rec.claimed);
    assert_eq!(rec.amount_claimed, 300);
    assert_eq!(rec.holder, addr(5));
    assert_eq!(rec.last_claim_time, 2000);
    assert_eq!(rec.reference, addr(6));
    let again = claim_dividend(&mut p, &mut rec, &addr(5), true, 1, 2001, &addr(6));
    assert_eq!(again, Err(RwaHubError::AlreadyClaimed));
    let unsigned = claim_dividend(&mut p, &mut rec, &addr(5), false, 1, 2001, &addr(6));
    assert_eq!(unsigned, Err(RwaHubError::AlreadyClaimed));
    assert_eq!(p.remaining_amount, 665);
    assert_eq!(rec.amount_claimed, 300);
}

#[test]
fn claim_errors() {
    let mut p = open_pool(1000);
    let mut rec = empty_record();
    assert_eq!(claim_dividend(&mut p, &mut rec, &addr(5), false, 1, 2000, &addr(6)), Err(RwaHubError::Unauthorized));
    assert_eq!(claim_dividend(&mut p, &mut rec, &addr(5), true, 1, 5001, &addr(6)), Err(RwaHubError::DividendExpired));
    assert_eq!(claim_dividend(&mut p, &mut rec, &addr(5), true, 966, 2000, &addr(6)), Err(RwaHubError::InsufficientDividendBalance));
    assert_eq!(claim_dividend(&mut p, &mut rec, &addr(5), true, 965, 5000, &addr(6)), Ok(()));
    assert_eq!(p.remaining_amount, 0);
    let mut e = empty_pool();
    let mut r2 = empty_record();
    assert_eq!(claim_dividend(&mut e, &mut r2, &addr(5), true, 0, 0, &addr(6)), Err(RwaHubError::DividendNotActive));
}

#[test]
fn close_stops_claims() {
    let mut p = open_pool(1000);
    assert_eq!(close_dividend(&mut p, &addr(9), true), Err(RwaHubError::Unauthorized));
    assert!(p.is_active);
    assert_eq!(close_dividend(&mut p, &addr(1), true), Ok(()));
    assert!(!p.is_active);
    let mut rec = empty_record();
    assert_eq!(claim_dividend(&mut p, &mut rec, &addr(5), true, 1, 2000, &addr(6)), Err(RwaHubError::DividendNotActive));
    assert_eq!(create_dividend(&mut p, &asset(), &addr(1), true, 10, 9000, 35, 1000), Err(RwaHubError::DividendNotActive));
}

#[test]
fn claims_never_exceed_distributable() {
    let mut p = open_pool(1000);
    let start = p.remaining_amount;
    let mut paid: u64 = 0;
    let mut last = p.remaining_amount;
    for (i, amount) in [400u64, 300, 200, 100, 65].iter().enumerate() {
        let mut rec = empty_record();
        let holder = addr(10 + i as u8);
        if claim_dividend(&mut p, &mut rec, &holder, true, *amount, 2000, &addr(6)).is_ok() {
            paid += rec.amount_claimed;
        }
        assert!(p.remaining_amount <= last);
        last = p.remaining_amount;
    }
    assert_eq!(paid + p.remaining_amount, start);
    assert!(paid <= p.distributable_amount);
    assert_eq!(paid, 965);
}

#[test]
fn exclusion_caps_what_can_be_claimed() {
    let mut p = empty_pool();
    create_dividend(&mut p, &asset(), &addr(1), true, 1000, 5000, 0, 1000).unwrap();
    assert_eq!(set_holders_info(&mut p, &addr(1), true, 4, 200), Ok(()));
    assert_eq!(p.distributable_amount, 800);
    assert_eq!(p.remaining_amount, 800);
    let mut rec = empty_record();
    assert_eq!(
        claim_dividend(&mut p, &mut rec, &addr(5), true, 1000, 2000, &addr(6)),
        Err(RwaHubError::InsufficientDividendBalance)
    );
    assert_eq!(claim_dividend(&mut p, &mut rec, &addr(5), true, 800, 2000, &addr(6)), Ok(()));
    assert!(rec.amount_claimed <= p.distributable_amount);
}

#[test]
fn exclusion_below_paid_is_refused() {
    let mut p = empty_pool();
    create_dividend(&mut p, &asset(), &addr(1), true, 1000, 5000, 0, 1000).unwrap();
    let mut rec = empty_record();
    claim_dividend(&mut p, &mut rec, &addr(5), true, 700, 2000, &addr(6)).unwrap();
    let before = p.pack();
    assert_eq!(set_holders_info(&mut p, &addr(1), true, 4, 400), Err(RwaHubError::InvalidDividendAmount));
    assert_eq!(p.pack(), before);
    assert_eq!(set_holders_info(&mut p, &addr(1), true, 4, 300), Ok(()));
    assert_eq!(p.distributable_amount, 700);
    assert_eq!(p.remaining_amount, 0);
    assert_eq!(set_holders_info(&mut p, &addr(1), true, 4, 0), Ok(()));
    assert_eq!(p.remaining_amount, 300);
}
